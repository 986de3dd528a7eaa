use order_gateway::framing::{encode_frame, DecoderState, FrameKind, MAX_PAYLOAD_LEN};
use order_gateway::handler::{rewrite_order, Accepted, ConnectionPhase};
use order_gateway::queue_data::cancels::CancelConfirmMessage;
use order_gateway::queue_data::data_core::{Action, OrderType, Side};
use order_gateway::queue_data::fills::{Fill, FillMessage};
use order_gateway::queue_data::orders::{CreateOrderMessage, OrderConfirmMessage};
use order_gateway::registry::{ClientSession, ConnectionRegistry};
use order_gateway::router::{
    route, route_cancel_confirm, route_fill, route_order_confirm, settle_write, DropReason,
};

fn registry_of(clients: &[(&str, u32)]) -> ConnectionRegistry<u32> {
    let mut registry = ConnectionRegistry::new();
    for (client_id, handle) in clients {
        registry.register(ClientSession::new(client_id.to_string(), 100 + *handle as u64, *handle));
    }
    registry
}

fn fill_for(client_order_id: Option<&str>) -> FillMessage {
    FillMessage {
        msg_type: "fill".to_string(),
        sid: 13,
        seq: 5,
        client_order_id: client_order_id.map(|id| id.to_string()),
        msg: Fill {
            trade_id: "d91bc706-ee49-470d-82d8-11418bda6fed".to_string(),
            order_id: "ee587a1c-8b87-4dcf-b721-9f6f790619fa".to_string(),
            market_ticker: "HIGHNY-22DEC23-B53.5".to_string(),
            is_taker: true,
            side: Side::Yes,
            yes_price: 75,
            no_price: 25,
            count: 278,
            action: Action::Buy,
            ts: 1671899397,
        },
    }
}

#[test]
fn route_delivers_to_the_registered_client() {
    let registry = registry_of(&[("alice", 1), ("bob", 2)]);
    let delivery = route(&registry, FrameKind::OrderConfirm, Some("bob§17"), &[1, 2, 3]).unwrap();
    assert_eq!(delivery.session.client_id, "bob");
    assert_eq!(delivery.session.handle, 2);
    assert_eq!(delivery.frame, vec![4, 0, 3, 1, 2, 3]);
}

#[test]
fn route_splits_at_the_first_delimiter() {
    let registry = registry_of(&[("alice", 1)]);
    let delivery = route(&registry, FrameKind::Fill, Some("alice§1§2§3"), &[]).unwrap();
    assert_eq!(delivery.session.client_id, "alice");
    assert_eq!(delivery.frame, vec![6, 0, 0]);
}

#[test]
fn route_drops_a_response_without_identifier() {
    let registry = registry_of(&[("alice", 1)]);
    assert_eq!(
        route(&registry, FrameKind::OrderConfirm, None, &[1]).err(),
        Some(DropReason::MissingIdentifier)
    );
}

#[test]
fn route_drops_a_malformed_identifier() {
    let registry = registry_of(&[("alice", 1)]);
    assert_eq!(
        route(&registry, FrameKind::OrderConfirm, Some("alice"), &[1]).err(),
        Some(DropReason::MalformedIdentifier)
    );
    assert_eq!(
        route(&registry, FrameKind::OrderConfirm, Some(""), &[1]).err(),
        Some(DropReason::MalformedIdentifier)
    );
}

#[test]
fn route_drops_a_response_for_an_unknown_client() {
    let registry = registry_of(&[("alice", 1)]);
    assert_eq!(
        route(&registry, FrameKind::OrderConfirm, Some("bob§1"), &[1]).err(),
        Some(DropReason::UnknownClient)
    );
    assert_eq!(
        route(&registry, FrameKind::OrderConfirm, Some("§1"), &[1]).err(),
        Some(DropReason::UnknownClient)
    );
}

#[test]
fn route_drops_a_response_that_does_not_fit_in_a_frame() {
    let registry = registry_of(&[("alice", 1)]);
    let payload = vec![0u8; MAX_PAYLOAD_LEN + 1];
    assert_eq!(
        route(&registry, FrameKind::Fill, Some("alice§1"), &payload).err(),
        Some(DropReason::PayloadTooLarge)
    );
    let payload = vec![0u8; MAX_PAYLOAD_LEN];
    assert!(route(&registry, FrameKind::Fill, Some("alice§1"), &payload).is_ok());
}

#[test]
fn unknown_client_is_reported_before_an_oversized_payload() {
    let registry = registry_of(&[("alice", 1)]);
    let payload = vec![0u8; MAX_PAYLOAD_LEN + 1];
    assert_eq!(
        route(&registry, FrameKind::Fill, Some("bob§1"), &payload).err(),
        Some(DropReason::UnknownClient)
    );
}

#[test]
fn order_confirm_is_framed_as_order_confirm() {
    let registry = registry_of(&[("alice", 1)]);
    let confirm = OrderConfirmMessage::new("EX99".to_string(), Some("alice§1".to_string()));
    let delivery = route_order_confirm(&registry, &confirm, &[7, 7]).unwrap();
    assert_eq!(delivery.session.handle, 1);
    assert_eq!(delivery.frame, vec![4, 0, 2, 7, 7]);
}

#[test]
fn order_confirm_without_identifier_is_dropped() {
    let registry = registry_of(&[("alice", 1)]);
    let confirm = OrderConfirmMessage::new("EX99".to_string(), None);
    assert_eq!(
        route_order_confirm(&registry, &confirm, &[7, 7]).err(),
        Some(DropReason::MissingIdentifier)
    );
}

#[test]
fn cancel_confirm_is_framed_as_cancel_confirm() {
    let registry = registry_of(&[("alice", 1), ("bob", 2)]);
    let confirm = CancelConfirmMessage {
        order_id: "EX99".to_string(),
        client_order_id: "bob§4".to_string(),
    };
    let delivery = route_cancel_confirm(&registry, &confirm, &[9]).unwrap();
    assert_eq!(delivery.session.client_id, "bob");
    assert_eq!(delivery.frame, vec![5, 0, 1, 9]);
}

#[test]
fn cancel_confirm_with_malformed_identifier_is_dropped() {
    let registry = registry_of(&[("alice", 1)]);
    let confirm =
        CancelConfirmMessage { order_id: "EX99".to_string(), client_order_id: "4".to_string() };
    assert_eq!(
        route_cancel_confirm(&registry, &confirm, &[9]).err(),
        Some(DropReason::MalformedIdentifier)
    );
}

#[test]
fn fill_is_framed_as_fill() {
    let registry = registry_of(&[("alice", 1)]);
    let delivery = route_fill(&registry, &fill_for(Some("alice§1")), &[1, 2]).unwrap();
    assert_eq!(delivery.session.client_id, "alice");
    assert_eq!(delivery.frame, vec![6, 0, 2, 1, 2]);
}

#[test]
fn fill_for_an_unregistered_client_is_dropped_and_the_loop_goes_on() {
    let registry = registry_of(&[("alice", 1)]);
    let queue =
        vec![fill_for(Some("bob§1")), fill_for(None), fill_for(Some("x")), fill_for(Some("alice§2"))];
    let mut dropped = Vec::new();
    let mut delivered = Vec::new();
    for fill in &queue {
        match route_fill(&registry, fill, &[0]) {
            Ok(delivery) => delivered.push(delivery.session.client_id.clone()),
            Err(reason) => dropped.push(reason),
        }
    }
    assert_eq!(
        dropped,
        vec![
            DropReason::UnknownClient,
            DropReason::MissingIdentifier,
            DropReason::MalformedIdentifier
        ]
    );
    assert_eq!(delivered, vec!["alice".to_string()]);
    assert_eq!(registry.len(), 1);
    assert!(registry.is_registered("alice"));
}

#[test]
fn failed_write_removes_the_session() {
    let mut registry = registry_of(&[("alice", 1), ("bob", 2)]);
    let written: Result<(), String> = Err("connection reset".to_string());
    assert!(settle_write(&mut registry, "alice", 101, &written));
    assert!(registry.lookup("alice").is_none());
    assert!(registry.is_registered("bob"));
    assert_eq!(
        route(&registry, FrameKind::Fill, Some("alice§1"), &[]).err(),
        Some(DropReason::UnknownClient)
    );
}

#[test]
fn successful_write_keeps_the_session() {
    let mut registry = registry_of(&[("alice", 1)]);
    let written: Result<(), String> = Ok(());
    assert!(!settle_write(&mut registry, "alice", 101, &written));
    assert!(registry.is_registered("alice"));
}

#[test]
fn failed_write_to_a_session_already_gone_removes_nothing() {
    let mut registry = registry_of(&[("bob", 2)]);
    let written: Result<(), String> = Err("broken pipe".to_string());
    assert!(!settle_write(&mut registry, "alice", 101, &written));
    assert_eq!(registry.len(), 1);
}

#[test]
fn failed_write_to_a_replaced_session_spares_the_newer_one() {
    let mut registry = registry_of(&[("alice", 1)]);
    let stale = route(&registry, FrameKind::Fill, Some("alice§1"), &[]).unwrap().session.session_id;
    registry.register(ClientSession::new("alice".to_string(), 555, 9));
    let written: Result<(), String> = Err("broken pipe".to_string());
    assert!(!settle_write(&mut registry, "alice", stale, &written));
    assert_eq!(registry.lookup("alice").unwrap().handle, 9);
}

#[test]
fn login_then_close_in_the_registry() {
    let mut registry: ConnectionRegistry<u32> = ConnectionRegistry::new();
    let (phase, accepted) =
        ConnectionPhase::new().on_frame(FrameKind::Login, b"alice".to_vec()).unwrap();
    match accepted {
        Accepted::Login { client_id } => {
            registry.register(ClientSession::new(client_id, 7, 42));
        }
        other => panic!("{:?}", other),
    }
    assert_eq!(registry.lookup("alice").unwrap().handle, 42);
    let closure = phase.close(order_gateway::framing::ProtocolError::Truncated);
    assert!(closure.deregister(&mut registry, 7));
    assert!(registry.lookup("alice").is_none());
}

#[test]
fn close_of_an_evicted_connection_spares_the_newer_session() {
    let mut registry: ConnectionRegistry<u32> = ConnectionRegistry::new();
    registry.register(ClientSession::new("alice".to_string(), 1, 10));
    registry.register(ClientSession::new("alice".to_string(), 2, 20));
    let earlier = ConnectionPhase::Active { client_id: "alice".to_string() };
    let closure = earlier.close(order_gateway::framing::ProtocolError::Truncated);
    assert!(!closure.deregister(&mut registry, 1));
    assert_eq!(registry.lookup("alice").unwrap().handle, 20);
}

#[test]
fn close_before_login_leaves_the_registry_alone() {
    let mut registry: ConnectionRegistry<u32> = ConnectionRegistry::new();
    registry.register(ClientSession::new("alice".to_string(), 1, 10));
    let closure = ConnectionPhase::new().close(order_gateway::framing::ProtocolError::Truncated);
    assert!(!closure.deregister(&mut registry, 1));
    assert_eq!(registry.len(), 1);
}

#[test]
fn order_travels_out_and_its_confirmation_comes_home() {
    // alice logs in
    let mut registry: ConnectionRegistry<u32> = ConnectionRegistry::new();
    let login = encode_frame(FrameKind::Login, b"alice").unwrap();
    let state = DecoderState::new().advance(login[0..1].to_vec()).unwrap();
    let state = state.advance(login[1..3].to_vec()).unwrap();
    let state = state.advance(login[3..].to_vec()).unwrap();
    let (kind, payload) = match state {
        DecoderState::Dispatch { kind, payload } => (kind, payload),
        other => panic!("{:?}", other),
    };
    let (phase, accepted) = ConnectionPhase::new().on_frame(kind, payload).unwrap();
    let client_id = match accepted {
        Accepted::Login { client_id } => client_id,
        other => panic!("{:?}", other),
    };
    registry.register(ClientSession::new(client_id, 1, 1));

    // alice sends an order; the gateway publishes it under the composite identifier
    let order = CreateOrderMessage {
        action: Action::Buy,
        client_order_id: "1".to_string(),
        count: 5,
        side: Side::Yes,
        ticker: "X".to_string(),
        order_type: OrderType::Limit,
        buy_max_cost: None,
        expiration_ts: None,
        no_price: None,
        sell_position_floor: None,
        yes_price: None,
    };
    let client_id = match &phase {
        ConnectionPhase::Active { client_id } => client_id.clone(),
        other => panic!("{:?}", other),
    };
    let published = rewrite_order(&client_id, order).unwrap();
    assert_eq!(published.client_order_id, "alice§1");
    assert_eq!(published.ticker, "X");
    assert_eq!(published.count, 5);
    assert_eq!(published.side, Side::Yes);

    // the connector echoes a confirmation; its payload is the compact binary encoding
    let confirm =
        OrderConfirmMessage::new("EX99".to_string(), Some(published.client_order_id.clone()));
    let payload =
        bincode::serialize(&(confirm.order_id.clone(), confirm.client_order_id.clone())).unwrap();
    let mut expected_payload = vec![4u8, 0, 0, 0, 0, 0, 0, 0];
    expected_payload.extend_from_slice(b"EX99");
    expected_payload.push(1);
    expected_payload.extend_from_slice(&[8, 0, 0, 0, 0, 0, 0, 0]);
    expected_payload.extend_from_slice("alice§1".as_bytes());
    assert_eq!(payload, expected_payload);

    // the router finds alice and frames the confirmation for her socket
    let delivery = route_order_confirm(&registry, &confirm, &payload).unwrap();
    assert_eq!(delivery.session.client_id, "alice");
    assert_eq!(delivery.session.handle, 1);
    let mut expected_frame = vec![4u8, 0, 29];
    expected_frame.extend_from_slice(&expected_payload);
    assert_eq!(delivery.frame, expected_frame);
    assert_eq!(delivery.frame, encode_frame(FrameKind::OrderConfirm, &payload).unwrap());
}
