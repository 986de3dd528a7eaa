use order_gateway::queue_data::data_core::{Action, Side};
use order_gateway::queue_data::fills::{Fill, FillMessage};
use order_gateway::registry::{ClientSession, ConnectionRegistry};
use order_gateway::relay::PlacedOrders;
use order_gateway::router::{route_fill, DropReason};

fn fill_of(order_id: &str) -> FillMessage {
    FillMessage {
        msg_type: "fill".to_string(),
        sid: 13,
        seq: 5,
        client_order_id: None,
        msg: Fill {
            trade_id: "d91bc706-ee49-470d-82d8-11418bda6fed".to_string(),
            order_id: order_id.to_string(),
            market_ticker: "HIGHNY-22DEC23-B53.5".to_string(),
            is_taker: true,
            side: Side::Yes,
            yes_price: 75,
            no_price: 25,
            count: 278,
            action: Action::Buy,
            ts: 1671899397,
        },
    }
}

#[test]
fn nothing_is_known_of_an_order_before_it_is_recorded() {
    let placed = PlacedOrders::new();
    assert_eq!(placed.composite_of("EX99"), None);
    assert_eq!(placed.composite_of(""), None);
}

#[test]
fn a_recorded_order_gives_its_composite() {
    let mut placed = PlacedOrders::new();
    placed.record("EX99".to_string(), "alice§1".to_string());
    placed.record("EX100".to_string(), "bob§7".to_string());
    assert_eq!(placed.composite_of("EX99"), Some(&"alice§1".to_string()));
    assert_eq!(placed.composite_of("EX100"), Some(&"bob§7".to_string()));
    assert_eq!(placed.composite_of("EX9"), None);
    assert_eq!(placed.composite_of("ex99"), None);
}

#[test]
fn recording_an_order_again_replaces_its_composite() {
    let mut placed = PlacedOrders::new();
    placed.record("EX99".to_string(), "alice§1".to_string());
    placed.record("EX100".to_string(), "bob§7".to_string());
    placed.record("EX99".to_string(), "carol§3".to_string());
    assert_eq!(placed.composite_of("EX99"), Some(&"carol§3".to_string()));
    assert_eq!(placed.composite_of("EX100"), Some(&"bob§7".to_string()));
}

#[test]
fn relay_puts_the_composite_on_the_fill() {
    let mut placed = PlacedOrders::new();
    placed.record("EX99".to_string(), "alice§1".to_string());
    let relayed = placed.relay_fill(fill_of("EX99"));
    let mut expected = fill_of("EX99");
    expected.client_order_id = Some("alice§1".to_string());
    assert_eq!(relayed, expected);
}

#[test]
fn relay_of_an_unknown_order_carries_no_composite() {
    let mut placed = PlacedOrders::new();
    placed.record("EX99".to_string(), "alice§1".to_string());
    let relayed = placed.relay_fill(fill_of("EX100"));
    assert_eq!(relayed, fill_of("EX100"));
}

#[test]
fn relay_replaces_what_the_fill_carried() {
    let placed = PlacedOrders::new();
    let mut fill = fill_of("EX99");
    fill.client_order_id = Some("mallory§1".to_string());
    assert_eq!(placed.relay_fill(fill).client_order_id, None);
}

#[test]
fn a_relayed_fill_is_routed_to_the_client_that_placed_the_order() {
    let mut registry: ConnectionRegistry<u32> = ConnectionRegistry::new();
    registry.register(ClientSession::new("alice".to_string(), 1, 10));
    let mut placed = PlacedOrders::new();
    placed.record("EX99".to_string(), "alice§1".to_string());
    let relayed = placed.relay_fill(fill_of("EX99"));
    let delivery = route_fill(&registry, &relayed, &[1, 2]).unwrap();
    assert_eq!(delivery.session.client_id, "alice");
    assert_eq!(delivery.frame, vec![6, 0, 2, 1, 2]);
    let unknown = placed.relay_fill(fill_of("EX100"));
    assert_eq!(
        route_fill(&registry, &unknown, &[1, 2]).err(),
        Some(DropReason::MissingIdentifier)
    );
}
