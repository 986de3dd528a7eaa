//! Inbound routing: finding the client that a response belongs to.
//!
//! Every confirmation and every fill carries the composite identifier of the
//! order it is about. A routing loop takes the client identifier out of it,
//! looks the client up in the registry and frames the response for the
//! client's socket. A response that cannot be routed is dropped: delivery is
//! best-effort, and a drop never stops the loop.

use crate::codec::{contains_delimiter, decode, lemma_decode_encode, spec_decode, spec_encode};
use crate::framing::{encode_frame, spec_frame_bytes, FrameKind, MAX_PAYLOAD_LEN};
use crate::queue_data::cancels::CancelConfirmMessage;
use crate::queue_data::fills::FillMessage;
use crate::queue_data::orders::OrderConfirmMessage;
use crate::registry::{
    is_current_session, keyed_by_client_id, spec_remove_session, ClientSession,
    ConnectionRegistry,
};
use vstd::prelude::*;

verus! {

/// Why a response was dropped instead of delivered.
#[derive(Debug, Clone, Copy, PartialEq, Eq, Structural)]
pub enum DropReason {
    /// The response carries no composite identifier.
    MissingIdentifier,
    /// The identifier it carries has no delimiter.
    MalformedIdentifier,
    /// No session is registered for the client that the identifier names.
    UnknownClient,
    /// The response does not fit in a frame.
    PayloadTooLarge,
}

/// A response on its way to a client: the session to write to, and the bytes
/// to write.
#[derive(Debug)]
pub struct Delivery<'a, H> {
    pub session: &'a ClientSession<H>,
    pub frame: Vec<u8>,
}

/// Where a response goes: the client identifier under which the session is
/// registered, and the frame to write to it; or the reason why it is dropped.
///
/// `client_order_id` is the composite identifier that the response carries,
/// `payload` the response in its binary encoding, `kind` the frame type
/// under which it is sent.
pub open spec fn spec_route<H>(
    sessions: Map<Seq<char>, ClientSession<H>>,
    kind: FrameKind,
    client_order_id: Option<Seq<char>>,
    payload: Seq<u8>,
) -> Result<(Seq<char>, Seq<u8>), DropReason> {
    match client_order_id {
        None => Err(DropReason::MissingIdentifier),
        Some(composite) => match spec_decode(composite) {
            None => Err(DropReason::MalformedIdentifier),
            Some((client_id, _)) => if !sessions.contains_key(client_id) {
                Err(DropReason::UnknownClient)
            } else if payload.len() > MAX_PAYLOAD_LEN {
                Err(DropReason::PayloadTooLarge)
            } else {
                Ok((client_id, spec_frame_bytes(kind, payload)))
            },
        },
    }
}

/// Whether `routed` is the outcome `expected`: the same drop reason, or a
/// delivery of the expected frame to the session that `sessions` holds for
/// the expected client.
pub open spec fn is_routed<H>(
    routed: Result<Delivery<H>, DropReason>,
    sessions: Map<Seq<char>, ClientSession<H>>,
    expected: Result<(Seq<char>, Seq<u8>), DropReason>,
) -> bool {
    match routed {
        Ok(delivery) => {
            &&& expected == Ok::<(Seq<char>, Seq<u8>), DropReason>(
                (delivery.session.client_id@, delivery.frame@),
            )
            &&& *delivery.session == sessions[delivery.session.client_id@]
        },
        Err(reason) => expected == Err::<(Seq<char>, Seq<u8>), DropReason>(reason),
    }
}

/// Routes one response: decodes the client identifier out of
/// `client_order_id`, looks up the client's session and frames `payload` as
/// a frame of kind `kind` for it. The registry is only read.
pub fn route<'a, H>(
    registry: &'a ConnectionRegistry<H>,
    kind: FrameKind,
    client_order_id: Option<&str>,
    payload: &[u8],
) -> (r: Result<Delivery<'a, H>, DropReason>)
    ensures
        is_routed(
            r,
            registry@,
            spec_route(registry@, kind, client_order_id.deep_view(), payload@),
        ),
{
    let composite = match client_order_id {
        None => {
            return Err(DropReason::MissingIdentifier);
        },
        Some(composite) => composite,
    };
    let client_id = match decode(composite) {
        Err(_) => {
            return Err(DropReason::MalformedIdentifier);
        },
        Ok(parts) => parts.0,
    };
    let session = match registry.lookup(client_id.as_str()) {
        None => {
            return Err(DropReason::UnknownClient);
        },
        Some(session) => session,
    };
    match encode_frame(kind, payload) {
        Err(_) => Err(DropReason::PayloadTooLarge),
        Ok(frame) => Ok(Delivery { session, frame }),
    }
}

/// Routes an order confirmation, whose binary encoding is `payload`, by the
/// composite identifier it carries, as a frame of kind `OrderConfirm`.
pub fn route_order_confirm<'a, H>(
    registry: &'a ConnectionRegistry<H>,
    confirm: &OrderConfirmMessage,
    payload: &[u8],
) -> (r: Result<Delivery<'a, H>, DropReason>)
    ensures
        is_routed(
            r,
            registry@,
            spec_route(
                registry@,
                FrameKind::OrderConfirm,
                confirm.client_order_id.deep_view(),
                payload@,
            ),
        ),
{
    match &confirm.client_order_id {
        Some(composite) => route(
            registry,
            FrameKind::OrderConfirm,
            Some(composite.as_str()),
            payload,
        ),
        None => route(registry, FrameKind::OrderConfirm, None, payload),
    }
}

/// Routes a cancel confirmation, whose binary encoding is `payload`, by the
/// composite identifier it carries, as a frame of kind `CancelConfirm`.
pub fn route_cancel_confirm<'a, H>(
    registry: &'a ConnectionRegistry<H>,
    confirm: &CancelConfirmMessage,
    payload: &[u8],
) -> (r: Result<Delivery<'a, H>, DropReason>)
    ensures
        is_routed(
            r,
            registry@,
            spec_route(
                registry@,
                FrameKind::CancelConfirm,
                Some(confirm.client_order_id@),
                payload@,
            ),
        ),
{
    route(registry, FrameKind::CancelConfirm, Some(confirm.client_order_id.as_str()), payload)
}

/// Routes a fill, whose binary encoding is `payload`, by the composite
/// identifier it carries, as a frame of kind `Fill`.
pub fn route_fill<'a, H>(
    registry: &'a ConnectionRegistry<H>,
    fill: &FillMessage,
    payload: &[u8],
) -> (r: Result<Delivery<'a, H>, DropReason>)
    ensures
        is_routed(
            r,
            registry@,
            spec_route(registry@, FrameKind::Fill, fill.client_order_id.deep_view(), payload@),
        ),
{
    match &fill.client_order_id {
        Some(composite) => route(registry, FrameKind::Fill, Some(composite.as_str()), payload),
        None => route(registry, FrameKind::Fill, None, payload),
    }
}

/// Settles the write of a delivery to the session of `client_id` numbered
/// `session_id`. A write that failed counts as a disconnect: the session is
/// removed from the registry, unless another session has replaced it since
/// the delivery was routed. A write that succeeded leaves the registry as it
/// is. Says whether a session was removed.
pub fn settle_write<H, E>(
    registry: &mut ConnectionRegistry<H>,
    client_id: &str,
    session_id: u64,
    written: &Result<(), E>,
) -> (removed: bool)
    ensures
        keyed_by_client_id(old(registry)@) ==> keyed_by_client_id(final(registry)@),
        final(registry)@ == (if written is Err {
            spec_remove_session(old(registry)@, client_id@, session_id)
        } else {
            old(registry)@
        }),
        removed == (written is Err && is_current_session(old(registry)@, client_id@, session_id)),
{
    match written {
        Ok(_) => false,
        Err(_) => registry.remove_session(client_id, session_id),
    }
}

/// A response whose client is not registered is dropped, whatever else it
/// holds; a response whose client is registered and that fits in a frame is
/// delivered to that client, framed under its kind.
pub proof fn lemma_route_by_registration<H>(
    sessions: Map<Seq<char>, ClientSession<H>>,
    kind: FrameKind,
    composite: Seq<char>,
    payload: Seq<u8>,
)
    requires
        contains_delimiter(composite),
    ensures
        ({
            let client_id = spec_decode(composite)->Some_0.0;
            let routed = spec_route(sessions, kind, Some(composite), payload);
            &&& !sessions.contains_key(client_id) ==> routed == Err::<
                (Seq<char>, Seq<u8>),
                DropReason,
            >(DropReason::UnknownClient)
            &&& sessions.contains_key(client_id) && payload.len() <= MAX_PAYLOAD_LEN ==> routed
                == Ok::<(Seq<char>, Seq<u8>), DropReason>(
                (client_id, spec_frame_bytes(kind, payload)),
            )
        }),
{
}

/// Identity survives the broker: a response that carries the composite
/// identifier which the gateway built for `client_id` finds its way back to
/// `client_id`, as long as that client is registered.
pub proof fn lemma_response_finds_its_client<H>(
    sessions: Map<Seq<char>, ClientSession<H>>,
    kind: FrameKind,
    client_id: Seq<char>,
    local_order_id: Seq<char>,
    payload: Seq<u8>,
)
    requires
        !contains_delimiter(client_id),
        !contains_delimiter(local_order_id),
        sessions.contains_key(client_id),
        payload.len() <= MAX_PAYLOAD_LEN,
    ensures
        spec_route(sessions, kind, Some(spec_encode(client_id, local_order_id)), payload) == Ok::<
            (Seq<char>, Seq<u8>),
            DropReason,
        >((client_id, spec_frame_bytes(kind, payload))),
{
    lemma_decode_encode(client_id, local_order_id);
}

} // verus!
