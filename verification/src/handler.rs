//! The per-connection handler: what a client's frames mean, from login to
//! disconnect, and how its requests are rewritten on their way to the broker.
//!
//! A connection has to log in before anything else. Once logged in it may
//! send orders and cancels; each has its order identifier rewritten into the
//! composite identifier that carries the client identifier through the
//! broker. Anything else closes the connection.
//!
//! Every UTF-8 name within the cap is accepted at login. A request whose
//! client identifier or order identifier holds the delimiter cannot be
//! rewritten: that request is dropped, and the connection goes on.

use crate::codec::{contains_delimiter, encode, spec_encode, CodecError};
use crate::framing::{
    lemma_decoder_accepts_encoded, parse_login, spec_frame_bytes, spec_parse_login, DecoderModel,
    DecoderState, FrameKind, ProtocolError, MAX_LOGIN_LEN, MAX_PAYLOAD_LEN,
};
use crate::queue_data::cancels::CancelOrderMessage;
use crate::queue_data::orders::CreateOrderMessage;
use crate::registry::{
    is_current_session, keyed_by_client_id, spec_register, spec_remove_session, ClientSession,
    ConnectionRegistry,
};
use vstd::prelude::*;

verus! {

/// How far a connection has come.
#[derive(Debug)]
pub enum ConnectionPhase {
    /// Nothing has been accepted yet: only a login may arrive.
    AwaitingLogin,
    /// The client logged in as `client_id` and may send requests.
    Active { client_id: String },
}

/// A connection phase as a plain value.
pub enum PhaseModel {
    AwaitingLogin,
    Active { client_id: Seq<char> },
}

impl View for ConnectionPhase {
    type V = PhaseModel;

    open spec fn view(&self) -> PhaseModel {
        match self {
            ConnectionPhase::AwaitingLogin => PhaseModel::AwaitingLogin,
            ConnectionPhase::Active { client_id } => PhaseModel::Active { client_id: client_id@ },
        }
    }
}

/// What the handler is to do with a frame that it accepted.
#[derive(Debug)]
pub enum Accepted {
    /// Enter the session into the registry under `client_id`.
    Login { client_id: String },
    /// Decode the order in `payload`, rewrite it and publish it.
    Order { payload: Vec<u8> },
    /// Decode the cancel in `payload`, rewrite it and publish it.
    Cancel { payload: Vec<u8> },
}

/// An accepted frame as a plain value.
pub enum AcceptedModel {
    Login { client_id: Seq<char> },
    Order { payload: Seq<u8> },
    Cancel { payload: Seq<u8> },
}

impl View for Accepted {
    type V = AcceptedModel;

    open spec fn view(&self) -> AcceptedModel {
        match self {
            Accepted::Login { client_id } => AcceptedModel::Login { client_id: client_id@ },
            Accepted::Order { payload } => AcceptedModel::Order { payload: payload@ },
            Accepted::Cancel { payload } => AcceptedModel::Cancel { payload: payload@ },
        }
    }
}

/// What was accepted, if anything, as a plain value.
pub open spec fn accepted_view(accepted: Option<Accepted>) -> Option<AcceptedModel> {
    match accepted {
        Some(accepted) => Some(accepted@),
        None => None,
    }
}

/// The end of a connection: why it is closed, and the client that had logged
/// in on it, if one had, and is now to be taken out of the registry.
#[derive(Debug)]
pub struct Closure {
    pub error: ProtocolError,
    pub client_id: Option<String>,
}

/// The end of a connection as a plain value.
pub struct ClosureModel {
    pub error: ProtocolError,
    pub client_id: Option<Seq<char>>,
}

impl View for Closure {
    type V = ClosureModel;

    open spec fn view(&self) -> ClosureModel {
        ClosureModel { error: self.error, client_id: self.client_id.deep_view() }
    }
}

impl ClosureModel {
    /// The sessions that are left when the connection numbered `session_id`
    /// has ended like this: the client that had logged in on it is taken
    /// out, unless a later login has replaced its session since.
    pub open spec fn deregister<H>(
        self,
        sessions: Map<Seq<char>, ClientSession<H>>,
        session_id: u64,
    ) -> Map<Seq<char>, ClientSession<H>> {
        match self.client_id {
            Some(client_id) => spec_remove_session(sessions, client_id, session_id),
            None => sessions,
        }
    }
}

impl Closure {
    /// Carries out the end of the connection numbered `session_id` in the
    /// registry: the client that had logged in on it is taken out, unless a
    /// later login has replaced its session since. Says whether a session
    /// was removed.
    pub fn deregister<H>(&self, registry: &mut ConnectionRegistry<H>, session_id: u64) -> (removed:
        bool)
        ensures
            keyed_by_client_id(old(registry)@) ==> keyed_by_client_id(final(registry)@),
            final(registry)@ == self@.deregister(old(registry)@, session_id),
            removed == (match self@.client_id {
                Some(client_id) => is_current_session(old(registry)@, client_id, session_id),
                None => false,
            }),
    {
        match &self.client_id {
            Some(client_id) => registry.remove_session(client_id.as_str(), session_id),
            None => false,
        }
    }
}

impl PhaseModel {
    /// The end of a connection in this phase for the reason `error`: a
    /// client that had logged in is taken out of the registry.
    pub open spec fn close(self, error: ProtocolError) -> ClosureModel {
        match self {
            PhaseModel::AwaitingLogin => ClosureModel { error, client_id: None },
            PhaseModel::Active { client_id } => ClosureModel { error, client_id: Some(client_id) },
        }
    }

    /// What a frame of kind `kind` with payload `payload` means in this
    /// phase.
    ///
    /// Before the login only a login is accepted, and only one whose payload
    /// is UTF-8 text within the cap; it makes the connection active. An
    /// active connection accepts orders and cancels and stays active.
    /// Everything else closes the connection.
    pub open spec fn on_frame(self, kind: FrameKind, payload: Seq<u8>) -> Result<
        (PhaseModel, AcceptedModel),
        ClosureModel,
    > {
        match self {
            PhaseModel::AwaitingLogin => if kind == FrameKind::Login {
                match spec_parse_login(payload) {
                    Ok(client_id) => Ok(
                        (PhaseModel::Active { client_id }, AcceptedModel::Login { client_id }),
                    ),
                    Err(error) => Err(self.close(error)),
                }
            } else {
                Err(self.close(ProtocolError::LoginRequired))
            },
            PhaseModel::Active { client_id } => if kind == FrameKind::Order {
                Ok((self, AcceptedModel::Order { payload }))
            } else if kind == FrameKind::Cancel {
                Ok((self, AcceptedModel::Cancel { payload }))
            } else {
                Err(self.close(ProtocolError::UnexpectedFrame))
            },
        }
    }
}

impl ConnectionPhase {
    /// The phase of a fresh connection.
    pub fn new() -> (phase: Self)
        ensures
            phase@ == PhaseModel::AwaitingLogin,
    {
        ConnectionPhase::AwaitingLogin
    }

    /// Ends the connection for the reason `error`: where the client had
    /// logged in, its identifier is named for removal from the registry.
    pub fn close(self, error: ProtocolError) -> (closure: Closure)
        ensures
            closure@ == self@.close(error),
    {
        match self {
            ConnectionPhase::AwaitingLogin => Closure { error, client_id: None },
            ConnectionPhase::Active { client_id } => Closure { error, client_id: Some(client_id) },
        }
    }

    /// Takes a frame that the decoder dispatched, and says what to do with it
    /// and in which phase the connection goes on, or that it is to be closed.
    pub fn on_frame(self, kind: FrameKind, payload: Vec<u8>) -> (r: Result<
        (ConnectionPhase, Accepted),
        Closure,
    >)
        ensures
            match r {
                Ok((phase, accepted)) => self@.on_frame(kind, payload@) == Ok::<
                    (PhaseModel, AcceptedModel),
                    ClosureModel,
                >((phase@, accepted@)),
                Err(closure) => self@.on_frame(kind, payload@) == Err::<
                    (PhaseModel, AcceptedModel),
                    ClosureModel,
                >(closure@),
            },
    {
        match self {
            ConnectionPhase::AwaitingLogin => match kind {
                FrameKind::Login => match parse_login(payload) {
                    Ok(client_id) => Ok(
                        (
                            ConnectionPhase::Active { client_id: client_id.clone() },
                            Accepted::Login { client_id },
                        ),
                    ),
                    Err(error) => Err(Closure { error, client_id: None }),
                },
                _ => Err(Closure { error: ProtocolError::LoginRequired, client_id: None }),
            },
            ConnectionPhase::Active { client_id } => match kind {
                FrameKind::Order => Ok(
                    (ConnectionPhase::Active { client_id }, Accepted::Order { payload }),
                ),
                FrameKind::Cancel => Ok(
                    (ConnectionPhase::Active { client_id }, Accepted::Cancel { payload }),
                ),
                _ => Err(
                    Closure { error: ProtocolError::UnexpectedFrame, client_id: Some(client_id) },
                ),
            },
        }
    }
}

/// How a request that the handler accepted ended.
#[derive(Debug)]
pub enum RequestOutcome<E> {
    /// The request was handed to the broker.
    Published,
    /// The payload was not the encoding of the request that the frame
    /// announced.
    Malformed,
    /// The request was well-formed, but its identifier could not be rewritten:
    /// it was dropped.
    Dropped(CodecError),
    /// The request was well-formed, but the broker did not take it.
    PublishFailed(E),
}

impl ConnectionPhase {
    /// Says how the connection goes on after a request. A malformed request
    /// ends it, and the client is taken out of the registry. A request that
    /// was published, dropped or refused by the broker leaves the connection
    /// as it is: a failure to publish is not fatal, the client may retry.
    pub fn settle_request<E>(self, outcome: &RequestOutcome<E>) -> (r: Result<
        ConnectionPhase,
        Closure,
    >)
        ensures
            match r {
                Ok(phase) => !(outcome is Malformed) && phase == self,
                Err(closure) => outcome is Malformed && closure@ == self@.close(
                    ProtocolError::InvalidPayload,
                ),
            },
    {
        match outcome {
            RequestOutcome::Malformed => Err(self.close(ProtocolError::InvalidPayload)),
            _ => Ok(self),
        }
    }
}

/// A client connection from the gateway's side: the decoder that cuts the
/// byte stream into frames, and the phase that says what a frame means.
#[derive(Debug)]
pub struct Connection {
    decoder: DecoderState,
    phase: ConnectionPhase,
}

/// A connection as a plain value.
pub struct ConnectionModel {
    pub decoder: DecoderModel,
    pub phase: PhaseModel,
}

impl View for Connection {
    type V = ConnectionModel;

    closed spec fn view(&self) -> ConnectionModel {
        ConnectionModel { decoder: self.decoder@, phase: self.phase@ }
    }
}

impl ConnectionModel {
    /// What follows when `chunk` arrives.
    ///
    /// The decoder takes the chunk. Where that completes a frame, the frame
    /// is handed to the phase at once and the decoder awaits the next
    /// header: the result names what was accepted. Where the frame is not
    /// complete yet, nothing is accepted and the phase stays. An error of
    /// the decoder and a frame that the phase refuses both end the
    /// connection, and a client that had logged in is taken out of the
    /// registry.
    pub open spec fn feed(self, chunk: Seq<u8>) -> Result<
        (ConnectionModel, Option<AcceptedModel>),
        ClosureModel,
    > {
        match self.decoder.advance(chunk) {
            Err(error) => Err(self.phase.close(error)),
            Ok(DecoderModel::Dispatch { kind, payload }) => ConnectionModel::dispatch(
                self.phase,
                kind,
                payload,
            ),
            Ok(decoder) => Ok((ConnectionModel { decoder, phase: self.phase }, None)),
        }
    }

    /// What follows when a whole frame of kind `kind` with payload `payload`
    /// has arrived on a connection in phase `phase`: what the phase makes of
    /// the frame, with the decoder back at the next header.
    pub open spec fn dispatch(phase: PhaseModel, kind: FrameKind, payload: Seq<u8>) -> Result<
        (ConnectionModel, Option<AcceptedModel>),
        ClosureModel,
    > {
        match phase.on_frame(kind, payload) {
            Ok((next, accepted)) => Ok(
                (
                    ConnectionModel { decoder: DecoderModel::AwaitingHeader, phase: next },
                    Some(accepted),
                ),
            ),
            Err(closure) => Err(closure),
        }
    }
}

impl Connection {
    /// Between two chunks the decoder is never at a dispatch, and never
    /// awaits an empty payload: it always needs at least one byte.
    #[verifier::type_invariant]
    spec fn wf(&self) -> bool {
        self.decoder@.needed() > 0
    }

    /// A fresh connection: the header of the first frame is awaited, and
    /// that frame has to be a login.
    pub fn new() -> (connection: Self)
        ensures
            connection@ == (ConnectionModel {
                decoder: DecoderModel::AwaitingHeader,
                phase: PhaseModel::AwaitingLogin,
            }),
    {
        Connection { decoder: DecoderState::new(), phase: ConnectionPhase::new() }
    }

    /// The phase that the connection is in.
    pub fn phase(&self) -> (phase: &ConnectionPhase)
        ensures
            phase@ == self@.phase,
    {
        &self.phase
    }

    /// How many bytes to read from the socket and hand to `feed` next: at
    /// least one.
    pub fn needed(&self) -> (n: usize)
        ensures
            n == self@.decoder.needed(),
            n > 0,
    {
        proof {
            use_type_invariant(self);
        }
        self.decoder.needed()
    }

    /// Takes the bytes that were read from the socket; fewer than `needed`
    /// where the stream ended. Says what was accepted, if the chunk
    /// completed a frame, and how the connection goes on, or that it is to
    /// be closed.
    pub fn feed(self, chunk: Vec<u8>) -> (r: Result<(Connection, Option<Accepted>), Closure>)
        ensures
            match r {
                Ok((connection, accepted)) => self@.feed(chunk@) == Ok::<
                    (ConnectionModel, Option<AcceptedModel>),
                    ClosureModel,
                >((connection@, accepted_view(accepted))),
                Err(closure) => self@.feed(chunk@) == Err::<
                    (ConnectionModel, Option<AcceptedModel>),
                    ClosureModel,
                >(closure@),
            },
    {
        let Connection { decoder, phase } = self;
        match decoder.advance(chunk) {
            Err(error) => Err(phase.close(error)),
            Ok(DecoderState::Dispatch { kind, payload }) => match phase.on_frame(kind, payload) {
                Ok((phase, accepted)) => Ok(
                    (Connection { decoder: DecoderState::AwaitingHeader, phase }, Some(accepted)),
                ),
                Err(closure) => Err(closure),
            },
            Ok(decoder) => Ok((Connection { decoder, phase }, None)),
        }
    }

    /// Ends the connection for the reason `error`: where the client had
    /// logged in, its identifier is named for removal from the registry.
    pub fn close(self, error: ProtocolError) -> (closure: Closure)
        ensures
            closure@ == self@.phase.close(error),
    {
        self.phase.close(error)
    }

    /// Says how the connection goes on after a request: see
    /// `ConnectionPhase::settle_request`. What the decoder has taken stays.
    pub fn settle_request<E>(self, outcome: &RequestOutcome<E>) -> (r: Result<Connection, Closure>)
        ensures
            match r {
                Ok(connection) => !(outcome is Malformed) && connection@ == self@,
                Err(closure) => outcome is Malformed && closure@ == self@.phase.close(
                    ProtocolError::InvalidPayload,
                ),
            },
    {
        proof {
            use_type_invariant(&self);
        }
        let Connection { decoder, phase } = self;
        match phase.settle_request(outcome) {
            Ok(phase) => Ok(Connection { decoder, phase }),
            Err(closure) => Err(closure),
        }
    }
}

/// A connection reads the requests that the encoder writes: fed the type
/// byte, the length field and the payload of an encoded login, order or
/// cancel, it accepts nothing until the frame is complete, and then does
/// what its phase makes of that frame.
pub proof fn lemma_connection_reads_encoded_frame(
    phase: PhaseModel,
    kind: FrameKind,
    payload: Seq<u8>,
)
    requires
        kind.spec_is_request(),
        payload.len() <= MAX_PAYLOAD_LEN,
        kind == FrameKind::Login ==> payload.len() <= MAX_LOGIN_LEN,
    ensures
        ({
            let bytes = spec_frame_bytes(kind, payload);
            let at_header = ConnectionModel { decoder: DecoderModel::AwaitingHeader, phase };
            let at_length = ConnectionModel { decoder: DecoderModel::AwaitingLength { kind }, phase };
            let at_payload = ConnectionModel {
                decoder: DecoderModel::AwaitingPayload { kind, len: payload.len() },
                phase,
            };
            &&& at_header.feed(bytes.subrange(0, 1)) == Ok::<
                (ConnectionModel, Option<AcceptedModel>),
                ClosureModel,
            >((at_length, None))
            &&& payload.len() == 0 ==> at_length.feed(bytes.subrange(1, 3))
                == ConnectionModel::dispatch(phase, kind, payload)
            &&& payload.len() > 0 ==> at_length.feed(bytes.subrange(1, 3)) == Ok::<
                (ConnectionModel, Option<AcceptedModel>),
                ClosureModel,
            >((at_payload, None))
            &&& payload.len() > 0 ==> at_payload.feed(bytes.subrange(3, bytes.len() as int))
                == ConnectionModel::dispatch(phase, kind, payload)
        }),
{
    lemma_decoder_accepts_encoded(kind, payload);
}

/// A session lives from login to close: once the session of a client that
/// logged in is registered, it is found under the client's identifier; and
/// once the connection has ended, for whatever reason, and that end is
/// carried out in the registry, the client is no longer found.
pub proof fn lemma_session_lives_from_login_to_close<H>(
    sessions: Map<Seq<char>, ClientSession<H>>,
    session: ClientSession<H>,
    error: ProtocolError,
)
    ensures
        ({
            let client_id = session.client_id@;
            let registered = spec_register(sessions, session);
            let closure = (PhaseModel::Active { client_id }).close(error);
            &&& registered.contains_key(client_id)
            &&& registered[client_id] == session
            &&& !closure.deregister(registered, session.session_id).contains_key(client_id)
        }),
{
}

/// Only requests are accepted: whatever the phase, a frame of a kind that
/// only travels from the gateway to the client ends the connection.
pub proof fn lemma_only_requests_are_accepted(phase: PhaseModel, kind: FrameKind, payload: Seq<u8>)
    ensures
        phase.on_frame(kind, payload) is Ok ==> kind.spec_is_request(),
{
}

/// Nothing is accepted before the login: whatever a connection that has not
/// logged in sends, it is either a valid login, which names the client, or
/// the end of the connection, and then nothing is taken out of the registry.
pub proof fn lemma_login_comes_first(kind: FrameKind, payload: Seq<u8>)
    ensures
        match PhaseModel::AwaitingLogin.on_frame(kind, payload) {
            Ok((phase, accepted)) => kind == FrameKind::Login && spec_parse_login(payload) is Ok
                && phase == (PhaseModel::Active { client_id: spec_parse_login(payload)->Ok_0 })
                && accepted == (AcceptedModel::Login {
                client_id: spec_parse_login(payload)->Ok_0,
            }),
            Err(closure) => closure.client_id is None,
        },
{
}

/// Rewrites the order identifier that the client chose into the composite
/// identifier of `client_id` and that identifier. Nothing else in the order
/// changes.
///
/// Fails with `InvalidIdentifier` exactly when the client identifier or the
/// client's order identifier contains the delimiter.
pub fn rewrite_order(client_id: &str, order: CreateOrderMessage) -> (r: Result<
    CreateOrderMessage,
    CodecError,
>)
    ensures
        r is Ok <==> !contains_delimiter(client_id@) && !contains_delimiter(
            order.client_order_id@,
        ),
        r matches Ok(rewritten) ==> {
            &&& rewritten.client_order_id@ == spec_encode(client_id@, order.client_order_id@)
            &&& rewritten.action == order.action
            &&& rewritten.count == order.count
            &&& rewritten.side == order.side
            &&& rewritten.ticker == order.ticker
            &&& rewritten.order_type == order.order_type
            &&& rewritten.buy_max_cost == order.buy_max_cost
            &&& rewritten.expiration_ts == order.expiration_ts
            &&& rewritten.no_price == order.no_price
            &&& rewritten.sell_position_floor == order.sell_position_floor
            &&& rewritten.yes_price == order.yes_price
        },
        r matches Err(e) ==> e == CodecError::InvalidIdentifier,
{
    match encode(client_id, order.client_order_id.as_str()) {
        Ok(composite) => Ok(
            CreateOrderMessage {
                action: order.action,
                client_order_id: composite,
                count: order.count,
                side: order.side,
                ticker: order.ticker,
                order_type: order.order_type,
                buy_max_cost: order.buy_max_cost,
                expiration_ts: order.expiration_ts,
                no_price: order.no_price,
                sell_position_floor: order.sell_position_floor,
                yes_price: order.yes_price,
            },
        ),
        Err(e) => Err(e),
    }
}

/// Rewrites the order identifier that the client chose into the composite
/// identifier of `client_id` and that identifier. The exchange's order
/// identifier stays as it is.
///
/// Fails with `InvalidIdentifier` exactly when the client identifier or the
/// client's order identifier contains the delimiter.
pub fn rewrite_cancel(client_id: &str, cancel: CancelOrderMessage) -> (r: Result<
    CancelOrderMessage,
    CodecError,
>)
    ensures
        r is Ok <==> !contains_delimiter(client_id@) && !contains_delimiter(
            cancel.client_order_id@,
        ),
        r matches Ok(rewritten) ==> {
            &&& rewritten.client_order_id@ == spec_encode(client_id@, cancel.client_order_id@)
            &&& rewritten.order_id == cancel.order_id
        },
        r matches Err(e) ==> e == CodecError::InvalidIdentifier,
{
    match encode(client_id, cancel.client_order_id.as_str()) {
        Ok(composite) => Ok(
            CancelOrderMessage { order_id: cancel.order_id, client_order_id: composite },
        ),
        Err(e) => Err(e),
    }
}

} // verus!
