//! The wire protocol between a client and the gateway.
//!
//! Every frame is one type byte, a two-byte big-endian payload length, and
//! that many bytes of payload. The length field bounds a payload at
//! `MAX_PAYLOAD_LEN` bytes, and so a frame at `MAX_FRAME_LEN` bytes; the
//! payload of a login frame is the client identifier as UTF-8 text of at
//! most `MAX_LOGIN_LEN` bytes.
//!
//! Logins, orders and cancels travel from the client to the gateway;
//! confirmations and fills travel back. The decoder is the gateway's: it
//! takes the type bytes of the three requests and refuses every other byte
//! at the header, before anything more is read.

use vstd::prelude::*;
use vstd::utf8::{
    decode_utf8, encode_utf8, encode_utf8_decode_utf8, encode_utf8_valid_utf8, valid_utf8,
};

verus! {

/// Width of the length field, in bytes.
pub const LENGTH_FIELD_SIZE: usize = 2;

/// Bytes that precede the payload: the type byte and the length field.
pub const FRAME_OVERHEAD: usize = 3;

/// The largest payload that the length field can announce.
pub const MAX_PAYLOAD_LEN: usize = 65535;

/// The largest client identifier, in bytes of UTF-8, that a login may carry.
pub const MAX_LOGIN_LEN: usize = 255;

/// The largest frame, type byte and length field included.
pub const MAX_FRAME_LEN: usize = 65538;

/// Why a connection has to be closed.
#[derive(Debug, Clone, Copy, PartialEq, Eq, Structural)]
pub enum ProtocolError {
    /// The type byte names no frame that a client may send.
    InvalidHeader,
    /// The stream gave fewer bytes than the frame needs.
    Truncated,
    /// The payload is longer than the length field can say.
    PayloadTooLarge,
    /// A login announces a client identifier above `MAX_LOGIN_LEN`.
    LoginTooLong,
    /// The client identifier is not UTF-8.
    InvalidLoginName,
    /// A frame other than a login arrived before the login.
    LoginRequired,
    /// A frame that a logged-in client may not send.
    UnexpectedFrame,
    /// The payload is not the encoding of the message that the frame type
    /// announces.
    InvalidPayload,
}

/// The type of a frame, which its first byte says.
#[derive(Debug, Clone, Copy, PartialEq, Eq, Structural)]
pub enum FrameKind {
    Login,
    Order,
    Cancel,
    OrderConfirm,
    CancelConfirm,
    Fill,
}

impl FrameKind {
    /// The type byte of this kind of frame.
    pub open spec fn spec_to_byte(self) -> u8 {
        match self {
            FrameKind::Login => 1,
            FrameKind::Order => 2,
            FrameKind::Cancel => 3,
            FrameKind::OrderConfirm => 4,
            FrameKind::CancelConfirm => 5,
            FrameKind::Fill => 6,
        }
    }

    /// The kind of frame that the type byte `byte` announces, if any.
    pub open spec fn spec_from_byte(byte: u8) -> Option<FrameKind> {
        if byte == 1 {
            Some(FrameKind::Login)
        } else if byte == 2 {
            Some(FrameKind::Order)
        } else if byte == 3 {
            Some(FrameKind::Cancel)
        } else if byte == 4 {
            Some(FrameKind::OrderConfirm)
        } else if byte == 5 {
            Some(FrameKind::CancelConfirm)
        } else if byte == 6 {
            Some(FrameKind::Fill)
        } else {
            None
        }
    }

    /// Whether a client may send this kind of frame; the others only travel
    /// from the gateway to the client.
    pub open spec fn spec_is_request(self) -> bool {
        self == FrameKind::Login || self == FrameKind::Order || self == FrameKind::Cancel
    }

    /// The kind of request that the type byte `byte` announces: a login, an
    /// order or a cancel, or `None` for every other byte.
    pub open spec fn spec_request_from_byte(byte: u8) -> Option<FrameKind> {
        match FrameKind::spec_from_byte(byte) {
            Some(kind) => if kind.spec_is_request() {
                Some(kind)
            } else {
                None
            },
            None => None,
        }
    }

    /// The type byte of this kind of frame.
    pub fn to_byte(&self) -> (byte: u8)
        ensures
            byte == self.spec_to_byte(),
            FrameKind::spec_from_byte(byte) == Some(*self),
    {
        match self {
            FrameKind::Login => 1,
            FrameKind::Order => 2,
            FrameKind::Cancel => 3,
            FrameKind::OrderConfirm => 4,
            FrameKind::CancelConfirm => 5,
            FrameKind::Fill => 6,
        }
    }

    /// The kind of frame that the type byte `byte` announces, or `None` where
    /// it announces none.
    pub fn from_byte(byte: u8) -> (kind: Option<FrameKind>)
        ensures
            kind == FrameKind::spec_from_byte(byte),
            kind matches Some(k) ==> k.spec_to_byte() == byte,
    {
        if byte == 1 {
            Some(FrameKind::Login)
        } else if byte == 2 {
            Some(FrameKind::Order)
        } else if byte == 3 {
            Some(FrameKind::Cancel)
        } else if byte == 4 {
            Some(FrameKind::OrderConfirm)
        } else if byte == 5 {
            Some(FrameKind::CancelConfirm)
        } else if byte == 6 {
            Some(FrameKind::Fill)
        } else {
            None
        }
    }

    /// The kind of request that the type byte `byte` announces, or `None`
    /// where it announces none.
    pub fn request_from_byte(byte: u8) -> (kind: Option<FrameKind>)
        ensures
            kind == FrameKind::spec_request_from_byte(byte),
    {
        match FrameKind::from_byte(byte) {
            Some(kind) => if kind.is_request() {
                Some(kind)
            } else {
                None
            },
            None => None,
        }
    }

    /// Whether a client may send this kind of frame.
    pub fn is_request(&self) -> (request: bool)
        ensures
            request == self.spec_is_request(),
    {
        match self {
            FrameKind::Login => true,
            FrameKind::Order => true,
            FrameKind::Cancel => true,
            _ => false,
        }
    }
}

/// A byte is the type byte of a kind exactly when it announces that kind:
/// encoder and decoder agree on the type values.
pub proof fn lemma_type_byte_round_trip(kind: FrameKind, byte: u8)
    ensures
        FrameKind::spec_from_byte(kind.spec_to_byte()) == Some(kind),
        FrameKind::spec_from_byte(byte) == Some(kind) <==> kind.spec_to_byte() == byte,
{
}

/// The length that the two bytes of a length field announce.
pub open spec fn spec_length(high: u8, low: u8) -> nat {
    (high as nat) * 256 + (low as nat)
}

/// The bytes of the frame of kind `kind` with payload `payload`.
pub open spec fn spec_frame_bytes(kind: FrameKind, payload: Seq<u8>) -> Seq<u8> {
    seq![kind.spec_to_byte(), (payload.len() / 256) as u8, (payload.len() % 256) as u8] + payload
}

/// Frames `payload` as a frame of kind `kind`.
///
/// Fails with `PayloadTooLarge` exactly when the payload is longer than
/// `MAX_PAYLOAD_LEN`.
pub fn encode_frame(kind: FrameKind, payload: &[u8]) -> (r: Result<Vec<u8>, ProtocolError>)
    ensures
        r is Ok <==> payload@.len() <= MAX_PAYLOAD_LEN,
        r matches Ok(bytes) ==> bytes@ == spec_frame_bytes(kind, payload@),
        r matches Ok(bytes) ==> bytes@.len() == payload@.len() + FRAME_OVERHEAD && bytes@.len()
            <= MAX_FRAME_LEN,
        r matches Err(e) ==> e == ProtocolError::PayloadTooLarge,
{
    let n: usize = payload.len();
    if n > MAX_PAYLOAD_LEN {
        return Err(ProtocolError::PayloadTooLarge);
    }
    let mut bytes: Vec<u8> = Vec::with_capacity(n + FRAME_OVERHEAD);
    bytes.push(kind.to_byte());
    bytes.push((n / 256) as u8);
    bytes.push((n % 256) as u8);
    let mut i: usize = 0;
    while i < n
        invariant
            n == payload@.len(),
            i <= n,
            bytes@ == spec_frame_bytes(kind, payload@).subrange(0, 3 + i),
        decreases n - i,
    {
        bytes.push(payload[i]);
        i += 1;
    }
    assert(bytes@ == spec_frame_bytes(kind, payload@));
    Ok(bytes)
}

/// Where a connection's decoder stands between two frames.
#[derive(Debug)]
pub enum DecoderState {
    /// The type byte of the next frame is awaited.
    AwaitingHeader,
    /// The type byte said `kind`; the length field is awaited.
    AwaitingLength { kind: FrameKind },
    /// The length field said `len`; that many bytes of payload are awaited.
    AwaitingPayload { kind: FrameKind, len: u16 },
    /// A whole frame has arrived and is to be handed on.
    Dispatch { kind: FrameKind, payload: Vec<u8> },
}

/// A decoder state as a plain value.
pub enum DecoderModel {
    AwaitingHeader,
    AwaitingLength { kind: FrameKind },
    AwaitingPayload { kind: FrameKind, len: nat },
    Dispatch { kind: FrameKind, payload: Seq<u8> },
}

impl View for DecoderState {
    type V = DecoderModel;

    open spec fn view(&self) -> DecoderModel {
        match self {
            DecoderState::AwaitingHeader => DecoderModel::AwaitingHeader,
            DecoderState::AwaitingLength { kind } => DecoderModel::AwaitingLength { kind: *kind },
            DecoderState::AwaitingPayload { kind, len } => DecoderModel::AwaitingPayload {
                kind: *kind,
                len: *len as nat,
            },
            DecoderState::Dispatch { kind, payload } => DecoderModel::Dispatch {
                kind: *kind,
                payload: payload@,
            },
        }
    }
}

impl DecoderModel {
    /// How many bytes the decoder takes next.
    pub open spec fn needed(self) -> nat {
        match self {
            DecoderModel::AwaitingHeader => 1,
            DecoderModel::AwaitingLength { .. } => LENGTH_FIELD_SIZE as nat,
            DecoderModel::AwaitingPayload { len, .. } => len,
            DecoderModel::Dispatch { .. } => 0,
        }
    }

    /// The state that follows when `chunk` arrives, or the error that closes
    /// the connection.
    ///
    /// A chunk of another size than `needed` means that the stream ended
    /// early. A type byte must announce a login, an order or a cancel: every
    /// other byte, the type bytes of the responses among them, is refused at
    /// the header. A login may announce at most `MAX_LOGIN_LEN` bytes. A
    /// frame without payload is complete with its length field. After a
    /// frame was handed on, the next header is awaited.
    pub open spec fn advance(self, chunk: Seq<u8>) -> Result<DecoderModel, ProtocolError> {
        if chunk.len() != self.needed() {
            Err(ProtocolError::Truncated)
        } else {
            match self {
                DecoderModel::AwaitingHeader => match FrameKind::spec_request_from_byte(
                    chunk[0],
                ) {
                    Some(kind) => Ok(DecoderModel::AwaitingLength { kind }),
                    None => Err(ProtocolError::InvalidHeader),
                },
                DecoderModel::AwaitingLength { kind } => {
                    let len = spec_length(chunk[0], chunk[1]);
                    if kind == FrameKind::Login && len > MAX_LOGIN_LEN {
                        Err(ProtocolError::LoginTooLong)
                    } else if len == 0 {
                        Ok(DecoderModel::Dispatch { kind, payload: Seq::empty() })
                    } else {
                        Ok(DecoderModel::AwaitingPayload { kind, len })
                    }
                },
                DecoderModel::AwaitingPayload { kind, .. } => Ok(
                    DecoderModel::Dispatch { kind, payload: chunk },
                ),
                DecoderModel::Dispatch { .. } => Ok(DecoderModel::AwaitingHeader),
            }
        }
    }
}

impl DecoderState {
    /// The decoder of a fresh connection.
    pub fn new() -> (state: Self)
        ensures
            state@ == DecoderModel::AwaitingHeader,
    {
        DecoderState::AwaitingHeader
    }

    /// How many bytes to read from the stream and hand to `advance` next.
    pub fn needed(&self) -> (n: usize)
        ensures
            n == self@.needed(),
    {
        match self {
            DecoderState::AwaitingHeader => 1,
            DecoderState::AwaitingLength { .. } => LENGTH_FIELD_SIZE,
            DecoderState::AwaitingPayload { len, .. } => *len as usize,
            DecoderState::Dispatch { .. } => 0,
        }
    }

    /// Takes the bytes that were read and moves to the next state, or says
    /// why the connection has to be closed.
    pub fn advance(self, chunk: Vec<u8>) -> (r: Result<DecoderState, ProtocolError>)
        ensures
            match r {
                Ok(next) => self@.advance(chunk@) == Ok::<DecoderModel, ProtocolError>(next@),
                Err(e) => self@.advance(chunk@) == Err::<DecoderModel, ProtocolError>(e),
            },
    {
        if chunk.len() != self.needed() {
            return Err(ProtocolError::Truncated);
        }
        match self {
            DecoderState::AwaitingHeader => match FrameKind::request_from_byte(chunk[0]) {
                Some(kind) => Ok(DecoderState::AwaitingLength { kind }),
                None => Err(ProtocolError::InvalidHeader),
            },
            DecoderState::AwaitingLength { kind } => {
                let high: u8 = chunk[0];
                let low: u8 = chunk[1];
                let len: u16 = (high as u16) * 256 + (low as u16);
                if matches!(kind, FrameKind::Login) && len as usize > MAX_LOGIN_LEN {
                    Err(ProtocolError::LoginTooLong)
                } else if len == 0 {
                    Ok(DecoderState::Dispatch { kind, payload: Vec::new() })
                } else {
                    Ok(DecoderState::AwaitingPayload { kind, len })
                }
            },
            DecoderState::AwaitingPayload { kind, .. } => Ok(
                DecoderState::Dispatch { kind, payload: chunk },
            ),
            DecoderState::Dispatch { .. } => Ok(DecoderState::AwaitingHeader),
        }
    }
}

/// The header takes the type bytes of a login, an order and a cancel, and
/// no other byte: whatever else arrives where a header is awaited, the type
/// byte of a response included, is an invalid header, and nothing more of
/// that frame is read.
pub proof fn lemma_header_takes_requests_only(byte: u8)
    ensures
        DecoderModel::AwaitingHeader.advance(seq![byte]) == (match FrameKind::spec_from_byte(byte) {
            Some(FrameKind::Login) => Ok::<DecoderModel, ProtocolError>(
                DecoderModel::AwaitingLength { kind: FrameKind::Login },
            ),
            Some(FrameKind::Order) => Ok::<DecoderModel, ProtocolError>(
                DecoderModel::AwaitingLength { kind: FrameKind::Order },
            ),
            Some(FrameKind::Cancel) => Ok::<DecoderModel, ProtocolError>(
                DecoderModel::AwaitingLength { kind: FrameKind::Cancel },
            ),
            _ => Err::<DecoderModel, ProtocolError>(ProtocolError::InvalidHeader),
        }),
{
}

/// The decoder accepts the requests that the encoder produces: fed the type
/// byte, the length field and the payload of an encoded login, order or
/// cancel, it arrives at the dispatch of that kind and that payload.
pub proof fn lemma_decoder_accepts_encoded(kind: FrameKind, payload: Seq<u8>)
    requires
        kind.spec_is_request(),
        payload.len() <= MAX_PAYLOAD_LEN,
        kind == FrameKind::Login ==> payload.len() <= MAX_LOGIN_LEN,
    ensures
        ({
            let bytes = spec_frame_bytes(kind, payload);
            let after_header = DecoderModel::AwaitingHeader.advance(bytes.subrange(0, 1));
            let after_length = DecoderModel::AwaitingLength { kind }.advance(bytes.subrange(1, 3));
            let after_payload = DecoderModel::AwaitingPayload {
                kind,
                len: payload.len(),
            }.advance(bytes.subrange(3, bytes.len() as int));
            &&& after_header == Ok::<DecoderModel, ProtocolError>(
                DecoderModel::AwaitingLength { kind },
            )
            &&& payload.len() == 0 ==> after_length == Ok::<DecoderModel, ProtocolError>(
                DecoderModel::Dispatch { kind, payload },
            )
            &&& payload.len() > 0 ==> after_length == Ok::<DecoderModel, ProtocolError>(
                DecoderModel::AwaitingPayload { kind, len: payload.len() },
            )
            &&& payload.len() > 0 ==> after_payload == Ok::<DecoderModel, ProtocolError>(
                DecoderModel::Dispatch { kind, payload },
            )
        }),
{
    let bytes = spec_frame_bytes(kind, payload);
    let n = payload.len();
    assert(bytes[1] == (n / 256) as u8);
    assert(bytes[2] == (n % 256) as u8);
    assert(spec_length(bytes[1], bytes[2]) == n);
    assert(bytes.subrange(1, 3)[0] == bytes[1]);
    assert(bytes.subrange(1, 3)[1] == bytes[2]);
    assert(bytes.subrange(3, bytes.len() as int) =~= payload);
    if n == 0 {
        assert(payload =~= Seq::<u8>::empty());
    }
}

/// The client identifier that a login payload carries, or the error that
/// closes the connection: the payload is at most `MAX_LOGIN_LEN` bytes of
/// UTF-8 text, and every such text is a client identifier.
pub open spec fn spec_parse_login(payload: Seq<u8>) -> Result<Seq<char>, ProtocolError> {
    if payload.len() > MAX_LOGIN_LEN {
        Err(ProtocolError::LoginTooLong)
    } else if !valid_utf8(payload) {
        Err(ProtocolError::InvalidLoginName)
    } else {
        Ok(decode_utf8(payload))
    }
}

/// A client logs in under the name it sends: the UTF-8 encoding of a client
/// identifier within the cap is read back as that identifier.
pub proof fn lemma_login_round_trip(client_id: Seq<char>)
    requires
        encode_utf8(client_id).len() <= MAX_LOGIN_LEN,
    ensures
        spec_parse_login(encode_utf8(client_id)) == Ok::<Seq<char>, ProtocolError>(client_id),
{
    encode_utf8_valid_utf8(client_id);
    encode_utf8_decode_utf8(client_id);
}

/// `String::from_utf8` of the standard library: it succeeds exactly on valid
/// UTF-8, and the string it gives holds the characters that the bytes encode.
#[verifier::external_body]
fn string_from_utf8(bytes: Vec<u8>) -> (r: Option<String>)
    ensures
        r is Some <==> valid_utf8(bytes@),
        r matches Some(text) ==> text@ == decode_utf8(bytes@),
{
    String::from_utf8(bytes).ok()
}

/// Reads the client identifier out of the payload of a login frame.
pub fn parse_login(payload: Vec<u8>) -> (r: Result<String, ProtocolError>)
    ensures
        match r {
            Ok(client_id) => spec_parse_login(payload@) == Ok::<Seq<char>, ProtocolError>(
                client_id@,
            ),
            Err(e) => spec_parse_login(payload@) == Err::<Seq<char>, ProtocolError>(e),
        },
{
    if payload.len() > MAX_LOGIN_LEN {
        return Err(ProtocolError::LoginTooLong);
    }
    match string_from_utf8(payload) {
        None => Err(ProtocolError::InvalidLoginName),
        Some(client_id) => Ok(client_id),
    }
}

} // verus!
