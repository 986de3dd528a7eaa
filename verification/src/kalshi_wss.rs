//! Messages that the exchange connector sends to the exchange's websocket
//! server, and the builder that numbers them.

use vstd::prelude::*;
use vstd::string::*;

verus! {

/// A request to subscribe to channels of the exchange's websocket feed.
#[derive(Debug)]
pub struct SubscribeSubMessage {
    channels: Vec<String>,
}

impl SubscribeSubMessage {
    /// The names of the channels to subscribe to.
    pub closed spec fn spec_channels(&self) -> Seq<Seq<char>> {
        self.channels.deep_view()
    }

    /// A subscription to the one channel `fill`.
    pub fn default() -> (message: SubscribeSubMessage)
        ensures
            message.spec_channels() == seq!["fill"@],
    {
        let mut channels: Vec<String> = Vec::new();
        channels.push(String::from_str("fill"));
        assert(channels.deep_view() =~= seq!["fill"@]);
        SubscribeSubMessage { channels }
    }

    /// The names of the channels to subscribe to.
    pub fn channels(&self) -> (channels: &Vec<String>)
        ensures
            channels.deep_view() == self.spec_channels(),
    {
        &self.channels
    }
}

/// What a client message says under `params`. Every kind of client message
/// has the same structure but for this part.
#[derive(Debug)]
pub enum KalshiClientSubMessage {
    SubscribeSubMessage(SubscribeSubMessage),
}

/// A message to the exchange's websocket server.
#[derive(Debug)]
pub struct KalshiClientMessage {
    id: u32,
    cmd: String,
    params: KalshiClientSubMessage,
}

impl KalshiClientMessage {
    /// The number of this message.
    pub closed spec fn spec_id(&self) -> u32 {
        self.id
    }

    /// The command of this message.
    pub closed spec fn spec_cmd(&self) -> Seq<char> {
        self.cmd@
    }

    /// The parameters of this message.
    pub closed spec fn spec_params(&self) -> KalshiClientSubMessage {
        self.params
    }

    /// The number of this message.
    pub fn id(&self) -> (id: u32)
        ensures
            id == self.spec_id(),
    {
        self.id
    }

    /// The command of this message.
    pub fn cmd(&self) -> (cmd: &str)
        ensures
            cmd@ == self.spec_cmd(),
    {
        self.cmd.as_str()
    }

    /// The parameters of this message.
    pub fn params(&self) -> (params: &KalshiClientSubMessage)
        ensures
            *params == self.spec_params(),
    {
        &self.params
    }
}

/// A builder of client messages that numbers them: the first message it
/// builds has the number 1, and each one after it the next number.
#[derive(Debug)]
pub struct KalshiClientMessageBuilder {
    next_id: u32,
    cmd: Option<String>,
    params: Option<KalshiClientSubMessage>,
}

impl KalshiClientMessageBuilder {
    /// The number that the next message will have.
    pub closed spec fn spec_next_id(&self) -> u32 {
        self.next_id
    }

    /// The command of the next message, once its content is set.
    pub closed spec fn spec_cmd(&self) -> Option<Seq<char>> {
        match self.cmd {
            Some(cmd) => Some(cmd@),
            None => None,
        }
    }

    /// The parameters of the next message, once its content is set.
    pub closed spec fn spec_params(&self) -> Option<KalshiClientSubMessage> {
        self.params
    }

    /// A builder whose first message will have the number 1, and whose
    /// content is not set yet.
    pub fn new() -> (builder: KalshiClientMessageBuilder)
        ensures
            builder.spec_next_id() == 1,
            builder.spec_cmd() is None,
            builder.spec_params() is None,
    {
        KalshiClientMessageBuilder { next_id: 1, cmd: None, params: None }
    }

    /// The number that the next message will have.
    pub fn next_id(&self) -> (id: u32)
        ensures
            id == self.spec_next_id(),
    {
        self.next_id
    }

    /// Whether the content of the next message is set, so that it can be
    /// built.
    pub fn has_content(&self) -> (set: bool)
        ensures
            set == self.spec_params() is Some,
    {
        self.params.is_some()
    }

    /// Sets the content of the next message to build: its parameters, and
    /// the command that goes with them. The numbering is not touched.
    pub fn content(&mut self, submsg: KalshiClientSubMessage) -> (builder: &mut Self)
        ensures
            builder.spec_next_id() == old(self).spec_next_id(),
            builder.spec_cmd() == Some("subscribe"@),
            builder.spec_params() == Some(submsg),
            *final(self) == *final(builder),
    {
        match submsg {
            KalshiClientSubMessage::SubscribeSubMessage(_) => {
                self.cmd = Some(String::from_str("subscribe"));
                self.params = Some(submsg);
            },
        }
        self
    }

    /// Builds the next message from the content that was set, and moves on to
    /// the next number. The parameters go into the message; the command stays
    /// with the builder.
    pub fn build(&mut self) -> (message: KalshiClientMessage)
        requires
            old(self).spec_params() is Some,
            old(self).spec_next_id() < u32::MAX,
        ensures
            message.spec_id() == old(self).spec_next_id(),
            message.spec_cmd() == (match old(self).spec_cmd() {
                Some(cmd) => cmd,
                None => Seq::<char>::empty(),
            }),
            Some(message.spec_params()) == old(self).spec_params(),
            final(self).spec_next_id() == old(self).spec_next_id() + 1,
            final(self).spec_cmd() == old(self).spec_cmd(),
            final(self).spec_params() is None,
    {
        let cmd = match &self.cmd {
            Some(cmd) => cmd.clone(),
            None => String::new(),
        };
        let params = self.params.take().unwrap();
        let message = KalshiClientMessage { id: self.next_id, cmd, params };
        self.next_id += 1;
        message
    }
}

/// What arrives from the exchange's websocket server.
#[derive(Debug)]
pub enum ServerMessage {
    /// Text: market data, a fill among it.
    Text(String),
    /// Binary data, which the exchange is not expected to send.
    Binary(Vec<u8>),
    /// The server closes the connection, with its reason where it gave one.
    Close(Option<String>),
    /// A ping, which asks for a pong with the same data.
    Ping(Vec<u8>),
    /// A pong, which a client does not expect.
    Pong(Vec<u8>),
}

/// What the connector does with a message from the server.
#[derive(Debug)]
pub enum ConnectorStep {
    /// Read the text as a fill and relay it.
    Handle(String),
    /// Answer with a pong that carries this data.
    Pong(Vec<u8>),
    /// Nothing.
    Ignore,
    /// Stop: the server closed the connection.
    Stop,
}

/// Decides what the connector does with a message from the server: text is
/// handled, a ping is answered with its own data, a close stops the
/// connector, and binary data and pongs are ignored.
pub fn on_server_message(message: ServerMessage) -> (step: ConnectorStep)
    ensures
        match message {
            ServerMessage::Text(text) => step == ConnectorStep::Handle(text),
            ServerMessage::Binary(_) => step == ConnectorStep::Ignore,
            ServerMessage::Close(_) => step == ConnectorStep::Stop,
            ServerMessage::Ping(data) => step == ConnectorStep::Pong(data),
            ServerMessage::Pong(_) => step == ConnectorStep::Ignore,
        },
{
    match message {
        ServerMessage::Text(text) => ConnectorStep::Handle(text),
        ServerMessage::Binary(_) => ConnectorStep::Ignore,
        ServerMessage::Close(_) => ConnectorStep::Stop,
        ServerMessage::Ping(data) => ConnectorStep::Pong(data),
        ServerMessage::Pong(_) => ConnectorStep::Ignore,
    }
}

} // verus!
