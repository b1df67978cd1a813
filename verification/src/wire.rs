//! The values that travel over a channel between gateway and agent.
//!
//! Every application frame is a text message that carries an [`Envelope`];
//! the two exceptions are the agent's first frame, an [`AgentHandshake`], and
//! the gateway's first frame, the bare connection ID.

use vstd::prelude::*;
use crate::text::same_text;

verus! {

/// The first frame an agent sends.
#[derive(Clone, Debug, PartialEq, Eq)]
pub struct AgentHandshake {
    pub tunnel_id: String,
    pub agent_version: String,
}

/// The frame that wraps every later application message: a message type and
/// a payload, itself a JSON text.
#[derive(Clone, Debug, PartialEq, Eq)]
pub struct Envelope {
    pub message_type: String,
    pub payload: String,
}

/// An HTTP request on its way from the gateway to an agent's origin.
#[derive(Clone, Debug, PartialEq, Eq)]
pub struct ForwardedRequest {
    pub method: String,
    pub path: String,
    pub body: String,
    pub headers: Vec<(String, String)>,
}

/// The mathematical content of a [`ForwardedRequest`]; the headers keep
/// their order and may repeat a name.
pub struct RequestView {
    pub method: Seq<char>,
    pub path: Seq<char>,
    pub body: Seq<char>,
    pub headers: Seq<(Seq<char>, Seq<char>)>,
}

impl View for ForwardedRequest {
    type V = RequestView;

    open spec fn view(&self) -> RequestView {
        RequestView {
            method: self.method@,
            path: self.path@,
            body: self.body@,
            headers: self.headers.deep_view(),
        }
    }
}

/// A header, as a pair of owned strings.
pub fn header(name: &str, value: &str) -> (pair: (String, String))
    ensures
        pair.deep_view() == (name@, value@),
{
    (name.to_owned(), value.to_owned())
}

/// What the gateway queues for a channel's send task.
#[derive(Clone, Debug, PartialEq, Eq)]
pub enum OutboundFrame {
    /// A text frame with the given content.
    Text(String),
    /// A close frame without a reason.
    Close,
}

/// A frame as it is written to a socket.
#[derive(Clone, Debug, PartialEq, Eq)]
pub enum SocketFrame {
    Text(String),
    Ping(Vec<u8>),
    Pong(Vec<u8>),
    /// A close frame without a reason.
    Close,
}

/// The message types of the protocol.
#[derive(Clone, Copy, Debug, PartialEq, Eq, Structural)]
pub enum MessageKind {
    Request,
    Response,
    Error,
    /// Any message type the protocol does not know.
    Unknown,
}

/// The kind that a message-type text denotes.
pub open spec fn kind_of(message_type: Seq<char>) -> MessageKind {
    if message_type == "request"@ {
        MessageKind::Request
    } else if message_type == "response"@ {
        MessageKind::Response
    } else if message_type == "error"@ {
        MessageKind::Error
    } else {
        MessageKind::Unknown
    }
}

/// The text that names a kind on the wire; an unknown kind has none.
pub open spec fn name_of(kind: MessageKind) -> Seq<char> {
    match kind {
        MessageKind::Request => "request"@,
        MessageKind::Response => "response"@,
        MessageKind::Error => "error"@,
        MessageKind::Unknown => Seq::empty(),
    }
}

/// Classifies the `message_type` field of an envelope.
pub fn message_kind(message_type: &str) -> (kind: MessageKind)
    ensures
        kind == kind_of(message_type@),
{
    if same_text(message_type, "request") {
        MessageKind::Request
    } else if same_text(message_type, "response") {
        MessageKind::Response
    } else if same_text(message_type, "error") {
        MessageKind::Error
    } else {
        MessageKind::Unknown
    }
}

impl Envelope {
    /// The envelope of a forwarded request; `payload` is the JSON text of a
    /// [`ForwardedRequest`].
    pub fn request(payload: String) -> (envelope: Envelope)
        ensures
            envelope.message_type@ == name_of(MessageKind::Request),
            kind_of(envelope.message_type@) == MessageKind::Request,
            envelope.payload == payload,
    {
        proof {
            lemma_kind_names_round_trip();
        }
        Envelope { message_type: "request".to_owned(), payload }
    }

    /// The envelope of an agent's reply; `payload` is the JSON text of the
    /// agent's response.
    pub fn response(payload: String) -> (envelope: Envelope)
        ensures
            envelope.message_type@ == name_of(MessageKind::Response),
            kind_of(envelope.message_type@) == MessageKind::Response,
            envelope.payload == payload,
    {
        proof {
            lemma_kind_names_round_trip();
        }
        Envelope { message_type: "response".to_owned(), payload }
    }

    /// The envelope of a failure; `payload` is the error's text.
    pub fn error(payload: String) -> (envelope: Envelope)
        ensures
            envelope.message_type@ == name_of(MessageKind::Error),
            kind_of(envelope.message_type@) == MessageKind::Error,
            envelope.payload == payload,
    {
        proof {
            lemma_kind_names_round_trip();
        }
        Envelope { message_type: "error".to_owned(), payload }
    }

    /// The kind of this envelope.
    pub fn kind(&self) -> (kind: MessageKind)
        ensures
            kind == kind_of(self.message_type@),
    {
        message_kind(self.message_type.as_str())
    }
}

/// The three named kinds are told apart, and each is recovered from its
/// name.
pub proof fn lemma_kind_names_round_trip()
    ensures
        kind_of(name_of(MessageKind::Request)) == MessageKind::Request,
        kind_of(name_of(MessageKind::Response)) == MessageKind::Response,
        kind_of(name_of(MessageKind::Error)) == MessageKind::Error,
{
    reveal_strlit("request");
    reveal_strlit("response");
    reveal_strlit("error");
    assert("error"@.len() != "response"@.len());
}

} // verus!
