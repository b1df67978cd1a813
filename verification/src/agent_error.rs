//! The agent's error: a message, made of what failed and the detail that the
//! failing part reported.

use vstd::prelude::*;
use crate::text::join;

verus! {

/// What can fail on the agent's side.
#[derive(Clone, Copy, Debug, PartialEq, Eq, Structural)]
pub enum Failure {
    /// The gateway URL does not parse.
    InvalidGatewayUrl,
    /// The channel to the gateway could not be opened.
    ConnectFailed,
    /// The handshake could not be written as JSON.
    HandshakeNotSerialized,
    /// The handshake could not be written to the channel.
    HandshakeNotSent,
    /// The forwarded request names a method the agent does not support.
    UnsupportedMethod,
    /// The body of a forwarded request is no JSON text.
    BodyNotJson,
    /// The origin could not be reached.
    OriginUnreachable,
    /// The origin's response could not be read.
    OriginBodyUnread,
    /// The agent's response could not be written as JSON.
    ResponseNotSerialized,
    /// The gateway sent an error envelope.
    GatewayError,
    /// Reading from the channel failed.
    SocketError,
    /// The keepalive ping could not be written to the channel.
    PingNotSent,
    /// Writing to the channel failed; the message is the detail alone.
    WriteFailed,
}

/// The words that open the message of each failure.
pub open spec fn prefix_of(failure: Failure) -> Seq<char> {
    match failure {
        Failure::InvalidGatewayUrl => "Invalid gateway URL: "@,
        Failure::ConnectFailed => "Failed to connect: "@,
        Failure::HandshakeNotSerialized => "Failed to serialize handshake: "@,
        Failure::HandshakeNotSent => "Failed to send handshake: "@,
        Failure::UnsupportedMethod => "Unsupported method: "@,
        Failure::BodyNotJson => "Failed to parse request body: "@,
        Failure::OriginUnreachable => "Failed to forward request to local server: "@,
        Failure::OriginBodyUnread => "Failed to read local server response: "@,
        Failure::ResponseNotSerialized => "Failed to serialize response: "@,
        Failure::GatewayError => "Gateway error: "@,
        Failure::SocketError => "WebSocket error: "@,
        Failure::PingNotSent => "Failed to send ping: "@,
        Failure::WriteFailed => ""@,
    }
}

/// The message of a failure with its detail.
pub open spec fn message_of(failure: Failure, detail: Seq<char>) -> Seq<char> {
    prefix_of(failure) + detail
}

/// An error of the agent.
#[derive(Clone, Debug, PartialEq, Eq)]
pub struct AgentError {
    pub message: String,
}

impl AgentError {
    /// The error for a failure and the detail reported with it.
    pub fn new(failure: Failure, detail: &str) -> (error: AgentError)
        ensures
            error.message@ == message_of(failure, detail@),
    {
        let prefix = match failure {
            Failure::InvalidGatewayUrl => "Invalid gateway URL: ",
            Failure::ConnectFailed => "Failed to connect: ",
            Failure::HandshakeNotSerialized => "Failed to serialize handshake: ",
            Failure::HandshakeNotSent => "Failed to send handshake: ",
            Failure::UnsupportedMethod => "Unsupported method: ",
            Failure::BodyNotJson => "Failed to parse request body: ",
            Failure::OriginUnreachable => "Failed to forward request to local server: ",
            Failure::OriginBodyUnread => "Failed to read local server response: ",
            Failure::ResponseNotSerialized => "Failed to serialize response: ",
            Failure::GatewayError => "Gateway error: ",
            Failure::SocketError => "WebSocket error: ",
            Failure::PingNotSent => "Failed to send ping: ",
            Failure::WriteFailed => "",
        };
        AgentError { message: join(prefix, detail) }
    }

    /// The error's message, as it is logged and sent in an error envelope.
    pub fn message(&self) -> (text: String)
        ensures
            text@ == self.message@,
    {
        self.message.clone()
    }
}

} // verus!
