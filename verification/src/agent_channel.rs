//! The agent's side of one channel.
//!
//! After the transport is up the agent writes its handshake and then reacts
//! to events: frames from the gateway, the keepalive tick and the shutdown
//! request. [`ChannelState::on_event`] turns an event into a
//! [`ChannelAction`]; the caller performs it and reports back where the
//! action asks for it. The gateway's first text frame is the bare connection
//! ID, which is accepted without a look at its content.

use vstd::prelude::*;
use url::Url;
use crate::agent_error::{message_of, AgentError, Failure};
use crate::supervisor::ConnectionEnd;
use crate::text::join;
use crate::url_text::{parse_url, url_parse};
use crate::wire::{
    kind_of, name_of, AgentHandshake, Envelope, ForwardedRequest, MessageKind, SocketFrame,
};

verus! {

/// Seconds between two keepalive pings.
pub const PING_INTERVAL_SECS: u64 = 30;

/// Where the agent looks for the gateway unless told otherwise; `/ws` is
/// appended to it.
pub const DEFAULT_GATEWAY_URL: &'static str = "ws://127.0.0.1:3000";

/// The URL of the gateway's channel endpoint under a base URL.
pub fn channel_url(base: &str) -> (url: String)
    ensures
        url@ == base@ + "/ws"@,
{
    join(base, "/ws")
}

/// The gateway's channel endpoint, once the URL parser has had its say on
/// the endpoint's text: the URL it made, or an error that carries the
/// parser's message.
pub fn endpoint_from(parsed: Result<Url, String>) -> (endpoint: Result<Url, AgentError>)
    ensures
        match parsed {
            Ok(url) => endpoint == Ok::<Url, AgentError>(url),
            Err(detail) => {
                &&& endpoint matches Err(error)
                &&& error.message@ == message_of(Failure::InvalidGatewayUrl, detail@)
            },
        },
{
    match parsed {
        Ok(url) => Ok(url),
        Err(detail) => Err(AgentError::new(Failure::InvalidGatewayUrl, detail.as_str())),
    }
}

/// The gateway's channel endpoint under a base URL: the base with `/ws`
/// appended, parsed as a URL.
pub fn gateway_endpoint(base: &str) -> (endpoint: Result<Url, AgentError>)
    ensures
        match url_parse(base@ + "/ws"@) {
            Ok(url) => endpoint == Ok::<Url, AgentError>(url),
            Err(detail) => {
                &&& endpoint matches Err(error)
                &&& error.message@ == message_of(Failure::InvalidGatewayUrl, detail)
            },
        },
{
    let text = channel_url(base);
    endpoint_from(parse_url(text.as_str()))
}

/// The handshake of an agent with the given tunnel ID and version.
pub fn handshake(tunnel_id: String, agent_version: String) -> (frame: AgentHandshake)
    ensures
        frame.tunnel_id == tunnel_id,
        frame.agent_version == agent_version,
{
    AgentHandshake { tunnel_id, agent_version }
}

/// How a channel ended.
#[derive(Debug, PartialEq, Eq)]
pub enum ChannelEnd {
    /// The gateway closed the channel, or the stream ended.
    Closed,
    /// A shutdown request was served.
    ShutDown,
    /// The channel broke.
    Failed(AgentError),
}

impl ChannelEnd {
    /// What the channel's end means to the supervisor.
    pub fn for_supervisor(&self) -> (end: ConnectionEnd)
        ensures
            end == match self {
                ChannelEnd::Closed => ConnectionEnd::Closed,
                ChannelEnd::ShutDown => ConnectionEnd::ShutDown,
                ChannelEnd::Failed(_) => ConnectionEnd::Failed,
            },
    {
        match self {
            ChannelEnd::Closed => ConnectionEnd::Closed,
            ChannelEnd::ShutDown => ConnectionEnd::ShutDown,
            ChannelEnd::Failed(_) => ConnectionEnd::Failed,
        }
    }
}

/// What happened on the channel.
#[derive(Debug, PartialEq, Eq)]
pub enum ChannelEvent {
    /// A text frame arrived.
    Text(String),
    /// A ping arrived, with its data.
    Ping(Vec<u8>),
    /// A pong arrived.
    Pong,
    /// A close frame arrived.
    Close,
    /// A frame of any other kind arrived.
    Other,
    /// Reading failed; the text is the transport's.
    ReadFailed(String),
    /// The stream ended without a close frame.
    StreamEnded,
    /// The keepalive interval elapsed.
    Tick,
    /// A shutdown request arrived.
    ShutDown,
}

/// Why the agent writes a frame, which decides what a failed write means.
#[derive(Clone, Copy, Debug, PartialEq, Eq, Structural)]
pub enum WritePurpose {
    /// The answer to a ping.
    Pong,
    /// The keepalive ping.
    Ping,
    /// The envelope that answers a forwarded request.
    Reply,
    /// The close frame of a shutdown.
    Close,
}

/// What the caller does next.
#[derive(Debug, PartialEq, Eq)]
pub enum ChannelAction {
    /// Wait for the next event.
    Continue,
    /// Read the text as an envelope and report with
    /// [`on_envelope_read`].
    ReadEnvelope(String),
    /// Read the text as a forwarded request and report with
    /// [`on_request_read`].
    ReadRequest(String),
    /// Run the request against the origin, wrap the outcome with
    /// [`reply_to`], write the envelope as a text frame and report with
    /// [`after_write`] for [`WritePurpose::Reply`].
    Execute(ForwardedRequest),
    /// Write the frame and report with [`after_write`].
    Write { frame: SocketFrame, purpose: WritePurpose },
    /// Leave the channel loop.
    Finish(ChannelEnd),
}

/// What the channel driver remembers between events.
#[derive(Clone, Copy, Debug, PartialEq, Eq, Structural)]
pub struct ChannelState {
    /// Whether the gateway's first text frame has been seen.
    pub received_connection_id: bool,
}

impl ChannelState {
    /// The state of a channel on which nothing has arrived yet.
    pub fn new() -> (state: ChannelState)
        ensures
            !state.received_connection_id,
    {
        ChannelState { received_connection_id: false }
    }

    /// Reacts to an event.
    ///
    /// The first text frame is the connection ID and is accepted as it is;
    /// every later one is to be read as an envelope. A ping is answered with
    /// a pong of the same data, a tick with a ping without data, a shutdown
    /// request with a close frame. A close frame or the end of the stream
    /// ends the channel in good order, a read failure breaks it.
    pub fn on_event(&mut self, event: ChannelEvent) -> (action: ChannelAction)
        ensures
            *final(self) == (if event is Text {
                ChannelState { received_connection_id: true }
            } else {
                *old(self)
            }),
            match event {
                ChannelEvent::Text(text) => if old(self).received_connection_id {
                    action == ChannelAction::ReadEnvelope(text)
                } else {
                    action == ChannelAction::Continue
                },
                ChannelEvent::Ping(data) => action == (ChannelAction::Write {
                    frame: SocketFrame::Pong(data),
                    purpose: WritePurpose::Pong,
                }),
                ChannelEvent::Pong => action == ChannelAction::Continue,
                ChannelEvent::Close => action == ChannelAction::Finish(ChannelEnd::Closed),
                ChannelEvent::Other => action == ChannelAction::Continue,
                ChannelEvent::ReadFailed(detail) => {
                    &&& action matches ChannelAction::Finish(ChannelEnd::Failed(error))
                    &&& error.message@ == message_of(Failure::SocketError, detail@)
                },
                ChannelEvent::StreamEnded => action == ChannelAction::Finish(ChannelEnd::Closed),
                ChannelEvent::Tick => {
                    &&& action matches ChannelAction::Write { frame: SocketFrame::Ping(data), purpose }
                    &&& data@.len() == 0
                    &&& purpose == WritePurpose::Ping
                },
                ChannelEvent::ShutDown => action == (ChannelAction::Write {
                    frame: SocketFrame::Close,
                    purpose: WritePurpose::Close,
                }),
            },
    {
        match event {
            ChannelEvent::Text(text) => {
                if self.received_connection_id {
                    ChannelAction::ReadEnvelope(text)
                } else {
                    self.received_connection_id = true;
                    ChannelAction::Continue
                }
            },
            ChannelEvent::Ping(data) => ChannelAction::Write {
                frame: SocketFrame::Pong(data),
                purpose: WritePurpose::Pong,
            },
            ChannelEvent::Pong => ChannelAction::Continue,
            ChannelEvent::Close => ChannelAction::Finish(ChannelEnd::Closed),
            ChannelEvent::Other => ChannelAction::Continue,
            ChannelEvent::ReadFailed(detail) => ChannelAction::Finish(
                ChannelEnd::Failed(AgentError::new(Failure::SocketError, detail.as_str())),
            ),
            ChannelEvent::StreamEnded => ChannelAction::Finish(ChannelEnd::Closed),
            ChannelEvent::Tick => ChannelAction::Write {
                frame: SocketFrame::Ping(Vec::new()),
                purpose: WritePurpose::Ping,
            },
            ChannelEvent::ShutDown => ChannelAction::Write {
                frame: SocketFrame::Close,
                purpose: WritePurpose::Close,
            },
        }
    }
}

/// What follows the reading of a text frame as an envelope.
///
/// A request is to be read further, an error envelope from the gateway
/// breaks the channel, and anything else, a text that is no envelope
/// included, is ignored.
pub fn on_envelope_read(envelope: Option<Envelope>) -> (action: ChannelAction)
    ensures
        match envelope {
            None => action == ChannelAction::Continue,
            Some(e) => match kind_of(e.message_type@) {
                MessageKind::Request => action == ChannelAction::ReadRequest(e.payload),
                MessageKind::Error => {
                    &&& action matches ChannelAction::Finish(ChannelEnd::Failed(error))
                    &&& error.message@ == message_of(Failure::GatewayError, e.payload@)
                },
                _ => action == ChannelAction::Continue,
            },
        },
{
    match envelope {
        None => ChannelAction::Continue,
        Some(e) => match e.kind() {
            MessageKind::Request => ChannelAction::ReadRequest(e.payload),
            MessageKind::Error => ChannelAction::Finish(
                ChannelEnd::Failed(AgentError::new(Failure::GatewayError, e.payload.as_str())),
            ),
            _ => ChannelAction::Continue,
        },
    }
}

/// What follows the reading of a payload as a forwarded request: the
/// request is run, and a payload that is no request is ignored.
pub fn on_request_read(request: Option<ForwardedRequest>) -> (action: ChannelAction)
    ensures
        action == match request {
            Some(r) => ChannelAction::Execute(r),
            None => ChannelAction::Continue,
        },
{
    match request {
        Some(r) => ChannelAction::Execute(r),
        None => ChannelAction::Continue,
    }
}

/// The envelope that answers a forwarded request: a `response` with the
/// agent's response as payload, or an `error` with the error's message.
pub fn reply_to(outcome: Result<String, AgentError>) -> (envelope: Envelope)
    ensures
        match outcome {
            Ok(payload) => {
                &&& envelope.message_type@ == name_of(MessageKind::Response)
                &&& envelope.payload == payload
            },
            Err(error) => {
                &&& envelope.message_type@ == name_of(MessageKind::Error)
                &&& envelope.payload == error.message
            },
        },
{
    match outcome {
        Ok(payload) => Envelope::response(payload),
        Err(error) => Envelope::error(error.message),
    }
}

/// What follows a write.
///
/// After the close frame of a shutdown the channel ends, whether or not the
/// frame could be written. Any other failed write breaks the channel; the
/// error carries the transport's text, and for the keepalive ping says so.
pub fn after_write(purpose: WritePurpose, written: Result<(), String>) -> (action: ChannelAction)
    ensures
        match purpose {
            WritePurpose::Close => action == ChannelAction::Finish(ChannelEnd::ShutDown),
            WritePurpose::Ping => match written {
                Ok(_) => action == ChannelAction::Continue,
                Err(detail) => {
                    &&& action matches ChannelAction::Finish(ChannelEnd::Failed(error))
                    &&& error.message@ == message_of(Failure::PingNotSent, detail@)
                },
            },
            _ => match written {
                Ok(_) => action == ChannelAction::Continue,
                Err(detail) => {
                    &&& action matches ChannelAction::Finish(ChannelEnd::Failed(error))
                    &&& error.message@ == message_of(Failure::WriteFailed, detail@)
                },
            },
        },
{
    match purpose {
        WritePurpose::Close => ChannelAction::Finish(ChannelEnd::ShutDown),
        WritePurpose::Ping => match written {
            Ok(_) => ChannelAction::Continue,
            Err(detail) => ChannelAction::Finish(
                ChannelEnd::Failed(AgentError::new(Failure::PingNotSent, detail.as_str())),
            ),
        },
        _ => match written {
            Ok(_) => ChannelAction::Continue,
            Err(detail) => ChannelAction::Finish(
                ChannelEnd::Failed(AgentError::new(Failure::WriteFailed, detail.as_str())),
            ),
        },
    }
}

} // verus!
