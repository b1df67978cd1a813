//! The gateway's side of one channel: what to do with each frame an agent
//! sends, and what the send task writes.
//!
//! Reading from and writing to the socket is the caller's business. The
//! receive task hands every frame it reads to [`on_frame`] and does what the
//! returned [`ReceiveAction`] says; the send task writes what
//! [`frame_to_write`] gives it. When either task ends, the caller removes
//! the channel from the registry.

use vstd::prelude::*;
use serde_json::Value;
use tokio::sync::mpsc::{Sender, UnboundedSender};
use crate::json::{json_parse, parse_json};
use crate::queue::enqueue;
use crate::registry::{
    armed, armed_sink, attach_verdict, drawn_id_was_taken, fresh_entry, insert_verdict,
    is_first_free, lemma_arm_then_take_restores, lemma_take_without_sink_changes_nothing,
    well_formed, with_sink_taken, with_tunnel, AttachOutcome, ConnectionView, Registry,
};
use crate::wire::{kind_of, AgentHandshake, Envelope, MessageKind, OutboundFrame, SocketFrame};

verus! {

/// A text frame from an agent, decoded.
#[derive(Debug, PartialEq, Eq)]
pub enum TextFrame {
    /// The text is an agent's handshake.
    Handshake(AgentHandshake),
    /// The text is no handshake, but it is an envelope.
    Envelope(Envelope),
    /// The text is neither.
    Unrecognized,
}

/// Decides what a text frame is, given the two readings of it: as a
/// handshake and as an envelope. The handshake reading has precedence.
pub fn classify_text(handshake: Option<AgentHandshake>, envelope: Option<Envelope>) -> (frame:
    TextFrame)
    ensures
        frame == match handshake {
            Some(h) => TextFrame::Handshake(h),
            None => match envelope {
                Some(e) => TextFrame::Envelope(e),
                None => TextFrame::Unrecognized,
            },
        },
{
    match handshake {
        Some(h) => TextFrame::Handshake(h),
        None => match envelope {
            Some(e) => TextFrame::Envelope(e),
            None => TextFrame::Unrecognized,
        },
    }
}

/// A frame read from an agent's socket.
#[derive(Debug, PartialEq, Eq)]
pub enum InboundFrame {
    Text(TextFrame),
    Ping(Vec<u8>),
    Pong,
    Close,
    /// Any other frame, such as a binary one.
    Other,
}

/// What the receive task does after a frame.
#[derive(Debug)]
pub enum ReceiveAction {
    /// Read the next frame.
    Continue,
    /// Leave the receive loop; the channel is to be torn down.
    Stop,
    /// Hand `response` to `sink`, then read the next frame.
    Deliver { sink: Sender<Value>, response: Value },
}

/// The response that an envelope carries: the JSON document in its payload,
/// if the envelope is of type `response` and the payload is JSON.
pub open spec fn response_of(envelope: Envelope) -> Option<Value> {
    if kind_of(envelope.message_type@) == MessageKind::Response {
        match json_parse(envelope.payload@) {
            Ok(response) => Some(response),
            Err(_) => None,
        }
    } else {
        None
    }
}

/// The registry and the action after a text frame on the channel `id`.
///
/// A handshake with an invalid tunnel ID stops the channel; a valid one is
/// attached. A response takes the channel's sink out and is delivered to
/// it; without a sink it is discarded. Everything else is ignored.
pub open spec fn text_step(m: Seq<ConnectionView>, id: Seq<char>, frame: TextFrame) -> (
    Seq<ConnectionView>,
    ReceiveAction,
) {
    match frame {
        TextFrame::Handshake(handshake) => match attach_verdict(m, id, handshake.tunnel_id@) {
            AttachOutcome::InvalidTunnelId => (m, ReceiveAction::Stop),
            AttachOutcome::Gone => (m, ReceiveAction::Continue),
            AttachOutcome::Attached => (
                with_tunnel(m, id, handshake.tunnel_id@),
                ReceiveAction::Continue,
            ),
        },
        TextFrame::Envelope(envelope) => match response_of(envelope) {
            Some(response) => (
                with_sink_taken(m, id),
                match armed_sink(m, id) {
                    Some(sink) => ReceiveAction::Deliver { sink, response },
                    None => ReceiveAction::Continue,
                },
            ),
            None => (m, ReceiveAction::Continue),
        },
        TextFrame::Unrecognized => (m, ReceiveAction::Continue),
    }
}

/// Request and response are matched by the channel: once a forwarder has
/// armed a channel with its sink, the next response on that channel is
/// delivered to that very sink, and the channel is free again.
pub proof fn lemma_response_reaches_the_armed_sink(
    m: Seq<ConnectionView>,
    i: int,
    sink: Sender<Value>,
    envelope: Envelope,
    response: Value,
)
    requires
        well_formed(m),
        is_first_free(m, i),
        response_of(envelope) == Some(response),
    ensures
        text_step(
            m.update(i, armed(m[i], sink)),
            m[i].connection_id,
            TextFrame::Envelope(envelope),
        ) == (m, ReceiveAction::Deliver { sink, response }),
{
    lemma_arm_then_take_restores(m, i, sink);
}

/// A response that finds no sink on its channel, be it late or unasked for,
/// is discarded and changes nothing.
pub proof fn lemma_response_without_sink_is_discarded(
    m: Seq<ConnectionView>,
    id: Seq<char>,
    envelope: Envelope,
)
    requires
        well_formed(m),
        armed_sink(m, id) is None,
    ensures
        text_step(m, id, TextFrame::Envelope(envelope)) == (m, ReceiveAction::Continue),
{
    lemma_take_without_sink_changes_nothing(m, id);
}

/// Only a response is ever routed to a sink: a request envelope, an error
/// envelope and an envelope of unknown type leave the registry as it is.
pub proof fn lemma_only_responses_are_routed(m: Seq<ConnectionView>, id: Seq<char>, envelope: Envelope)
    requires
        kind_of(envelope.message_type@) != MessageKind::Response,
    ensures
        text_step(m, id, TextFrame::Envelope(envelope)) == (m, ReceiveAction::Continue),
{
}

/// A text frame on one channel leaves every other channel as it was.
pub proof fn lemma_text_frames_touch_one_channel(
    m: Seq<ConnectionView>,
    id: Seq<char>,
    frame: TextFrame,
    k: int,
)
    requires
        0 <= k < m.len(),
        m[k].connection_id != id,
    ensures
        text_step(m, id, frame).0.len() == m.len(),
        text_step(m, id, frame).0[k] == m[k],
{
}

/// Reads the response out of an envelope.
pub fn read_response(envelope: &Envelope) -> (response: Option<Value>)
    ensures
        response == response_of(*envelope),
{
    match envelope.kind() {
        MessageKind::Response => match parse_json(envelope.payload.as_str()) {
            Ok(response) => Some(response),
            Err(_) => None,
        },
        _ => None,
    }
}

/// Routes a response that arrived on the channel `connection_id`: the
/// channel's sink, if one is armed, is taken out and gets the response.
pub fn route_response(registry: &mut Registry, connection_id: &str, response: Value) -> (action:
    ReceiveAction)
    requires
        old(registry).wf(),
    ensures
        final(registry).wf(),
        final(registry)@ == with_sink_taken(old(registry)@, connection_id@),
        action == match armed_sink(old(registry)@, connection_id@) {
            Some(sink) => ReceiveAction::Deliver { sink, response },
            None => ReceiveAction::Continue,
        },
{
    match registry.take_sink(connection_id) {
        Some(sink) => ReceiveAction::Deliver { sink, response },
        None => ReceiveAction::Continue,
    }
}

/// Handles a text frame that arrived on the channel `connection_id`.
pub fn on_text(registry: &mut Registry, connection_id: &str, frame: TextFrame) -> (action:
    ReceiveAction)
    requires
        old(registry).wf(),
    ensures
        final(registry).wf(),
        (final(registry)@, action) == text_step(old(registry)@, connection_id@, frame),
{
    match frame {
        TextFrame::Handshake(handshake) => {
            match registry.attach_tunnel(connection_id, handshake.tunnel_id) {
                AttachOutcome::InvalidTunnelId => ReceiveAction::Stop,
                _ => ReceiveAction::Continue,
            }
        },
        TextFrame::Envelope(envelope) => match read_response(&envelope) {
            Some(response) => route_response(registry, connection_id, response),
            None => ReceiveAction::Continue,
        },
        TextFrame::Unrecognized => ReceiveAction::Continue,
    }
}

/// What follows a ping, once its data has been offered to the pong queue:
/// the receive task goes on if the queue took it and stops if not.
pub fn after_pong_queued(queued: &Result<(), String>) -> (action: ReceiveAction)
    ensures
        action == match queued {
            Ok(_) => ReceiveAction::Continue,
            Err(_) => ReceiveAction::Stop,
        },
{
    match queued {
        Ok(_) => ReceiveAction::Continue,
        Err(_) => ReceiveAction::Stop,
    }
}

/// Handles a frame that arrived on the channel `connection_id`.
///
/// Text frames go through [`on_text`]. A ping is not answered here: its
/// data is put on `pongs`, the queue from which the send task writes pongs,
/// and whether that queue takes it decides between going on and stopping. A
/// pong and any other frame are ignored; a close frame stops the task.
pub fn on_frame(
    registry: &mut Registry,
    connection_id: &str,
    frame: InboundFrame,
    pongs: &UnboundedSender<Vec<u8>>,
) -> (action: ReceiveAction)
    requires
        old(registry).wf(),
    ensures
        final(registry).wf(),
        match frame {
            InboundFrame::Text(text) => (final(registry)@, action) == text_step(
                old(registry)@,
                connection_id@,
                text,
            ),
            InboundFrame::Ping(_) => {
                &&& final(registry)@ == old(registry)@
                &&& (action == ReceiveAction::Continue || action == ReceiveAction::Stop)
            },
            InboundFrame::Pong => final(registry)@ == old(registry)@ && action
                == ReceiveAction::Continue,
            InboundFrame::Other => final(registry)@ == old(registry)@ && action
                == ReceiveAction::Continue,
            InboundFrame::Close => final(registry)@ == old(registry)@ && action
                == ReceiveAction::Stop,
        },
{
    match frame {
        InboundFrame::Text(text) => on_text(registry, connection_id, text),
        InboundFrame::Ping(data) => {
            let queued = enqueue(pongs, data);
            after_pong_queued(&queued)
        },
        InboundFrame::Pong => ReceiveAction::Continue,
        InboundFrame::Other => ReceiveAction::Continue,
        InboundFrame::Close => ReceiveAction::Stop,
    }
}

/// What wakes a channel's send task.
#[derive(Debug, PartialEq, Eq)]
pub enum SendEvent {
    /// A frame from the channel's outbound queue.
    Outbound(OutboundFrame),
    /// The data of a ping, from the pong queue.
    PongDue(Vec<u8>),
}

/// The frame the send task writes for an event: a queued frame as it is, a
/// ping's data as a pong.
pub fn frame_to_write(event: SendEvent) -> (frame: SocketFrame)
    ensures
        frame == match event {
            SendEvent::Outbound(OutboundFrame::Text(text)) => SocketFrame::Text(text),
            SendEvent::Outbound(OutboundFrame::Close) => SocketFrame::Close,
            SendEvent::PongDue(data) => SocketFrame::Pong(data),
        },
{
    match event {
        SendEvent::Outbound(OutboundFrame::Text(text)) => SocketFrame::Text(text),
        SendEvent::Outbound(OutboundFrame::Close) => SocketFrame::Close,
        SendEvent::PongDue(data) => SocketFrame::Pong(data),
    }
}

/// A channel that has just been accepted.
#[derive(Debug, PartialEq, Eq)]
pub struct Accepted {
    /// The connection ID under which the channel is registered.
    pub connection_id: String,
    /// The first frame to write to the agent: the bare connection ID.
    pub greeting: SocketFrame,
}

/// Registers a channel that has just been upgraded and prepares its first
/// frame: the connection ID as a bare text frame. The connection ID is drawn
/// at random; `None` is returned only where the drawn ID is already the ID
/// of a live channel, and nothing is registered then.
pub fn accept_channel(
    registry: &mut Registry,
    connected_at: u64,
    sender: UnboundedSender<OutboundFrame>,
) -> (accepted: Option<Accepted>)
    requires
        old(registry).wf(),
    ensures
        final(registry).wf(),
        match accepted {
            Some(channel) => {
                &&& insert_verdict(old(registry)@, channel.connection_id@) is Ok
                &&& final(registry)@ == old(registry)@.push(
                    fresh_entry(channel.connection_id@, connected_at, sender),
                )
                &&& channel.greeting matches SocketFrame::Text(text)
                &&& text@ == channel.connection_id@
            },
            None => {
                &&& final(registry)@ == old(registry)@
                &&& drawn_id_was_taken(old(registry)@)
            },
        },
{
    match registry.register(connected_at, sender) {
        Some(connection_id) => {
            let greeting = SocketFrame::Text(connection_id.clone());
            Some(Accepted { connection_id, greeting })
        },
        None => None,
    }
}

} // verus!
