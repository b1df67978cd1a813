//! The gateway's forwarder: from a public HTTP request to a request frame on
//! an agent's channel, and from what came back to the public reply.
//!
//! The two entry points, the JSON `POST /forward` and the catch-all `GET`,
//! follow one protocol. Inside one exclusive section of the registry the
//! forwarder drops abandoned sinks, arms the first free channel with its
//! sink and queues the request frame there; then it waits on the sink with a
//! timeout and renders what it got.

use vstd::prelude::*;
use vstd::pervasive::unreached;
use serde_json::Value;
use tokio::sync::mpsc::Sender;
use crate::json::{json_member, json_string, json_text, member, render_json, string_of};
use crate::registry::{
    armed, has_free, is_first_free, lemma_sweep_keeps_free_channels, swept, ConnectionView,
    QueueError, Registry,
};
use crate::text::join;
use crate::wire::{header, ForwardedRequest, OutboundFrame, RequestView};

verus! {

/// Seconds the `POST /forward` handler waits for the agent's response.
pub const FORWARD_TIMEOUT_SECS: u64 = 5;

/// Seconds the catch-all `GET` handler waits for the agent's response.
pub const DIRECT_TIMEOUT_SECS: u64 = 30;

/// The request that `POST /forward` sends to the agent for a JSON body.
pub open spec fn post_request_view(body: Seq<char>) -> RequestView {
    RequestView {
        method: "POST"@,
        path: "/"@,
        body,
        headers: seq![("content-type"@, "application/json"@)],
    }
}

/// The request that the catch-all `GET` sends to the agent for a path.
pub open spec fn get_request_view(path: Seq<char>) -> RequestView {
    RequestView {
        method: "GET"@,
        path,
        body: Seq::empty(),
        headers: seq![
            ("accept"@, "text/html,application/xhtml+xml"@),
            ("user-agent"@, "Mozilla/5.0"@),
        ],
    }
}

/// Forms the forwarded request of `POST /forward`; `body` is the JSON text
/// the client sent.
pub fn post_request(body: String) -> (request: ForwardedRequest)
    ensures
        request@ == post_request_view(body@),
{
    let mut headers: Vec<(String, String)> = Vec::new();
    headers.push(header("content-type", "application/json"));
    let request = ForwardedRequest {
        method: "POST".to_owned(),
        path: "/".to_owned(),
        body,
        headers,
    };
    assert(request.headers.deep_view() =~= post_request_view(body@).headers);
    request
}

/// Forms the forwarded request of `POST /forward` for a JSON body that has
/// already been parsed: the request carries its compact JSON text.
pub fn post_request_for(body: &Value) -> (request: ForwardedRequest)
    ensures
        request@ == post_request_view(json_text(*body)),
{
    post_request(render_json(body))
}

/// Forms the forwarded request of the catch-all `GET` for a request path.
pub fn get_request(path: String) -> (request: ForwardedRequest)
    ensures
        request@ == get_request_view(path@),
{
    let mut headers: Vec<(String, String)> = Vec::new();
    headers.push(header("accept", "text/html,application/xhtml+xml"));
    headers.push(header("user-agent", "Mozilla/5.0"));
    let body = String::new();
    let request = ForwardedRequest { method: "GET".to_owned(), path, body, headers };
    assert(request.headers.deep_view() =~= get_request_view(path@).headers);
    request
}

/// How the exclusive section of a forward ended.
#[derive(Debug, PartialEq, Eq)]
pub enum Dispatch {
    /// No channel was free; nothing was queued.
    NoAgent,
    /// The channel was armed and its queue took the request frame.
    Queued { connection_id: String },
    /// The channel was armed, but its queue refused the request frame.
    Refused { connection_id: String, reason: String },
}

/// `after` is what arming the first free channel with `sink` makes of some
/// sweep of `before`, and `id` is that channel's connection ID.
pub open spec fn armed_after_sweep(
    before: Seq<ConnectionView>,
    after: Seq<ConnectionView>,
    sink: Sender<Value>,
    id: Seq<char>,
) -> bool {
    exists|mid: Seq<ConnectionView>, i: int|
        {
            &&& swept(before, mid)
            &&& #[trigger] is_first_free(mid, i)
            &&& mid[i].connection_id == id
            &&& after == mid.update(i, armed(mid[i], sink))
        }
}

/// The exclusive section of a forward: sweep, pick and arm, queue.
///
/// Abandoned sinks are dropped first, so that a channel whose forwarder gave
/// up is free again. Then the first free channel is armed with `sink` and
/// `frame` is queued on it as a text frame. Whether the queue takes the
/// frame is the queue's decision; the channel stays armed either way. A
/// channel that is free at the start is never missed: `NoAgent` is returned
/// only where no channel was free to begin with and the sweep freed none.
pub fn dispatch(registry: &mut Registry, sink: Sender<Value>, frame: String) -> (outcome: Dispatch)
    requires
        old(registry).wf(),
    ensures
        final(registry).wf(),
        has_free(old(registry)@) ==> !(outcome is NoAgent),
        match outcome {
            Dispatch::NoAgent => {
                &&& swept(old(registry)@, final(registry)@)
                &&& !has_free(final(registry)@)
            },
            Dispatch::Queued { connection_id } => armed_after_sweep(
                old(registry)@,
                final(registry)@,
                sink,
                connection_id@,
            ),
            Dispatch::Refused { connection_id, .. } => armed_after_sweep(
                old(registry)@,
                final(registry)@,
                sink,
                connection_id@,
            ),
        },
{
    registry.sweep_abandoned();
    proof {
        lemma_sweep_keeps_free_channels(old(registry)@, registry@);
    }
    match registry.pick_and_arm(sink) {
        Err(_) => Dispatch::NoAgent,
        Ok(index) => {
            let connection_id = match registry.get(index) {
                Some(details) => details.connection_id.clone(),
                None => unreached(),
            };
            match registry.send_to(index, OutboundFrame::Text(frame)) {
                Ok(()) => Dispatch::Queued { connection_id },
                Err(QueueError::Refused(reason)) => Dispatch::Refused { connection_id, reason },
                Err(QueueError::NoSuchChannel) => unreached(),
            }
        },
    }
}

/// How a forward ended, from the forwarder's point of view.
#[derive(Debug, PartialEq, Eq)]
pub enum ForwardOutcome {
    /// No agent was free.
    NoAgent,
    /// The agent's queue refused the request frame; the text is the queue's.
    SendFailed(String),
    /// The agent's response arrived in time.
    Delivered(Value),
    /// The sink was closed without a value: the channel went away.
    ChannelLost,
    /// The timeout elapsed first.
    TimedOut,
}

/// What waiting on the sink gave.
#[derive(Debug, PartialEq, Eq)]
pub enum Waited {
    /// The response arrived.
    Response(Value),
    /// The sink was closed without a value.
    Closed,
    /// The timeout elapsed.
    Elapsed,
}

/// The outcome that is known right after the exclusive section: none where
/// the request frame was queued, since then the forwarder has to wait on
/// its sink.
pub fn outcome_of_dispatch(dispatch: Dispatch) -> (outcome: Option<ForwardOutcome>)
    ensures
        outcome == match dispatch {
            Dispatch::NoAgent => Some(ForwardOutcome::NoAgent),
            Dispatch::Queued { .. } => None,
            Dispatch::Refused { reason, .. } => Some(ForwardOutcome::SendFailed(reason)),
        },
{
    match dispatch {
        Dispatch::NoAgent => Some(ForwardOutcome::NoAgent),
        Dispatch::Queued { .. } => None,
        Dispatch::Refused { reason, .. } => Some(ForwardOutcome::SendFailed(reason)),
    }
}

/// The outcome of a forward whose request frame was queued, given what
/// waiting on the sink gave. A timeout cancels the wait only: the sink stays
/// where it is and is dropped when the registry next looks at it.
pub fn outcome_of_wait(waited: Waited) -> (outcome: ForwardOutcome)
    ensures
        outcome == match waited {
            Waited::Response(response) => ForwardOutcome::Delivered(response),
            Waited::Closed => ForwardOutcome::ChannelLost,
            Waited::Elapsed => ForwardOutcome::TimedOut,
        },
{
    match waited {
        Waited::Response(response) => ForwardOutcome::Delivered(response),
        Waited::Closed => ForwardOutcome::ChannelLost,
        Waited::Elapsed => ForwardOutcome::TimedOut,
    }
}

/// The JSON envelope of the gateway's own replies.
#[derive(Debug, PartialEq, Eq)]
pub struct ApiResponse<T> {
    pub status: String,
    pub message: String,
    pub data: Option<T>,
}

/// The mathematical content of an [`ApiResponse`].
pub struct ApiResponseView<T> {
    pub status: Seq<char>,
    pub message: Seq<char>,
    pub data: Option<T>,
}

impl<T> View for ApiResponse<T> {
    type V = ApiResponseView<T>;

    open spec fn view(&self) -> ApiResponseView<T> {
        ApiResponseView { status: self.status@, message: self.message@, data: self.data }
    }
}

/// A plain HTTP reply: status code, headers in order, body.
#[derive(Debug, PartialEq, Eq)]
pub struct HttpReply {
    pub status: u16,
    pub headers: Vec<(String, String)>,
    pub body: String,
}

/// The mathematical content of an [`HttpReply`].
pub struct HttpReplyView {
    pub status: u16,
    pub headers: Seq<(Seq<char>, Seq<char>)>,
    pub body: Seq<char>,
}

impl View for HttpReply {
    type V = HttpReplyView;

    open spec fn view(&self) -> HttpReplyView {
        HttpReplyView {
            status: self.status,
            headers: self.headers.deep_view(),
            body: self.body@,
        }
    }
}

/// The reply of `POST /forward` for each way a forward can end.
pub open spec fn forward_reply_view(outcome: ForwardOutcome) -> ApiResponseView<Value> {
    match outcome {
        ForwardOutcome::NoAgent => ApiResponseView {
            status: "error"@,
            message: "No agents available"@,
            data: None,
        },
        ForwardOutcome::SendFailed(reason) => ApiResponseView {
            status: "error"@,
            message: "Failed to send request to agent: "@ + reason@,
            data: None,
        },
        ForwardOutcome::Delivered(response) => ApiResponseView {
            status: "success"@,
            message: "Request processed by agent"@,
            data: Some(response),
        },
        ForwardOutcome::ChannelLost => ApiResponseView {
            status: "error"@,
            message: "Agent connection lost"@,
            data: None,
        },
        ForwardOutcome::TimedOut => ApiResponseView {
            status: "error"@,
            message: "Timeout waiting for agent response"@,
            data: None,
        },
    }
}

/// Renders the reply of `POST /forward`.
pub fn forward_reply(outcome: ForwardOutcome) -> (reply: ApiResponse<Value>)
    ensures
        reply@ == forward_reply_view(outcome),
{
    match outcome {
        ForwardOutcome::NoAgent => ApiResponse {
            status: "error".to_owned(),
            message: "No agents available".to_owned(),
            data: None,
        },
        ForwardOutcome::SendFailed(reason) => ApiResponse {
            status: "error".to_owned(),
            message: join("Failed to send request to agent: ", reason.as_str()),
            data: None,
        },
        ForwardOutcome::Delivered(response) => ApiResponse {
            status: "success".to_owned(),
            message: "Request processed by agent".to_owned(),
            data: Some(response),
        },
        ForwardOutcome::ChannelLost => ApiResponse {
            status: "error".to_owned(),
            message: "Agent connection lost".to_owned(),
            data: None,
        },
        ForwardOutcome::TimedOut => ApiResponse {
            status: "error".to_owned(),
            message: "Timeout waiting for agent response".to_owned(),
            data: None,
        },
    }
}

/// The only header of a reply that closes the connection.
pub open spec fn close_headers() -> Seq<(Seq<char>, Seq<char>)> {
    seq![("Connection"@, "close"@)]
}

/// The headers of a reply that carries the origin's body.
pub open spec fn html_headers() -> Seq<(Seq<char>, Seq<char>)> {
    seq![("Content-Type"@, "text/html"@), ("Connection"@, "close"@)]
}

/// The origin's body inside an agent's response: the string under `data`,
/// `body`. `None` where the response has no such string.
pub open spec fn origin_body(response: Value) -> Option<Seq<char>> {
    match json_member(response, "data"@) {
        Some(data) => match json_member(data, "body"@) {
            Some(body) => json_string(body),
            None => None,
        },
        None => None,
    }
}

/// The reply of the catch-all `GET` to a response that arrived, given the
/// origin's body found in it.
pub open spec fn delivered_reply_view(body: Option<Seq<char>>) -> HttpReplyView {
    match body {
        Some(body) => HttpReplyView { status: 200, headers: html_headers(), body },
        None => HttpReplyView {
            status: 500,
            headers: close_headers(),
            body: "Invalid response format"@,
        },
    }
}

/// The reply of the catch-all `GET` for each way a forward can end.
pub open spec fn direct_reply_view(outcome: ForwardOutcome) -> HttpReplyView {
    match outcome {
        ForwardOutcome::NoAgent => HttpReplyView {
            status: 503,
            headers: Seq::empty(),
            body: "No agents available"@,
        },
        ForwardOutcome::SendFailed(reason) => HttpReplyView {
            status: 500,
            headers: close_headers(),
            body: "Failed to send request: "@ + reason@,
        },
        ForwardOutcome::Delivered(response) => delivered_reply_view(origin_body(response)),
        ForwardOutcome::ChannelLost => HttpReplyView {
            status: 502,
            headers: close_headers(),
            body: "Agent connection lost"@,
        },
        ForwardOutcome::TimedOut => HttpReplyView {
            status: 504,
            headers: close_headers(),
            body: "Request timed out after 30 seconds"@,
        },
    }
}

fn closing(status: u16, body: String) -> (reply: HttpReply)
    ensures
        reply@ == (HttpReplyView { status, headers: close_headers(), body: body@ }),
{
    let mut headers: Vec<(String, String)> = Vec::new();
    headers.push(header("Connection", "close"));
    let reply = HttpReply { status, headers, body };
    assert(reply.headers.deep_view() =~= close_headers());
    reply
}

/// Finds the origin's body in an agent's response.
pub fn body_of_response(response: &Value) -> (body: Option<String>)
    ensures
        match body {
            Some(text) => origin_body(*response) == Some(text@),
            None => origin_body(*response) is None,
        },
{
    match member(response, "data") {
        None => None,
        Some(data) => match member(data, "body") {
            None => None,
            Some(body) => match string_of(body) {
                None => None,
                Some(text) => Some(text.to_owned()),
            },
        },
    }
}

/// Renders the catch-all reply to a response that arrived: the origin's
/// body as `text/html`, or a 500 where the response held none.
pub fn delivered_reply(body: Option<String>) -> (reply: HttpReply)
    ensures
        reply@ == delivered_reply_view(
            match body {
                Some(text) => Some(text@),
                None => None,
            },
        ),
{
    match body {
        Some(text) => {
            let mut headers: Vec<(String, String)> = Vec::new();
            headers.push(header("Content-Type", "text/html"));
            headers.push(header("Connection", "close"));
            let reply = HttpReply { status: 200, headers, body: text };
            assert(reply.headers.deep_view() =~= html_headers());
            reply
        },
        None => closing(500, "Invalid response format".to_owned()),
    }
}

/// Renders the reply of the catch-all `GET`.
pub fn direct_reply(outcome: ForwardOutcome) -> (reply: HttpReply)
    ensures
        reply@ == direct_reply_view(outcome),
{
    match outcome {
        ForwardOutcome::NoAgent => {
            let reply = HttpReply {
                status: 503,
                headers: Vec::new(),
                body: "No agents available".to_owned(),
            };
            assert(reply.headers.deep_view() =~= Seq::empty());
            reply
        },
        ForwardOutcome::SendFailed(reason) => closing(
            500,
            join("Failed to send request: ", reason.as_str()),
        ),
        ForwardOutcome::Delivered(response) => delivered_reply(body_of_response(&response)),
        ForwardOutcome::ChannelLost => closing(502, "Agent connection lost".to_owned()),
        ForwardOutcome::TimedOut => closing(504, "Request timed out after 30 seconds".to_owned()),
    }
}

} // verus!
