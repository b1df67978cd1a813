use reverse_tunnel::forwarder::{
    body_of_response, delivered_reply, direct_reply, dispatch, forward_reply, get_request,
    outcome_of_dispatch, outcome_of_wait, post_request, post_request_for, Dispatch,
    ForwardOutcome, Waited,
    DIRECT_TIMEOUT_SECS, FORWARD_TIMEOUT_SECS,
};
use reverse_tunnel::registry::Registry;
use reverse_tunnel::wire::OutboundFrame;
use serde_json::Value;
use tokio::sync::mpsc::{channel, unbounded_channel, UnboundedReceiver};

const TUNNEL: &str = "agent_00000000-0000-0000-0000-000000000000_test";

fn pair(name: &str, value: &str) -> (String, String) {
    (name.to_string(), value.to_string())
}

fn agent(registry: &mut Registry) -> (String, UnboundedReceiver<OutboundFrame>) {
    let (tx, rx) = unbounded_channel();
    let id = registry.register(1, tx).unwrap();
    registry.attach_tunnel(&id, TUNNEL.to_string());
    (id, rx)
}

fn json(text: &str) -> Value {
    serde_json::from_str(text).unwrap()
}

#[test]
fn forward_timeouts() {
    assert_eq!(FORWARD_TIMEOUT_SECS, 5);
    assert_eq!(DIRECT_TIMEOUT_SECS, 30);
}

#[test]
fn post_request_is_a_json_post_to_the_root() {
    let request = post_request("{\"k\":1}".to_string());
    assert_eq!(request.method, "POST");
    assert_eq!(request.path, "/");
    assert_eq!(request.body, "{\"k\":1}");
    assert_eq!(request.headers, vec![pair("content-type", "application/json")]);
}

#[test]
fn get_request_has_browser_headers_and_no_body() {
    let request = get_request("/x/y".to_string());
    assert_eq!(request.method, "GET");
    assert_eq!(request.path, "/x/y");
    assert_eq!(request.body, "");
    assert_eq!(
        request.headers,
        vec![pair("accept", "text/html,application/xhtml+xml"), pair("user-agent", "Mozilla/5.0")]
    );
}

#[test]
fn dispatch_without_agent_says_so() {
    let mut registry = Registry::new();
    let (sink, _waiter) = channel::<Value>(1);
    assert_eq!(dispatch(&mut registry, sink, "f".to_string()), Dispatch::NoAgent);
}

#[test]
fn dispatch_ignores_channels_without_handshake() {
    let mut registry = Registry::new();
    let (tx, mut rx) = unbounded_channel();
    registry.register(1, tx).unwrap();
    let (sink, _waiter) = channel::<Value>(1);
    assert_eq!(dispatch(&mut registry, sink, "f".to_string()), Dispatch::NoAgent);
    assert!(rx.try_recv().is_err());
}

#[test]
fn dispatch_arms_the_agent_and_queues_the_frame() {
    let mut registry = Registry::new();
    let (id, mut rx) = agent(&mut registry);
    let (sink, _waiter) = channel::<Value>(1);
    let outcome = dispatch(&mut registry, sink, "the frame".to_string());
    assert_eq!(outcome, Dispatch::Queued { connection_id: id });
    assert_eq!(rx.try_recv().unwrap(), OutboundFrame::Text("the frame".to_string()));
    assert!(rx.try_recv().is_err());
    assert!(registry.get(0).unwrap().response_handler.is_some());
}

#[test]
fn two_forwarders_never_share_an_agent() {
    let mut registry = Registry::new();
    let (first, mut rx1) = agent(&mut registry);
    let (second, mut rx2) = agent(&mut registry);
    let (s1, _w1) = channel::<Value>(1);
    let (s2, _w2) = channel::<Value>(1);
    let (s3, _w3) = channel::<Value>(1);
    assert_eq!(dispatch(&mut registry, s1, "a".to_string()), Dispatch::Queued { connection_id: first });
    assert_eq!(dispatch(&mut registry, s2, "b".to_string()), Dispatch::Queued { connection_id: second });
    assert_eq!(dispatch(&mut registry, s3, "c".to_string()), Dispatch::NoAgent);
    assert_eq!(rx1.try_recv().unwrap(), OutboundFrame::Text("a".to_string()));
    assert_eq!(rx2.try_recv().unwrap(), OutboundFrame::Text("b".to_string()));
    assert!(rx1.try_recv().is_err());
    assert!(rx2.try_recv().is_err());
}

#[test]
fn an_agent_whose_forwarder_gave_up_is_free_for_the_next_forward() {
    let mut registry = Registry::new();
    let (id, mut rx) = agent(&mut registry);
    let (s1, w1) = channel::<Value>(1);
    assert_eq!(
        dispatch(&mut registry, s1, "slow".to_string()),
        Dispatch::Queued { connection_id: id.clone() }
    );
    drop(w1);
    let (s2, mut w2) = channel::<Value>(1);
    assert_eq!(
        dispatch(&mut registry, s2, "next".to_string()),
        Dispatch::Queued { connection_id: id.clone() }
    );
    assert_eq!(rx.try_recv().unwrap(), OutboundFrame::Text("slow".to_string()));
    assert_eq!(rx.try_recv().unwrap(), OutboundFrame::Text("next".to_string()));
    registry.take_sink(&id).unwrap().try_send(Value::from(1)).unwrap();
    assert_eq!(w2.try_recv().unwrap(), Value::from(1));
}

#[test]
fn dispatch_reports_a_queue_that_refuses() {
    let mut registry = Registry::new();
    let (id, rx) = agent(&mut registry);
    drop(rx);
    let (sink, _waiter) = channel::<Value>(1);
    assert_eq!(
        dispatch(&mut registry, sink, "f".to_string()),
        Dispatch::Refused { connection_id: id, reason: "channel closed".to_string() }
    );
}

#[test]
fn outcome_of_dispatch_is_known_unless_queued() {
    assert_eq!(outcome_of_dispatch(Dispatch::NoAgent), Some(ForwardOutcome::NoAgent));
    assert_eq!(outcome_of_dispatch(Dispatch::Queued { connection_id: "c".to_string() }), None);
    assert_eq!(
        outcome_of_dispatch(Dispatch::Refused {
            connection_id: "c".to_string(),
            reason: "channel closed".to_string()
        }),
        Some(ForwardOutcome::SendFailed("channel closed".to_string()))
    );
}

#[test]
fn outcome_of_wait_maps_each_end() {
    assert_eq!(outcome_of_wait(Waited::Response(json("[1]"))), ForwardOutcome::Delivered(json("[1]")));
    assert_eq!(outcome_of_wait(Waited::Closed), ForwardOutcome::ChannelLost);
    assert_eq!(outcome_of_wait(Waited::Elapsed), ForwardOutcome::TimedOut);
}

#[test]
fn forward_reply_without_agent() {
    let reply = forward_reply(ForwardOutcome::NoAgent);
    assert_eq!(reply.status, "error");
    assert_eq!(reply.message, "No agents available");
    assert_eq!(reply.data, None);
}

#[test]
fn forward_reply_for_each_outcome() {
    let reply = forward_reply(ForwardOutcome::Delivered(json("{\"status\":\"success\"}")));
    assert_eq!(reply.status, "success");
    assert_eq!(reply.message, "Request processed by agent");
    assert_eq!(reply.data, Some(json("{\"status\":\"success\"}")));
    let reply = forward_reply(ForwardOutcome::ChannelLost);
    assert_eq!(reply.status, "error");
    assert_eq!(reply.message, "Agent connection lost");
    assert_eq!(reply.data, None);
    let reply = forward_reply(ForwardOutcome::TimedOut);
    assert_eq!(reply.status, "error");
    assert_eq!(reply.message, "Timeout waiting for agent response");
    assert_eq!(reply.data, None);
    let reply = forward_reply(ForwardOutcome::SendFailed("channel closed".to_string()));
    assert_eq!(reply.status, "error");
    assert_eq!(reply.message, "Failed to send request to agent: channel closed");
    assert_eq!(reply.data, None);
}

#[test]
fn direct_reply_without_agent_is_503() {
    let reply = direct_reply(ForwardOutcome::NoAgent);
    assert_eq!(reply.status, 503);
    assert_eq!(reply.body, "No agents available");
    assert!(reply.headers.is_empty());
}

#[test]
fn direct_reply_with_body_is_200_html() {
    let response = json("{\"status\":\"success\",\"data\":{\"status_code\":200,\"body\":\"hi\"}}");
    let reply = direct_reply(ForwardOutcome::Delivered(response));
    assert_eq!(reply.status, 200);
    assert_eq!(reply.headers, vec![pair("Content-Type", "text/html"), pair("Connection", "close")]);
    assert_eq!(reply.body, "hi");
}

#[test]
fn direct_reply_without_body_is_500() {
    for text in ["{}", "{\"data\":{}}", "{\"data\":{\"body\":5}}", "{\"data\":\"x\"}", "[]", "null"] {
        let reply = direct_reply(ForwardOutcome::Delivered(json(text)));
        assert_eq!(reply.status, 500);
        assert_eq!(reply.headers, vec![pair("Connection", "close")]);
        assert_eq!(reply.body, "Invalid response format");
    }
}

#[test]
fn direct_reply_for_lost_channel_timeout_and_refusal() {
    let reply = direct_reply(ForwardOutcome::ChannelLost);
    assert_eq!(reply.status, 502);
    assert_eq!(reply.headers, vec![pair("Connection", "close")]);
    assert_eq!(reply.body, "Agent connection lost");
    let reply = direct_reply(ForwardOutcome::TimedOut);
    assert_eq!(reply.status, 504);
    assert_eq!(reply.headers, vec![pair("Connection", "close")]);
    assert_eq!(reply.body, "Request timed out after 30 seconds");
    let reply = direct_reply(ForwardOutcome::SendFailed("channel closed".to_string()));
    assert_eq!(reply.status, 500);
    assert_eq!(reply.headers, vec![pair("Connection", "close")]);
    assert_eq!(reply.body, "Failed to send request: channel closed");
}

#[test]
fn body_of_response_reads_data_body() {
    assert_eq!(body_of_response(&json("{\"data\":{\"body\":\"<p>x</p>\"}}")), Some("<p>x</p>".to_string()));
    assert_eq!(body_of_response(&json("{\"data\":{\"body\":\"\"}}")), Some(String::new()));
    assert_eq!(body_of_response(&json("{\"body\":\"x\"}")), None);
    assert_eq!(body_of_response(&json("{\"data\":{\"body\":null}}")), None);
    assert_eq!(body_of_response(&json("\"data\"")), None);
}

#[test]
fn delivered_reply_for_a_body_and_for_none() {
    let reply = delivered_reply(Some("hi".to_string()));
    assert_eq!(reply.status, 200);
    assert_eq!(reply.body, "hi");
    let reply = delivered_reply(None);
    assert_eq!(reply.status, 500);
    assert_eq!(reply.body, "Invalid response format");
}

#[test]
fn post_request_for_a_parsed_body_carries_its_compact_text() {
    let request = post_request_for(&json("{ \"k\" : [1, 2],\n \"s\": \"x\" }"));
    assert_eq!(request.method, "POST");
    assert_eq!(request.path, "/");
    assert_eq!(request.body, "{\"k\":[1,2],\"s\":\"x\"}");
    assert_eq!(request.headers, vec![pair("content-type", "application/json")]);
    assert_eq!(post_request_for(&json("{}")).body, "{}");
}
