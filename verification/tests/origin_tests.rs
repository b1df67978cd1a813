use reverse_tunnel::origin::{
    build_response, plan_origin_call, plan_with_body, read_body, readable_headers, respond,
    status_is_success, supported_method, OriginMethod, OriginResponse, LOCAL_APP_URL,
};
use reverse_tunnel::status::{connection_list, health, list_connections};
use reverse_tunnel::registry::{ConnectionInfo, Registry};
use reverse_tunnel::wire::ForwardedRequest;
use serde_json::Value;
use tokio::sync::mpsc::unbounded_channel;

fn pair(name: &str, value: &str) -> (String, String) {
    (name.to_string(), value.to_string())
}

fn request(method: &str, path: &str, body: &str) -> ForwardedRequest {
    ForwardedRequest {
        method: method.to_string(),
        path: path.to_string(),
        body: body.to_string(),
        headers: vec![pair("accept", "a"), pair("x-dup", "1"), pair("x-dup", "2")],
    }
}

fn origin(status_code: u16, status_line: &str, body: &str) -> OriginResponse {
    OriginResponse {
        status_code,
        status_line: status_line.to_string(),
        headers: vec![],
        body: body.to_string(),
    }
}

#[test]
fn origin_base_url() {
    assert_eq!(LOCAL_APP_URL, "http://127.0.0.1:8000");
}

#[test]
fn four_methods_are_supported() {
    assert_eq!(supported_method("GET"), Some(OriginMethod::Get));
    assert_eq!(supported_method("POST"), Some(OriginMethod::Post));
    assert_eq!(supported_method("PUT"), Some(OriginMethod::Put));
    assert_eq!(supported_method("DELETE"), Some(OriginMethod::Delete));
    assert_eq!(supported_method("PATCH"), None);
    assert_eq!(supported_method("get"), None);
    assert_eq!(supported_method(""), None);
}

#[test]
fn a_get_goes_to_the_origin_without_body() {
    let call = plan_origin_call(request("GET", "/x", "")).unwrap();
    assert_eq!(call.method, OriginMethod::Get);
    assert_eq!(call.url, "http://127.0.0.1:8000/x");
    assert_eq!(call.headers, vec![pair("accept", "a"), pair("x-dup", "1"), pair("x-dup", "2")]);
    assert_eq!(call.json_body, None);
}

#[test]
fn the_body_of_a_get_is_not_even_read() {
    let call = plan_origin_call(request("GET", "/x", "not json")).unwrap();
    assert_eq!(call.json_body, None);
}

#[test]
fn a_post_sends_its_body_as_json() {
    let call = plan_origin_call(request("POST", "/items", "{\"n\":[1,2]}")).unwrap();
    assert_eq!(call.method, OriginMethod::Post);
    assert_eq!(call.url, "http://127.0.0.1:8000/items");
    let expected: Value = serde_json::from_str("{\"n\":[1,2]}").unwrap();
    assert_eq!(call.json_body, Some(expected));
}

#[test]
fn put_and_delete_send_their_body_as_json_too() {
    let call = plan_origin_call(request("PUT", "/a", "1")).unwrap();
    assert_eq!(call.method, OriginMethod::Put);
    assert_eq!(call.json_body, Some(Value::from(1)));
    let call = plan_origin_call(request("DELETE", "/a", "null")).unwrap();
    assert_eq!(call.method, OriginMethod::Delete);
    assert_eq!(call.json_body, Some(Value::Null));
}

#[test]
fn an_unsupported_method_is_refused() {
    let error = plan_origin_call(request("PATCH", "/x", "{}")).unwrap_err();
    assert_eq!(error.message, "Unsupported method: PATCH");
    let error = plan_origin_call(request("PATCH", "/x", "no json either")).unwrap_err();
    assert_eq!(error.message, "Unsupported method: PATCH");
}

#[test]
fn a_body_that_is_no_json_is_refused() {
    let error = plan_origin_call(request("POST", "/x", "{")).unwrap_err();
    let detail = serde_json::from_str::<Value>("{").unwrap_err().to_string();
    assert_eq!(error.message, format!("Failed to parse request body: {}", detail));
    assert!(error.message.starts_with("Failed to parse request body: "));
    let error = plan_origin_call(request("DELETE", "/x", "")).unwrap_err();
    assert!(error.message.starts_with("Failed to parse request body: "));
}

#[test]
fn read_body_reads_json_unless_the_method_is_get() {
    assert_eq!(read_body(OriginMethod::Get, "garbage"), Ok(None));
    assert_eq!(read_body(OriginMethod::Post, "[true]"), Ok(Some(serde_json::from_str("[true]").unwrap())));
    assert!(read_body(OriginMethod::Put, "garbage").is_err());
}

#[test]
fn plan_with_body_builds_the_call_or_the_error() {
    let call = plan_with_body(OriginMethod::Put, "/p", vec![pair("a", "b")], Ok(Some(Value::from("v")))).unwrap();
    assert_eq!(call.method, OriginMethod::Put);
    assert_eq!(call.url, "http://127.0.0.1:8000/p");
    assert_eq!(call.headers, vec![pair("a", "b")]);
    assert_eq!(call.json_body, Some(Value::from("v")));
    let error = plan_with_body(OriginMethod::Put, "/p", vec![], Err("EOF".to_string())).unwrap_err();
    assert_eq!(error.message, "Failed to parse request body: EOF");
}

#[test]
fn success_is_two_hundred_to_two_hundred_ninety_nine() {
    assert!(!status_is_success(199));
    assert!(status_is_success(200));
    assert!(status_is_success(204));
    assert!(status_is_success(299));
    assert!(!status_is_success(300));
    assert!(!status_is_success(404));
    assert!(!status_is_success(500));
    assert!(!status_is_success(0));
}

#[test]
fn the_response_keeps_the_origins_status_code_and_body() {
    let response = build_response(
        origin(200, "200 OK", "hi"),
        "2024-01-01T00:00:00+00:00".to_string(),
        "0.1.0".to_string(),
    );
    assert_eq!(response.status, "success");
    assert_eq!(response.message, "Local server responded with status 200 OK");
    let data = response.data.unwrap();
    assert_eq!(data.status_code, 200);
    assert_eq!(data.body, "hi");
    assert_eq!(data.timestamp, "2024-01-01T00:00:00+00:00");
    assert_eq!(data.agent_version, "0.1.0");
    assert!(data.headers.is_empty());
}

#[test]
fn a_status_outside_the_two_hundreds_is_an_error_with_the_same_code_and_body() {
    let response = build_response(origin(404, "404 Not Found", "<h1>no</h1>"), "t".to_string(), "v".to_string());
    assert_eq!(response.status, "error");
    assert_eq!(response.message, "Local server responded with status 404 Not Found");
    let data = response.data.unwrap();
    assert_eq!(data.status_code, 404);
    assert_eq!(data.body, "<h1>no</h1>");
}

#[test]
fn headers_without_readable_value_are_dropped_in_place() {
    let headers = vec![
        ("a".to_string(), Some("1".to_string())),
        ("b".to_string(), None),
        ("a".to_string(), Some("2".to_string())),
        ("c".to_string(), None),
        ("d".to_string(), Some(String::new())),
    ];
    assert_eq!(readable_headers(&headers), vec![pair("a", "1"), pair("a", "2"), pair("d", "")]);
    assert_eq!(readable_headers(&vec![]), vec![]);
    let mut answer = origin(201, "201 Created", "");
    answer.headers = headers;
    let data = build_response(answer, "t".to_string(), "v".to_string()).data.unwrap();
    assert_eq!(data.headers, vec![pair("a", "1"), pair("a", "2"), pair("d", "")]);
}

#[test]
fn health_reply() {
    let reply = health("0.1.0");
    assert_eq!(reply.status, "success");
    assert_eq!(reply.message, "Gateway is running");
    let data = reply.data.unwrap();
    assert_eq!(data.version, "0.1.0");
    assert_eq!(data.status, "operational");
}

#[test]
fn connection_list_counts_in_its_message() {
    let reply = connection_list(vec![]);
    assert_eq!(reply.status, "success");
    assert_eq!(reply.message, "Found 0 active connections");
    assert_eq!(reply.data, Some(vec![]));
    let infos: Vec<ConnectionInfo> = (0..12)
        .map(|i| ConnectionInfo { connection_id: format!("c{}", i), connected_at: i, tunnel_id: None })
        .collect();
    let reply = connection_list(infos.clone());
    assert_eq!(reply.message, "Found 12 active connections");
    assert_eq!(reply.data, Some(infos));
}

#[test]
fn list_connections_reports_the_registry() {
    let mut registry = Registry::new();
    let (tx, _rx) = unbounded_channel();
    let id = registry.register(77, tx).unwrap();
    registry.attach_tunnel(&id, "agent_00000000-0000-0000-0000-000000000000_test".to_string());
    let reply = list_connections(&registry);
    assert_eq!(reply.status, "success");
    assert_eq!(reply.message, "Found 1 active connections");
    let infos = reply.data.unwrap();
    assert_eq!(infos.len(), 1);
    assert_eq!(infos[0].connection_id, id);
    assert_eq!(infos[0].connected_at, 77);
    assert_eq!(infos[0].tunnel_id.as_deref(), Some("agent_00000000-0000-0000-0000-000000000000_test"));
}

#[test]
fn respond_stamps_the_response_with_the_current_time() {
    let before = chrono::Utc::now();
    let response = respond(origin(503, "503 Service Unavailable", "down"), "0.1.0".to_string());
    let after = chrono::Utc::now();
    assert_eq!(response.status, "error");
    assert_eq!(response.message, "Local server responded with status 503 Service Unavailable");
    let data = response.data.unwrap();
    assert_eq!(data.status_code, 503);
    assert_eq!(data.body, "down");
    assert_eq!(data.agent_version, "0.1.0");
    let stamp = chrono::DateTime::parse_from_rfc3339(&data.timestamp).unwrap();
    assert!(before <= stamp && stamp <= after);
}
