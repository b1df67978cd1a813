//! The agent's origin dispatcher: from a forwarded request to the call on
//! the local origin, and from the origin's answer to the agent's response.
//!
//! The HTTP call itself is the caller's business. [`plan_origin_call`] says
//! what to call, or why the request cannot be served;
//! [`build_response`] wraps what the origin answered.

use vstd::prelude::*;
use serde_json::Value;
use crate::agent_error::{message_of, AgentError, Failure};
use crate::clock::utc_now_rfc3339;
use crate::json::{json_parse, parse_json};
use crate::text::{join, same_text};
use crate::wire::ForwardedRequest;

verus! {

/// The base URL of the origin; the path of a forwarded request is appended
/// to it.
pub const LOCAL_APP_URL: &'static str = "http://127.0.0.1:8000";

/// The methods the agent forwards.
#[derive(Clone, Copy, Debug, PartialEq, Eq, Structural)]
pub enum OriginMethod {
    Get,
    Post,
    Put,
    Delete,
}

/// The method that a name denotes, if the agent supports it. Names are
/// upper case.
pub open spec fn method_of(name: Seq<char>) -> Option<OriginMethod> {
    if name == "GET"@ {
        Some(OriginMethod::Get)
    } else if name == "POST"@ {
        Some(OriginMethod::Post)
    } else if name == "PUT"@ {
        Some(OriginMethod::Put)
    } else if name == "DELETE"@ {
        Some(OriginMethod::Delete)
    } else {
        None
    }
}

/// Reads a method name.
pub fn supported_method(name: &str) -> (method: Option<OriginMethod>)
    ensures
        method == method_of(name@),
{
    if same_text(name, "GET") {
        Some(OriginMethod::Get)
    } else if same_text(name, "POST") {
        Some(OriginMethod::Post)
    } else if same_text(name, "PUT") {
        Some(OriginMethod::Put)
    } else if same_text(name, "DELETE") {
        Some(OriginMethod::Delete)
    } else {
        None
    }
}

/// The call to make on the origin.
#[derive(Debug, PartialEq, Eq)]
pub struct OriginCall {
    pub method: OriginMethod,
    /// The origin's base URL followed by the request's path.
    pub url: String,
    /// The request's headers, as they came.
    pub headers: Vec<(String, String)>,
    /// The JSON body to send, with `Content-Type: application/json`; `None`
    /// for a `GET`.
    pub json_body: Option<Value>,
}

/// The body that goes to the origin: none for a `GET`, else the request's
/// body read as JSON, or the text of the syntax error in it.
pub open spec fn body_for(method: OriginMethod, body: Seq<char>) -> Result<
    Option<Value>,
    Seq<char>,
> {
    if method == OriginMethod::Get {
        Ok(None)
    } else {
        match json_parse(body) {
            Ok(document) => Ok(Some(document)),
            Err(detail) => Err(detail),
        }
    }
}

/// `plan` is the right plan for a request with a supported method, given
/// what became of its body.
pub open spec fn plan_matches(
    plan: Result<OriginCall, AgentError>,
    method: OriginMethod,
    path: Seq<char>,
    headers: Vec<(String, String)>,
    body: Result<Option<Value>, Seq<char>>,
) -> bool {
    match body {
        Ok(json_body) => {
            &&& plan matches Ok(call)
            &&& call.method == method
            &&& call.url@ == LOCAL_APP_URL@ + path
            &&& call.headers == headers
            &&& call.json_body == json_body
        },
        Err(detail) => {
            &&& plan matches Err(error)
            &&& error.message@ == message_of(Failure::BodyNotJson, detail)
        },
    }
}

/// `plan` is the right plan for `request`: an unsupported method and a body
/// that is no JSON are refused, in this order; otherwise the call goes to
/// the origin's base URL followed by the path, with the headers unchanged.
pub open spec fn plan_is_for(plan: Result<OriginCall, AgentError>, request: ForwardedRequest) -> bool {
    match method_of(request.method@) {
        None => {
            &&& plan matches Err(error)
            &&& error.message@ == message_of(Failure::UnsupportedMethod, request.method@)
        },
        Some(method) => plan_matches(
            plan,
            method,
            request.path@,
            request.headers,
            body_for(method, request.body@),
        ),
    }
}

/// Reads the body of a request for the origin: nothing for a `GET`, a JSON
/// document otherwise.
pub fn read_body(method: OriginMethod, body: &str) -> (read: Result<Option<Value>, String>)
    ensures
        match read {
            Ok(json_body) => body_for(method, body@) == Ok::<Option<Value>, Seq<char>>(json_body),
            Err(detail) => body_for(method, body@) == Err::<Option<Value>, Seq<char>>(detail@),
        },
{
    match method {
        OriginMethod::Get => Ok(None),
        _ => match parse_json(body) {
            Ok(document) => Ok(Some(document)),
            Err(detail) => Err(detail),
        },
    }
}

/// Plans the call for a request whose method is supported and whose body
/// has been read.
pub fn plan_with_body(
    method: OriginMethod,
    path: &str,
    headers: Vec<(String, String)>,
    body: Result<Option<Value>, String>,
) -> (plan: Result<OriginCall, AgentError>)
    ensures
        plan_matches(
            plan,
            method,
            path@,
            headers,
            match body {
                Ok(json_body) => Ok(json_body),
                Err(detail) => Err(detail@),
            },
        ),
{
    match body {
        Ok(json_body) => Ok(
            OriginCall { method, url: join(LOCAL_APP_URL, path), headers, json_body },
        ),
        Err(detail) => Err(AgentError::new(Failure::BodyNotJson, detail.as_str())),
    }
}

/// Plans the call on the origin for a forwarded request.
pub fn plan_origin_call(request: ForwardedRequest) -> (plan: Result<OriginCall, AgentError>)
    ensures
        plan_is_for(plan, request),
{
    match supported_method(request.method.as_str()) {
        None => Err(AgentError::new(Failure::UnsupportedMethod, request.method.as_str())),
        Some(method) => {
            let body = read_body(method, request.body.as_str());
            plan_with_body(method, request.path.as_str(), request.headers, body)
        },
    }
}

/// What the origin answered, as the HTTP client reports it.
#[derive(Debug, PartialEq, Eq)]
pub struct OriginResponse {
    pub status_code: u16,
    /// The status as text: the code and its reason phrase.
    pub status_line: String,
    /// The headers in order; the value is `None` where it is not readable
    /// as text.
    pub headers: Vec<(String, Option<String>)>,
    pub body: String,
}

/// The `data` of an agent's response.
#[derive(Debug, PartialEq, Eq)]
pub struct ResponseData {
    pub status_code: u16,
    pub headers: Vec<(String, String)>,
    pub body: String,
    pub timestamp: String,
    pub agent_version: String,
}

/// The agent's response to a forwarded request.
#[derive(Debug, PartialEq, Eq)]
pub struct AgentResponse {
    pub status: String,
    pub message: String,
    pub data: Option<ResponseData>,
}

/// Whether a status code is one of success: 200 to 299.
pub open spec fn is_success(status_code: u16) -> bool {
    200 <= status_code < 300
}

/// The headers with a readable value, in order.
pub open spec fn readable(headers: Seq<(Seq<char>, Option<Seq<char>>)>) -> Seq<
    (Seq<char>, Seq<char>),
>
    decreases headers.len(),
{
    if headers.len() == 0 {
        Seq::empty()
    } else {
        let rest = readable(headers.drop_last());
        match headers.last().1 {
            Some(value) => rest.push((headers.last().0, value)),
            None => rest,
        }
    }
}

/// Whether a status code is one of success.
pub fn status_is_success(status_code: u16) -> (success: bool)
    ensures
        success == is_success(status_code),
{
    200 <= status_code && status_code < 300
}

/// Drops the headers whose value is not readable as text.
pub fn readable_headers(headers: &Vec<(String, Option<String>)>) -> (kept: Vec<(String, String)>)
    ensures
        kept.deep_view() == readable(headers.deep_view()),
{
    let mut kept: Vec<(String, String)> = Vec::new();
    let mut i: usize = 0;
    while i < headers.len()
        invariant
            i <= headers@.len(),
            kept.deep_view() == readable(headers.deep_view().take(i as int)),
        decreases headers@.len() - i,
    {
        let ghost all = headers.deep_view();
        proof {
            assert(all.take(i + 1).drop_last() =~= all.take(i as int));
        }
        match &headers[i].1 {
            Some(value) => {
                kept.push((headers[i].0.clone(), value.clone()));
            },
            None => {},
        }
        i += 1;
    }
    assert(headers.deep_view().take(i as int) =~= headers.deep_view());
    kept
}

/// `response` wraps what the origin answered: the status says `success`
/// for a status code from 200 to 299 and `error` for any other, and the
/// status code and the body are the origin's own.
pub open spec fn wraps(response: AgentResponse, origin: OriginResponse) -> bool {
    &&& response.status@ == (if is_success(origin.status_code) {
        "success"@
    } else {
        "error"@
    })
    &&& response.message@ == "Local server responded with status "@ + origin.status_line@
    &&& response.data matches Some(data)
    &&& data.status_code == origin.status_code
    &&& data.headers.deep_view() == readable(origin.headers.deep_view())
    &&& data.body == origin.body
}

/// Wraps the origin's answer in the agent's response, stamped with the
/// given time and version.
pub fn build_response(origin: OriginResponse, timestamp: String, agent_version: String) -> (response:
    AgentResponse)
    ensures
        wraps(response, origin),
        response.data matches Some(data) && data.timestamp == timestamp && data.agent_version
            == agent_version,
{
    let status = if status_is_success(origin.status_code) {
        "success".to_owned()
    } else {
        "error".to_owned()
    };
    let message = join("Local server responded with status ", origin.status_line.as_str());
    let headers = readable_headers(&origin.headers);
    AgentResponse {
        status,
        message,
        data: Some(
            ResponseData {
                status_code: origin.status_code,
                headers,
                body: origin.body,
                timestamp,
                agent_version,
            },
        ),
    }
}

/// Wraps the origin's answer in the agent's response, stamped with the
/// current time in the format of RFC 3339.
pub fn respond(origin: OriginResponse, agent_version: String) -> (response: AgentResponse)
    ensures
        wraps(response, origin),
        response.data matches Some(data) && data.agent_version == agent_version,
{
    build_response(origin, utc_now_rfc3339(), agent_version)
}

} // verus!
