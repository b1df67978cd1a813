//! The gateway's introspection replies: liveness and the list of live
//! channels.

use vstd::prelude::*;
use crate::forwarder::ApiResponse;
use crate::registry::{describes, ConnectionInfo, Registry};
use crate::text::{decimal, decimal_text};

verus! {

/// The `data` of the liveness reply.
#[derive(Debug, PartialEq, Eq)]
pub struct HealthResponse {
    pub version: String,
    pub status: String,
}

/// The liveness reply of a gateway of the given version.
pub fn health(version: &str) -> (reply: ApiResponse<HealthResponse>)
    ensures
        reply.status@ == "success"@,
        reply.message@ == "Gateway is running"@,
        reply.data matches Some(data) && data.version@ == version@ && data.status@
            == "operational"@,
{
    ApiResponse {
        status: "success".to_owned(),
        message: "Gateway is running".to_owned(),
        data: Some(
            HealthResponse { version: version.to_owned(), status: "operational".to_owned() },
        ),
    }
}

/// The message that goes with a list of `count` channels.
pub open spec fn found_message(count: nat) -> Seq<char> {
    "Found "@ + decimal(count) + " active connections"@
}

/// The reply that lists the given channels.
pub fn connection_list(infos: Vec<ConnectionInfo>) -> (reply: ApiResponse<Vec<ConnectionInfo>>)
    ensures
        reply.status@ == "success"@,
        reply.message@ == found_message(infos@.len()),
        reply.data == Some(infos),
{
    let mut message = "Found ".to_owned();
    let count = decimal_text(infos.len() as u64);
    message.append(count.as_str());
    message.append(" active connections");
    ApiResponse { status: "success".to_owned(), message, data: Some(infos) }
}

/// The reply that lists every live channel of the registry, in registry
/// order.
pub fn list_connections(registry: &Registry) -> (reply: ApiResponse<Vec<ConnectionInfo>>)
    ensures
        reply.status@ == "success"@,
        reply.message@ == found_message(registry@.len()),
        reply.data matches Some(infos) && {
            &&& infos@.len() == registry@.len()
            &&& forall|i: int| 0 <= i < infos@.len() ==> describes(#[trigger] infos@[i], registry@[i])
        },
{
    connection_list(registry.snapshot())
}

} // verus!
