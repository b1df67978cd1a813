//! Connection multiplexing and request/response correlation for a
//! reverse-tunnel gateway and its agents.
//!
//! A gateway accepts public HTTP requests and hands them, over persistent
//! channels, to agents that sit next to a private origin; the agent runs the
//! request against the origin and sends the answer back over the same
//! channel. This crate holds the rules of that exchange. It opens no socket
//! and starts no task: the program around it reads, writes, sleeps and
//! locks, and asks the crate what to do with what it got.
//!
//! On the gateway's side:
//! - [`tunnel_id`]: the grammar of tunnel IDs, `agent_<uuid>_<purpose>`;
//! - [`registry`]: the live channels, with at most one armed sink each;
//! - [`channel`]: what to do with each frame an agent sends;
//! - [`forwarder`]: from a public request to a request frame, and from the
//!   outcome to the public reply;
//! - [`status`]: the liveness reply and the list of channels.
//!
//! On the agent's side:
//! - [`supervisor`]: reconnection with a bounded exponential backoff;
//! - [`agent_channel`]: what to do with each event on the channel;
//! - [`origin`]: the call on the origin and the agent's response;
//! - [`agent_error`]: the agent's error messages.
//!
//! Shared by both: [`wire`], the values on the wire, and [`text`]. The
//! modules [`json`], [`queue`], [`uuid_text`], [`url_text`], [`clock`] and
//! [`unicode`] hold the calls into other crates and into parts of the
//! standard library that have no verified contract; their contracts are
//! taken on trust, everything else is proved.

pub mod agent_channel;
pub mod agent_error;
pub mod channel;
pub mod clock;
pub mod forwarder;
pub mod json;
pub mod origin;
pub mod queue;
pub mod registry;
pub mod status;
pub mod supervisor;
pub mod text;
pub mod tunnel_id;
pub mod unicode;
pub mod url_text;
pub mod uuid_text;
pub mod wire;
