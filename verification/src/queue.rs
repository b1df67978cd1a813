//! The channel handles of `tokio::sync::mpsc` that the gateway keeps per
//! connection, and the calls the library makes on them.

use vstd::prelude::*;
use tokio::sync::mpsc::{Sender, UnboundedSender};

verus! {

/// `tokio::sync::mpsc::UnboundedSender`: the sending half of an unbounded
/// queue. Opaque to the verifier.
#[verifier::external_type_specification]
#[verifier::external_body]
#[verifier::reject_recursive_types(T)]
pub struct ExUnboundedSender<T>(UnboundedSender<T>);

/// `tokio::sync::mpsc::Sender`: the sending half of a bounded queue. Opaque
/// to the verifier.
#[verifier::external_type_specification]
#[verifier::external_body]
#[verifier::reject_recursive_types(T)]
pub struct ExSender<T>(Sender<T>);

/// Puts `item` on the queue with `UnboundedSender::send`, which never waits.
///
/// Trusted, and silent about the outcome: whether the item is accepted
/// depends on whether the receiving half is still open. On refusal the
/// error's own text is handed back. `send` aborts the process should the
/// count of queued items overflow a `usize`.
#[verifier::external_body]
pub(crate) fn enqueue<T>(queue: &UnboundedSender<T>, item: T) -> (sent: Result<(), String>) {
    queue.send(item).map_err(|e| e.to_string())
}

/// Asks `Sender::is_closed` whether the receiving half of the queue is gone.
///
/// Trusted, and silent about the outcome: it depends on what the holder of
/// the receiving half has done.
#[verifier::external_body]
pub(crate) fn receiver_gone<T>(sink: &Sender<T>) -> (gone: bool) {
    sink.is_closed()
}

} // verus!
