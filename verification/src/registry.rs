//! The gateway's connection registry.
//!
//! One entry per live channel, in the order of registration. An entry is
//! born without a tunnel ID; a valid handshake attaches one and so makes the
//! channel eligible for forwarding. A forwarder arms an eligible channel with
//! a response sink, and at most one sink is armed per channel at a time. The
//! registry is meant to live behind the gateway's readers-writer lock: each
//! method is one critical section.

use vstd::prelude::*;
use serde_json::Value;
use tokio::sync::mpsc::{Sender, UnboundedSender};
use crate::queue::{enqueue, receiver_gone};
use crate::text::same_text;
use crate::tunnel_id::{valid_tunnel_id, validate_tunnel_id};
use crate::uuid_text::{is_uuid_text, parses_as_uuid, random_uuid_text};
use crate::wire::OutboundFrame;

verus! {

/// What the registry keeps for one channel.
#[derive(Debug)]
pub struct ConnectionDetails {
    /// The identity the gateway gave the channel: a UUID text.
    pub connection_id: String,
    /// Seconds since the Unix epoch at which the channel was accepted.
    pub connected_at: u64,
    /// Absent until a valid handshake has arrived.
    pub tunnel_id: Option<String>,
    /// The channel's outbound queue.
    pub sender: UnboundedSender<OutboundFrame>,
    /// The sink for the next response frame, while a request is in flight.
    pub response_handler: Option<Sender<Value>>,
}

/// The mathematical content of a [`ConnectionDetails`].
pub struct ConnectionView {
    pub connection_id: Seq<char>,
    pub connected_at: u64,
    pub tunnel_id: Option<Seq<char>>,
    pub sender: UnboundedSender<OutboundFrame>,
    pub response_handler: Option<Sender<Value>>,
}

impl View for ConnectionDetails {
    type V = ConnectionView;

    open spec fn view(&self) -> ConnectionView {
        ConnectionView {
            connection_id: self.connection_id@,
            connected_at: self.connected_at,
            tunnel_id: match self.tunnel_id {
                Some(t) => Some(t@),
                None => None,
            },
            sender: self.sender,
            response_handler: self.response_handler,
        }
    }
}

/// What the registry tells about a channel on request.
#[derive(Clone, Debug, PartialEq, Eq)]
pub struct ConnectionInfo {
    pub connection_id: String,
    pub connected_at: u64,
    pub tunnel_id: Option<String>,
}

/// `info` reports exactly the public attributes of `entry`.
pub open spec fn describes(info: ConnectionInfo, entry: ConnectionView) -> bool {
    &&& info.connection_id@ == entry.connection_id
    &&& info.connected_at == entry.connected_at
    &&& match info.tunnel_id {
        Some(t) => entry.tunnel_id == Some(t@),
        None => entry.tunnel_id is None,
    }
}

/// Seconds the gateway waits after the shutdown broadcast before it stops
/// listening.
pub const SHUTDOWN_GRACE_SECS: u64 = 1;

/// What became of the close frame for one channel at shutdown.
#[derive(Debug, PartialEq, Eq)]
pub struct CloseNotice {
    pub connection_id: String,
    /// The error text of the channel's queue, where it refused the frame.
    pub refusal: Option<String>,
}

/// Why a frame was not queued.
#[derive(Clone, Debug, PartialEq, Eq)]
pub enum QueueError {
    /// The registry has no channel at the position.
    NoSuchChannel,
    /// The channel's queue refused the frame; the text is the queue's.
    Refused(String),
}

/// Why a channel could not be registered.
#[derive(Clone, Copy, Debug, PartialEq, Eq, Structural)]
pub enum RegisterError {
    /// The proposed connection ID does not read as a UUID.
    NotAUuid,
    /// A live channel already has this connection ID.
    AlreadyRegistered,
}

/// How an attempt to attach a tunnel ID ended.
#[derive(Clone, Copy, Debug, PartialEq, Eq, Structural)]
pub enum AttachOutcome {
    /// The channel is now eligible for forwarding.
    Attached,
    /// The tunnel ID is not of the shape `agent_<uuid>_<purpose>`.
    InvalidTunnelId,
    /// The tunnel ID is valid, but the channel is no longer registered.
    Gone,
}

/// Some entry of `m` has the connection ID `id`.
pub open spec fn has_connection(m: Seq<ConnectionView>, id: Seq<char>) -> bool {
    exists|i: int| 0 <= i < m.len() && (#[trigger] m[i]).connection_id == id
}

/// The position of an entry with the connection ID `id`, where there is one.
pub open spec fn position_of(m: Seq<ConnectionView>, id: Seq<char>) -> int {
    choose|i: int| 0 <= i < m.len() && (#[trigger] m[i]).connection_id == id
}

/// The invariant of a single entry: its ID is a UUID text, its tunnel ID, if
/// present, is valid, and a sink is armed only on a channel with a tunnel ID.
pub open spec fn entry_well_formed(e: ConnectionView) -> bool {
    &&& is_uuid_text(e.connection_id)
    &&& (e.tunnel_id matches Some(t) ==> valid_tunnel_id(t))
    &&& (e.response_handler is Some ==> e.tunnel_id is Some)
}

/// The invariant of the registry: no two entries share a connection ID, and
/// every entry is well formed.
pub open spec fn well_formed(m: Seq<ConnectionView>) -> bool {
    &&& forall|i: int, j: int|
        0 <= i < j < m.len() ==> (#[trigger] m[i]).connection_id != (#[trigger] m[j]).connection_id
    &&& forall|i: int| 0 <= i < m.len() ==> entry_well_formed(#[trigger] m[i])
}

/// The entry a channel has right after registration.
pub open spec fn fresh_entry(
    id: Seq<char>,
    connected_at: u64,
    sender: UnboundedSender<OutboundFrame>,
) -> ConnectionView {
    ConnectionView { connection_id: id, connected_at, tunnel_id: None, sender, response_handler: None }
}

/// Whether a connection ID may be registered in `m`.
pub open spec fn insert_verdict(m: Seq<ConnectionView>, id: Seq<char>) -> Result<(), RegisterError> {
    if !is_uuid_text(id) {
        Err(RegisterError::NotAUuid)
    } else if has_connection(m, id) {
        Err(RegisterError::AlreadyRegistered)
    } else {
        Ok(())
    }
}

/// A registration under a drawn ID failed in `m` for the one reason it can:
/// some UUID text, the one that was drawn, is the ID of a live channel.
pub open spec fn drawn_id_was_taken(m: Seq<ConnectionView>) -> bool {
    exists|drawn: Seq<char>| #[trigger]
        insert_verdict(m, drawn) == Err::<(), RegisterError>(RegisterError::AlreadyRegistered)
}

/// How attaching `tunnel_id` to the channel `id` ends in `m`.
pub open spec fn attach_verdict(
    m: Seq<ConnectionView>,
    id: Seq<char>,
    tunnel_id: Seq<char>,
) -> AttachOutcome {
    if !valid_tunnel_id(tunnel_id) {
        AttachOutcome::InvalidTunnelId
    } else if !has_connection(m, id) {
        AttachOutcome::Gone
    } else {
        AttachOutcome::Attached
    }
}

/// `m` with `tunnel_id` attached to the entry `id`; every other entry as it
/// was.
pub open spec fn with_tunnel(
    m: Seq<ConnectionView>,
    id: Seq<char>,
    tunnel_id: Seq<char>,
) -> Seq<ConnectionView> {
    Seq::new(
        m.len(),
        |i: int|
            if m[i].connection_id == id {
                ConnectionView { tunnel_id: Some(tunnel_id), ..m[i] }
            } else {
                m[i]
            },
    )
}

/// `m` with the sink of the entry `id` taken out; every other entry as it
/// was.
pub open spec fn with_sink_taken(m: Seq<ConnectionView>, id: Seq<char>) -> Seq<ConnectionView> {
    Seq::new(
        m.len(),
        |i: int|
            if m[i].connection_id == id {
                disarmed(m[i])
            } else {
                m[i]
            },
    )
}

/// The sink armed on the entry `id`, if there is such an entry and it is
/// armed.
pub open spec fn armed_sink(m: Seq<ConnectionView>, id: Seq<char>) -> Option<Sender<Value>> {
    if has_connection(m, id) {
        m[position_of(m, id)].response_handler
    } else {
        None
    }
}

/// `m` without the entries whose connection ID is `id`.
pub open spec fn without(m: Seq<ConnectionView>, id: Seq<char>) -> Seq<ConnectionView> {
    m.filter(|e: ConnectionView| e.connection_id != id)
}

/// An entry that a forwarder may pick: it has a tunnel ID and no sink.
pub open spec fn is_free(e: ConnectionView) -> bool {
    e.tunnel_id is Some && e.response_handler is None
}

/// `i` is the position of the first free entry of `m`.
pub open spec fn is_first_free(m: Seq<ConnectionView>, i: int) -> bool {
    &&& 0 <= i < m.len()
    &&& is_free(m[i])
    &&& forall|k: int| 0 <= k < i ==> !is_free(#[trigger] m[k])
}

/// Some entry of `m` is free.
pub open spec fn has_free(m: Seq<ConnectionView>) -> bool {
    exists|i: int| 0 <= i < m.len() && is_free(#[trigger] m[i])
}

/// `e` armed with `sink`.
pub open spec fn armed(e: ConnectionView, sink: Sender<Value>) -> ConnectionView {
    ConnectionView { response_handler: Some(sink), ..e }
}

/// `after` is `before`, or `before` with its sink cleared.
pub open spec fn same_or_cleared(before: ConnectionView, after: ConnectionView) -> bool {
    after == before || (before.response_handler is Some && after == disarmed(before))
}

/// `after` is `before` with some of its sinks cleared and nothing else
/// changed.
pub open spec fn swept(before: Seq<ConnectionView>, after: Seq<ConnectionView>) -> bool {
    &&& after.len() == before.len()
    &&& forall|i: int| 0 <= i < before.len() ==> same_or_cleared(before[i], #[trigger] after[i])
}

/// `e` without a sink.
pub open spec fn disarmed(e: ConnectionView) -> ConnectionView {
    ConnectionView { response_handler: None, ..e }
}

/// The registry of live channels.
pub struct Registry {
    entries: Vec<ConnectionDetails>,
}

impl View for Registry {
    type V = Seq<ConnectionView>;

    closed spec fn view(&self) -> Seq<ConnectionView> {
        Seq::new(self.entries@.len(), |i: int| self.entries@[i]@)
    }
}

impl Registry {
    /// The registry's invariant, which every method preserves.
    pub open spec fn wf(&self) -> bool {
        well_formed(self@)
    }

    /// An empty registry.
    pub fn new() -> (registry: Registry)
        ensures
            registry@ == Seq::<ConnectionView>::empty(),
            registry.wf(),
    {
        let registry = Registry { entries: Vec::new() };
        registry
    }

    /// The number of live channels.
    pub fn len(&self) -> (n: usize)
        ensures
            n == self@.len(),
    {
        self.entries.len()
    }

    /// Whether no channel is live.
    pub fn is_empty(&self) -> (empty: bool)
        ensures
            empty == (self@.len() == 0),
    {
        self.entries.len() == 0
    }

    /// The entry at a position, if the position is taken.
    pub fn get(&self, index: usize) -> (entry: Option<&ConnectionDetails>)
        ensures
            match entry {
                Some(details) => index < self@.len() && details@ == self@[index as int],
                None => index >= self@.len(),
            },
    {
        if index < self.entries.len() {
            Some(&self.entries[index])
        } else {
            None
        }
    }

    /// The position of the channel `connection_id`.
    pub fn find(&self, connection_id: &str) -> (found: Option<usize>)
        ensures
            match found {
                Some(i) => i < self@.len() && self@[i as int].connection_id == connection_id@,
                None => !has_connection(self@, connection_id@),
            },
    {
        let mut i: usize = 0;
        while i < self.entries.len()
            invariant
                i <= self.entries@.len(),
                forall|k: int| 0 <= k < i ==> (#[trigger] self@[k]).connection_id != connection_id@,
            decreases self.entries@.len() - i,
        {
            if same_text(self.entries[i].connection_id.as_str(), connection_id) {
                return Some(i);
            }
            i += 1;
        }
        None
    }

    /// Whether the channel `connection_id` is live.
    pub fn contains(&self, connection_id: &str) -> (live: bool)
        ensures
            live == has_connection(self@, connection_id@),
    {
        self.find(connection_id).is_some()
    }

    /// Registers a channel under a connection ID of the caller's choosing.
    ///
    /// The ID must read as a UUID and must not be in use; otherwise the
    /// registry stays as it was and the reason is returned.
    pub fn insert(
        &mut self,
        connection_id: String,
        connected_at: u64,
        sender: UnboundedSender<OutboundFrame>,
    ) -> (outcome: Result<(), RegisterError>)
        requires
            old(self).wf(),
        ensures
            final(self).wf(),
            outcome == insert_verdict(old(self)@, connection_id@),
            outcome is Ok ==> final(self)@ == old(self)@.push(
                fresh_entry(connection_id@, connected_at, sender),
            ),
            outcome is Err ==> final(self)@ == old(self)@,
    {
        if !parses_as_uuid(connection_id.as_str()) {
            return Err(RegisterError::NotAUuid);
        }
        if self.find(connection_id.as_str()).is_some() {
            return Err(RegisterError::AlreadyRegistered);
        }
        let details = ConnectionDetails {
            connection_id,
            connected_at,
            tunnel_id: None,
            sender,
            response_handler: None,
        };
        self.entries.push(details);
        assert(self@ =~= old(self)@.push(fresh_entry(connection_id@, connected_at, sender)));
        Ok(())
    }

    /// Registers a channel under a freshly drawn UUID and returns it.
    ///
    /// The ID is drawn once, from a random source. If no live channel has
    /// it, the channel is appended under it and the ID is returned. `None`
    /// is returned only where the drawn ID is already the ID of a live
    /// channel; the registry then stays as it was. So the first channel of
    /// an empty registry is always registered.
    pub fn register(&mut self, connected_at: u64, sender: UnboundedSender<OutboundFrame>) -> (id:
        Option<String>)
        requires
            old(self).wf(),
        ensures
            final(self).wf(),
            match id {
                Some(id) => {
                    &&& insert_verdict(old(self)@, id@) is Ok
                    &&& final(self)@ == old(self)@.push(fresh_entry(id@, connected_at, sender))
                },
                None => {
                    &&& final(self)@ == old(self)@
                    &&& drawn_id_was_taken(old(self)@)
                },
            },
    {
        let connection_id = random_uuid_text();
        let copy = connection_id.clone();
        match self.insert(connection_id, connected_at, sender) {
            Ok(()) => Some(copy),
            Err(_) => None,
        }
    }

    /// Attaches a tunnel ID to a channel after validating its syntax.
    ///
    /// An invalid tunnel ID changes nothing, and neither does a valid one
    /// for a channel that is gone.
    pub fn attach_tunnel(&mut self, connection_id: &str, tunnel_id: String) -> (outcome:
        AttachOutcome)
        requires
            old(self).wf(),
        ensures
            final(self).wf(),
            outcome == attach_verdict(old(self)@, connection_id@, tunnel_id@),
            final(self)@ == if outcome == AttachOutcome::Attached {
                with_tunnel(old(self)@, connection_id@, tunnel_id@)
            } else {
                old(self)@
            },
    {
        if !validate_tunnel_id(tunnel_id.as_str()) {
            return AttachOutcome::InvalidTunnelId;
        }
        match self.find(connection_id) {
            None => AttachOutcome::Gone,
            Some(i) => {
                self.entries[i].tunnel_id = Some(tunnel_id);
                assert(self@ =~= with_tunnel(old(self)@, connection_id@, tunnel_id@));
                AttachOutcome::Attached
            },
        }
    }

    /// Settles the sink of the channel at `index`, once it is known whether
    /// the forwarder that waits on it has given up: an abandoned sink is
    /// dropped, any other stays. A position that is not taken changes
    /// nothing.
    pub fn settle_sink(&mut self, index: usize, abandoned: bool)
        requires
            old(self).wf(),
        ensures
            final(self).wf(),
            final(self)@ == if abandoned && index < old(self)@.len() {
                old(self)@.update(index as int, disarmed(old(self)@[index as int]))
            } else {
                old(self)@
            },
    {
        if abandoned && index < self.entries.len() {
            self.entries[index].response_handler = None;
            assert forall|a: int, b: int| 0 <= a < b < self@.len() implies (#[trigger] self@[a]).connection_id
                != (#[trigger] self@[b]).connection_id by {
                assert(self@[a].connection_id == old(self)@[a].connection_id);
                assert(self@[b].connection_id == old(self)@[b].connection_id);
            }
            assert forall|a: int| 0 <= a < self@.len() implies entry_well_formed(
                #[trigger] self@[a],
            ) by {
                assert(entry_well_formed(old(self)@[a]));
            }
        }
    }

    /// Drops every sink whose forwarder has given up waiting.
    ///
    /// Whether a forwarder has given up is asked of the sink itself, so the
    /// contract holds whatever the answers are: each entry is as it was, or
    /// as it was with its sink cleared. [`Registry::settle_sink`] says what
    /// becomes of a sink for each answer.
    pub fn sweep_abandoned(&mut self)
        requires
            old(self).wf(),
        ensures
            final(self).wf(),
            swept(old(self)@, final(self)@),
    {
        let mut i: usize = 0;
        while i < self.entries.len()
            invariant
                i <= self.entries@.len(),
                self.wf(),
                swept(old(self)@, self@),
            decreases self.entries@.len() - i,
        {
            let abandoned = match &self.entries[i].response_handler {
                Some(sink) => receiver_gone(sink),
                None => false,
            };
            self.settle_sink(i, abandoned);
            assert forall|k: int| 0 <= k < self@.len() implies same_or_cleared(
                old(self)@[k],
                #[trigger] self@[k],
            ) by {}
            i += 1;
        }
    }

    /// Picks the first free channel and arms it with `sink`.
    ///
    /// A channel is free when it has a tunnel ID and no sink: an armed
    /// channel is skipped, never overwritten. Where no channel is free the
    /// registry stays as it was and the sink is handed back.
    pub fn pick_and_arm(&mut self, sink: Sender<Value>) -> (picked: Result<usize, Sender<Value>>)
        requires
            old(self).wf(),
        ensures
            final(self).wf(),
            match picked {
                Ok(i) => {
                    &&& is_first_free(old(self)@, i as int)
                    &&& final(self)@ == old(self)@.update(i as int, armed(old(self)@[i as int], sink))
                },
                Err(unused) => {
                    &&& !has_free(old(self)@)
                    &&& unused == sink
                    &&& final(self)@ == old(self)@
                },
            },
    {
        let mut i: usize = 0;
        while i < self.entries.len()
            invariant
                i <= self.entries@.len(),
                *self == *old(self),
                old(self).wf(),
                forall|k: int| 0 <= k < i ==> !is_free(#[trigger] self@[k]),
            decreases self.entries@.len() - i,
        {
            if self.entries[i].tunnel_id.is_some() && self.entries[i].response_handler.is_none() {
                self.entries[i].response_handler = Some(sink);
                assert(self@ =~= old(self)@.update(i as int, armed(old(self)@[i as int], sink)));
                return Ok(i);
            }
            i += 1;
        }
        Err(sink)
    }

    /// Takes the sink out of the channel `connection_id`.
    ///
    /// Returns the sink that was armed there, or `None` where the channel is
    /// gone or was not armed.
    pub fn take_sink(&mut self, connection_id: &str) -> (sink: Option<Sender<Value>>)
        requires
            old(self).wf(),
        ensures
            final(self).wf(),
            sink == armed_sink(old(self)@, connection_id@),
            final(self)@ == with_sink_taken(old(self)@, connection_id@),
    {
        match self.find(connection_id) {
            None => None,
            Some(i) => {
                proof {
                    lemma_position_is_unique(self@, connection_id@, i as int);
                }
                let sink = self.entries[i].response_handler.take();
                assert(self@ =~= with_sink_taken(old(self)@, connection_id@));
                sink
            },
        }
    }

    /// Removes the channel `connection_id` and hands its entry to the
    /// caller, who thereby becomes the owner of the channel's queue and of
    /// any sink still armed on it. Removing a channel that is not there
    /// changes nothing.
    pub fn remove(&mut self, connection_id: &str) -> (removed: Option<ConnectionDetails>)
        requires
            old(self).wf(),
        ensures
            final(self).wf(),
            final(self)@ == without(old(self)@, connection_id@),
            !has_connection(final(self)@, connection_id@),
            match removed {
                Some(details) => {
                    &&& has_connection(old(self)@, connection_id@)
                    &&& details@ == old(self)@[position_of(old(self)@, connection_id@)]
                },
                None => !has_connection(old(self)@, connection_id@),
            },
    {
        match self.find(connection_id) {
            None => {
                proof {
                    lemma_without_absent(self@, connection_id@);
                }
                None
            },
            Some(i) => {
                proof {
                    lemma_position_is_unique(self@, connection_id@, i as int);
                    lemma_without_single(self@, connection_id@, i as int);
                }
                let details = self.entries.remove(i);
                assert(self@ =~= old(self)@.remove(i as int));
                proof {
                    lemma_without_is_clean(old(self)@, connection_id@);
                }
                Some(details)
            },
        }
    }

    /// The public attributes of every live channel, in registry order.
    pub fn snapshot(&self) -> (infos: Vec<ConnectionInfo>)
        ensures
            infos@.len() == self@.len(),
            forall|i: int| 0 <= i < infos@.len() ==> describes(#[trigger] infos@[i], self@[i]),
    {
        let mut infos: Vec<ConnectionInfo> = Vec::new();
        let mut i: usize = 0;
        while i < self.entries.len()
            invariant
                i <= self.entries@.len(),
                infos@.len() == i,
                forall|k: int| 0 <= k < i ==> describes(#[trigger] infos@[k], self@[k]),
            decreases self.entries@.len() - i,
        {
            let entry = &self.entries[i];
            let tunnel_id = match &entry.tunnel_id {
                Some(t) => Some(t.clone()),
                None => None,
            };
            infos.push(
                ConnectionInfo {
                    connection_id: entry.connection_id.clone(),
                    connected_at: entry.connected_at,
                    tunnel_id,
                },
            );
            i += 1;
        }
        infos
    }

    /// Queues `frame` on the outbound queue of the channel at `index`.
    ///
    /// A position that is not taken is refused. Otherwise the queue decides
    /// whether it accepts the frame; on refusal its error text is returned.
    /// The registry itself is not changed.
    pub fn send_to(&self, index: usize, frame: OutboundFrame) -> (sent: Result<(), QueueError>)
        ensures
            index >= self@.len() <==> sent == Err::<(), QueueError>(QueueError::NoSuchChannel),
    {
        if index >= self.entries.len() {
            return Err(QueueError::NoSuchChannel);
        }
        match enqueue(&self.entries[index].sender, frame) {
            Ok(()) => Ok(()),
            Err(reason) => Err(QueueError::Refused(reason)),
        }
    }

    /// Queues a close frame on every channel, as the shutdown broadcast
    /// does, and reports on each channel in registry order. Each queue
    /// decides for itself whether it takes the frame.
    pub fn close_all(&self) -> (notices: Vec<CloseNotice>)
        ensures
            notices@.len() == self@.len(),
            forall|i: int|
                0 <= i < notices@.len() ==> (#[trigger] notices@[i]).connection_id@
                    == self@[i].connection_id,
    {
        let mut notices: Vec<CloseNotice> = Vec::new();
        let mut i: usize = 0;
        while i < self.entries.len()
            invariant
                i <= self.entries@.len(),
                notices@.len() == i,
                forall|k: int|
                    0 <= k < i ==> (#[trigger] notices@[k]).connection_id@
                        == self@[k].connection_id,
            decreases self.entries@.len() - i,
        {
            let refusal = match enqueue(&self.entries[i].sender, OutboundFrame::Close) {
                Ok(()) => None,
                Err(reason) => Some(reason),
            };
            notices.push(
                CloseNotice { connection_id: self.entries[i].connection_id.clone(), refusal },
            );
            i += 1;
        }
        notices
    }
}

/// Among the live entries every connection ID occurs once, and each is a
/// UUID text.
pub proof fn lemma_connection_ids_are_distinct_uuids(m: Seq<ConnectionView>)
    requires
        well_formed(m),
    ensures
        forall|i: int, j: int|
            0 <= i < m.len() && 0 <= j < m.len() && i != j ==> (#[trigger] m[i]).connection_id
                != (#[trigger] m[j]).connection_id,
        forall|i: int| 0 <= i < m.len() ==> is_uuid_text((#[trigger] m[i]).connection_id),
{
}

/// An entry with a sink has a tunnel ID, and that tunnel ID is valid: only
/// a channel whose handshake was validated is ever armed.
pub proof fn lemma_armed_entries_have_tunnel(m: Seq<ConnectionView>)
    requires
        well_formed(m),
    ensures
        forall|i: int|
            0 <= i < m.len() && (#[trigger] m[i]).response_handler is Some ==> {
                &&& m[i].tunnel_id matches Some(tunnel_id)
                &&& valid_tunnel_id(tunnel_id)
            },
{
}

/// Arming never replaces a sink: the channel that is picked has none, and
/// once armed it is not picked again, whatever the next sink is.
pub proof fn lemma_armed_channel_is_skipped(
    m: Seq<ConnectionView>,
    i: int,
    sink: Sender<Value>,
    j: int,
)
    requires
        is_first_free(m, i),
        is_first_free(m.update(i, armed(m[i], sink)), j),
    ensures
        m[i].response_handler is None,
        m.update(i, armed(m[i], sink))[i].response_handler == Some(sink),
        j > i,
{
}

/// The sink that a forwarder armed is the one found on that channel, and
/// taking it out leaves the registry as it was before the arming.
pub proof fn lemma_arm_then_take_restores(m: Seq<ConnectionView>, i: int, sink: Sender<Value>)
    requires
        well_formed(m),
        is_first_free(m, i),
    ensures
        well_formed(m.update(i, armed(m[i], sink))),
        armed_sink(m.update(i, armed(m[i], sink)), m[i].connection_id) == Some(sink),
        with_sink_taken(m.update(i, armed(m[i], sink)), m[i].connection_id) == m,
{
    let after = m.update(i, armed(m[i], sink));
    let id = m[i].connection_id;
    lemma_position_is_unique(after, id, i);
}

/// A sweep never takes a free channel away: what was free before is free
/// after.
pub proof fn lemma_sweep_keeps_free_channels(
    before: Seq<ConnectionView>,
    after: Seq<ConnectionView>,
)
    requires
        swept(before, after),
    ensures
        forall|k: int| 0 <= k < before.len() && is_free(before[k]) ==> is_free(#[trigger] after[k]),
        has_free(before) ==> has_free(after),
{
    assert forall|k: int| 0 <= k < before.len() && is_free(before[k]) implies is_free(
        #[trigger] after[k],
    ) by {
        assert(same_or_cleared(before[k], after[k]));
    }
    if has_free(before) {
        let k = choose|k: int| 0 <= k < before.len() && is_free(#[trigger] before[k]);
        assert(is_free(after[k]));
    }
}

/// A channel whose abandoned sink has been dropped is free for the next
/// forwarder: it was armed, so it has a tunnel ID.
pub proof fn lemma_settled_channel_is_free(m: Seq<ConnectionView>, i: int)
    requires
        well_formed(m),
        0 <= i < m.len(),
        m[i].response_handler is Some,
    ensures
        is_free(disarmed(m[i])),
        same_or_cleared(m[i], disarmed(m[i])),
{
}

/// Taking the sink out of a channel that has none, or that is gone, changes
/// nothing.
pub proof fn lemma_take_without_sink_changes_nothing(m: Seq<ConnectionView>, id: Seq<char>)
    requires
        well_formed(m),
        armed_sink(m, id) is None,
    ensures
        with_sink_taken(m, id) == m,
{
    assert(with_sink_taken(m, id) =~= m) by {
        assert forall|k: int| 0 <= k < m.len() implies with_sink_taken(m, id)[k] == m[k] by {
            if m[k].connection_id == id {
                lemma_position_is_unique(m, id, k);
            }
        }
    }
}

/// A drawn ID can only be taken where there is a live channel: in an empty
/// registry every registration under a drawn ID succeeds.
pub proof fn lemma_empty_registry_takes_any_drawn_id(m: Seq<ConnectionView>)
    requires
        drawn_id_was_taken(m),
    ensures
        m.len() > 0,
{
    let drawn = choose|drawn: Seq<char>| #[trigger]
        insert_verdict(m, drawn) == Err::<(), RegisterError>(RegisterError::AlreadyRegistered);
    assert(has_connection(m, drawn));
}

/// Registering a channel and removing it again leaves the registry as it
/// was.
pub proof fn lemma_register_then_remove_restores(
    m: Seq<ConnectionView>,
    id: Seq<char>,
    connected_at: u64,
    sender: UnboundedSender<OutboundFrame>,
)
    requires
        insert_verdict(m, id) is Ok,
    ensures
        without(m.push(fresh_entry(id, connected_at, sender)), id) == m,
{
    let grown = m.push(fresh_entry(id, connected_at, sender));
    lemma_without_single(grown, id, m.len() as int);
}

/// Removing a channel twice is the same as removing it once.
pub proof fn lemma_remove_is_idempotent(m: Seq<ConnectionView>, id: Seq<char>)
    ensures
        without(without(m, id), id) == without(m, id),
{
    lemma_without_is_clean(m, id);
    lemma_without_absent(without(m, id), id);
}

/// Removal keeps the registry well formed and leaves every other channel as
/// it was, in the same order.
pub proof fn lemma_without_keeps_others(m: Seq<ConnectionView>, id: Seq<char>)
    requires
        well_formed(m),
    ensures
        well_formed(without(m, id)),
        forall|other: Seq<char>|
            other != id ==> (has_connection(without(m, id), other) <==> has_connection(m, other)),
{
    if has_connection(m, id) {
        let i = position_of(m, id);
        lemma_without_single(m, id, i);
        let after = m.remove(i);
        assert forall|other: Seq<char>| other != id implies (has_connection(after, other)
            <==> has_connection(m, other)) by {
            if has_connection(m, other) {
                let b = position_of(m, other);
                let b1 = if b < i { b } else { b - 1 };
                assert(after[b1].connection_id == other);
            }
        }
    } else {
        lemma_without_absent(m, id);
    }
}

/// In a well-formed registry an ID is found at one position only.
pub proof fn lemma_position_is_unique(m: Seq<ConnectionView>, id: Seq<char>, i: int)
    requires
        well_formed(m),
        0 <= i < m.len(),
        m[i].connection_id == id,
    ensures
        has_connection(m, id),
        position_of(m, id) == i,
{
}

/// Removing an ID that no entry has changes nothing.
pub proof fn lemma_without_absent(m: Seq<ConnectionView>, id: Seq<char>)
    requires
        !has_connection(m, id),
    ensures
        without(m, id) == m,
    decreases m.len(),
{
    reveal(Seq::filter);
    if m.len() > 0 {
        lemma_without_absent(m.drop_last(), id);
    }
}

/// Removing the ID of exactly one entry removes that entry.
pub proof fn lemma_without_single(m: Seq<ConnectionView>, id: Seq<char>, i: int)
    requires
        0 <= i < m.len(),
        m[i].connection_id == id,
        forall|k: int| 0 <= k < m.len() && k != i ==> (#[trigger] m[k]).connection_id != id,
    ensures
        without(m, id) == m.remove(i),
    decreases m.len(),
{
    reveal(Seq::filter);
    let rest = m.drop_last();
    if i == m.len() - 1 {
        lemma_without_absent(rest, id);
    } else {
        lemma_without_single(rest, id, i);
    }
}

/// After removal no entry has the removed ID.
pub proof fn lemma_without_is_clean(m: Seq<ConnectionView>, id: Seq<char>)
    ensures
        !has_connection(without(m, id), id),
{
    let pred = |e: ConnectionView| e.connection_id != id;
    assert forall|k: int| 0 <= k < without(m, id).len() implies (#[trigger] without(
        m,
        id,
    )[k]).connection_id != id by {
        m.lemma_filter_pred(pred, k);
    }
}

} // verus!
