//! Live telemetry fan-out: the registry of viewer sessions and the
//! rules of the per-viewer push workers.
//!
//! Each connected viewer owns one push worker that periodically copies
//! the current universe out of the store and sends it as one binary
//! message. The broadcast is best-effort and lossy by design: a viewer
//! only ever sees the most recent snapshot at each tick. The server
//! that accepts connections and carries the messages lives outside
//! this crate.

use std::collections::BTreeSet;
use vstd::prelude::*;

use crate::dmx::{DmxState, Universe};

verus! {

broadcast use vstd::std_specs::btree::group_btree_axioms, vstd::laws_cmp::group_laws_cmp;

/// Milliseconds between two pushes of one push worker.
pub const BROADCAST_INTERVAL_MILLIS: u64 = 100;

/// The set of live viewer sessions: membership only, no ordering
/// semantics. Entries are created on connect and removed on disconnect.
pub struct SessionRegistry {
    sessions: BTreeSet<i32>,
}

impl View for SessionRegistry {
    type V = Set<i32>;

    closed spec fn view(&self) -> Set<i32> {
        self.sessions@
    }
}

impl SessionRegistry {
    /// An empty registry: no viewer is connected at process start.
    pub fn new() -> (r: SessionRegistry)
        ensures
            r@ == Set::<i32>::empty(),
    {
        SessionRegistry { sessions: BTreeSet::new() }
    }

    /// Adds one session id.
    pub fn register(&mut self, id: i32)
        ensures
            final(self)@ == old(self)@.insert(id),
    {
        self.sessions.insert(id);
    }

    /// Removes one session id; afterwards the id is absent and no
    /// sender consults the registry for it again.
    pub fn deregister(&mut self, id: i32)
        ensures
            final(self)@ == old(self)@.remove(id),
            !final(self)@.contains(id),
    {
        self.sessions.remove(&id);
    }

    /// Whether a session id is live.
    pub fn is_registered(&self, id: i32) -> (r: bool)
        ensures
            r == self@.contains(id),
    {
        self.sessions.contains(&id)
    }

    /// How many sessions are live.
    pub fn live_count(&self) -> (r: usize)
        ensures
            r == self@.len(),
    {
        self.sessions.len()
    }
}

/// A change on one viewer connection: it was just opened, or its
/// closed signal was detected.
#[derive(Clone, Copy, Debug, PartialEq, Eq, Structural)]
pub enum SessionEvent {
    Opened(i32),
    Closed(i32),
}

/// What the fan-out asks of its surroundings in answer to an event.
#[derive(Clone, Copy, Debug, PartialEq, Eq, Structural)]
pub enum FanoutAction {
    SpawnSender(i32),
    Ignore,
}

/// Answers one connection event: a new connection is registered and
/// gets a dedicated push worker; a closed connection is removed from
/// the registry, so no further sends occur for it.
pub fn on_session_event(reg: &mut SessionRegistry, ev: SessionEvent) -> (r: FanoutAction)
    ensures
        ev matches SessionEvent::Opened(id) ==> final(reg)@ == old(reg)@.insert(id) && r
            == FanoutAction::SpawnSender(id),
        ev matches SessionEvent::Closed(id) ==> final(reg)@ == old(reg)@.remove(id) && !final(
            reg
        )@.contains(id) && r == FanoutAction::Ignore,
{
    match ev {
        SessionEvent::Opened(id) => {
            reg.register(id);
            FanoutAction::SpawnSender(id)
        },
        SessionEvent::Closed(id) => {
            reg.deregister(id);
            FanoutAction::Ignore
        },
    }
}

/// One tick of a push worker: a closed connection produces no send and
/// ends the worker; an open one always yields a fresh snapshot to
/// send, so a newly connected viewer is sent its first snapshot within
/// one broadcast interval of connecting.
pub fn sender_tick(state: &DmxState, connection_closed: bool) -> (r: Option<Universe>)
    ensures
        r is Some <==> !connection_closed,
        r matches Some(u) ==> u.wf(),
{
    if connection_closed {
        None
    } else {
        Some(state.get())
    }
}

/// What a push worker does after one send attempt.
#[derive(Clone, Copy, Debug, PartialEq, Eq, Structural)]
pub enum SenderDirective {
    Continue,
    Stop,
}

/// A failed send ends the push worker without retry; a successful one
/// lets it sleep one broadcast interval and go on.
pub fn after_send(send_failed: bool) -> (r: SenderDirective)
    ensures
        r == (if send_failed {
            SenderDirective::Stop
        } else {
            SenderDirective::Continue
        }),
{
    if send_failed {
        SenderDirective::Stop
    } else {
        SenderDirective::Continue
    }
}

} // verus!
