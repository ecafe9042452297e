//! Delayed actions, at most one pending per session, each cancellable until
//! it runs.
//!
//! The scheduler does not wait and does not run anything. `schedule` registers
//! a fresh handle and gives the caller a ticket; the caller waits for the grace
//! period on the ticket's receiving end, and when the period has elapsed
//! without a signal it asks `is_current` whether the action is still to run,
//! runs it, and calls `retire`.

use crate::registry::{CancellationHandle, SessionRegistry};
use tokio::sync::oneshot::Receiver;
use vstd::prelude::*;

verus! {

/// The scheduler as a mathematical value.
pub struct SchedulerView {
    /// For each session with a pending action, the identifier of its handle.
    pub live: Map<u64, nat>,
    /// The identifier that the next scheduled action gets.
    pub next: nat,
}

impl SchedulerView {
    /// Every registered identifier has been issued already.
    pub open spec fn wf(self) -> bool {
        forall|session: u64| #[trigger]
            self.live.contains_key(session) ==> self.live[session] < self.next
    }

    /// The scheduler in which nothing was ever scheduled.
    pub open spec fn initial() -> SchedulerView {
        SchedulerView { live: Map::empty(), next: 0 }
    }

    /// A new action is scheduled for `session`: it gets the next identifier
    /// and takes the place of whatever was pending for that session.
    pub open spec fn schedule(self, session: u64) -> SchedulerView {
        SchedulerView { live: self.live.insert(session, self.next), next: self.next + 1 }
    }

    /// Whatever was pending for `session` is dropped.
    pub open spec fn cancel(self, session: u64) -> SchedulerView {
        SchedulerView { live: self.live.remove(session), next: self.next }
    }

    /// The action with identifier `handle` is the one pending for `session`.
    pub open spec fn is_current(self, session: u64, handle: nat) -> bool {
        self.live.contains_key(session) && self.live[session] == handle
    }

    /// The action with identifier `handle` is done: its registration goes,
    /// unless a later action has taken its place meanwhile.
    pub open spec fn retire(self, session: u64, handle: nat) -> SchedulerView {
        if self.is_current(session, handle) {
            self.cancel(session)
        } else {
            self
        }
    }
}

/// What `schedule` hands to the caller, who does the waiting.
pub struct Ticket {
    /// The session that the action was scheduled for.
    pub session: u64,
    /// The identifier of the handle registered for the action.
    pub handle: u64,
    /// How long to wait before the action runs, in milliseconds.
    pub grace_millis: u64,
    /// Receives a signal when the action is cancelled or superseded.
    pub cancelled: Receiver<()>,
}

/// Schedules cancellable delayed actions and keeps their handles.
pub struct DelayedActionScheduler {
    registry: SessionRegistry,
    next: u64,
}

impl View for DelayedActionScheduler {
    type V = SchedulerView;

    closed spec fn view(&self) -> SchedulerView {
        SchedulerView {
            live: Map::new(
                |session: u64| self.registry@.contains_key(session),
                |session: u64| self.registry@[session] as nat,
            ),
            next: self.next as nat,
        }
    }
}

impl DelayedActionScheduler {
    /// The scheduler's invariant: see `SchedulerView::wf`.
    pub open spec fn wf(&self) -> bool {
        self@.wf() && self@.next <= u64::MAX
    }

    /// A scheduler with nothing pending.
    pub fn new() -> (scheduler: DelayedActionScheduler)
        ensures
            scheduler.wf(),
            scheduler@ == SchedulerView::initial(),
    {
        let scheduler = DelayedActionScheduler { registry: SessionRegistry::new(), next: 0 };
        assert(scheduler@.live =~= SchedulerView::initial().live);
        scheduler
    }

    /// Whether another action can be scheduled: identifiers are not used twice,
    /// and there are `u64::MAX` of them.
    pub fn can_schedule(&self) -> (can: bool)
        ensures
            can == (self@.next < u64::MAX),
    {
        self.next < u64::MAX
    }

    /// Schedules an action for `session`, to run after `grace_millis`.
    ///
    /// A fresh handle is registered for the session. A handle that was
    /// registered for it before is fired, so that the earlier action never
    /// runs.
    pub fn schedule(&mut self, session: u64, grace_millis: u64) -> (ticket: Ticket)
        requires
            old(self).wf(),
            old(self)@.next < u64::MAX,
        ensures
            final(self).wf(),
            final(self)@ == old(self)@.schedule(session),
            ticket.session == session,
            ticket.handle as nat == old(self)@.next,
            ticket.grace_millis == grace_millis,
    {
        let id = self.next;
        let (handle, cancelled) = CancellationHandle::new(id);
        let prev = self.registry.put(session, handle);
        match prev {
            Some(earlier) => earlier.fire(),
            None => {},
        }
        self.next = id + 1;
        assert(self@.live =~= old(self)@.schedule(session).live);
        Ticket { session, handle: id, grace_millis, cancelled }
    }

    /// Cancels what is pending for `session`, and tells whether there was
    /// anything. With nothing pending this does nothing.
    pub fn cancel(&mut self, session: u64) -> (fired: bool)
        requires
            old(self).wf(),
        ensures
            final(self).wf(),
            final(self)@ == old(self)@.cancel(session),
            fired == old(self)@.live.contains_key(session),
    {
        let prev = self.registry.remove(session);
        assert(self@.live =~= old(self)@.cancel(session).live);
        match prev {
            Some(handle) => {
                handle.fire();
                true
            },
            None => false,
        }
    }

    /// The identifier of the handle of the action pending for `session`.
    pub fn pending(&self, session: u64) -> (handle: Option<u64>)
        ensures
            handle is Some <==> self@.live.contains_key(session),
            handle matches Some(h) ==> h as nat == self@.live[session],
    {
        self.registry.get(session)
    }

    /// Whether the action with identifier `handle` is still the one pending
    /// for `session`: asked when its grace period has elapsed, to learn
    /// whether it runs.
    pub fn is_current(&self, session: u64, handle: u64) -> (current: bool)
        ensures
            current == self@.is_current(session, handle as nat),
    {
        match self.registry.get(session) {
            Some(registered) => registered == handle,
            None => false,
        }
    }

    /// Gives up the registration of the action with identifier `handle` once
    /// it has run, and tells whether it was still registered. A handle that a
    /// later `schedule` has registered for the session stays.
    pub fn retire(&mut self, session: u64, handle: u64) -> (retired: bool)
        requires
            old(self).wf(),
        ensures
            final(self).wf(),
            final(self)@ == old(self)@.retire(session, handle as nat),
            retired == old(self)@.is_current(session, handle as nat),
    {
        if self.is_current(session, handle) {
            let _ = self.registry.remove(session);
            assert(self@.live =~= old(self)@.cancel(session).live);
            true
        } else {
            false
        }
    }
}

} // verus!
