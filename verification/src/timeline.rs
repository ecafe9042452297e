//! What holds of every history of a scheduler: which delayed actions run, and
//! which never do.
//!
//! A history is a sequence of events. `Elapse` stands for the end of one
//! grace period: the action runs if its handle is still the one registered
//! (`SchedulerView::is_current`), and its registration is then given up
//! (`SchedulerView::retire`).

use crate::scheduler::SchedulerView;
use vstd::prelude::*;

verus! {

/// One event in the history of a scheduler.
pub enum TimerEvent {
    /// `schedule` was called for the session.
    Schedule { session: u64 },
    /// `cancel` was called for the session.
    Cancel { session: u64 },
    /// The grace period of the action with this handle has elapsed.
    Elapse { session: u64, handle: nat },
}

/// The scheduler after one event.
pub open spec fn apply(state: SchedulerView, event: TimerEvent) -> SchedulerView {
    match event {
        TimerEvent::Schedule { session } => state.schedule(session),
        TimerEvent::Cancel { session } => state.cancel(session),
        TimerEvent::Elapse { session, handle } => state.retire(session, handle),
    }
}

/// The scheduler after all of `events`, in their order.
pub open spec fn replay(start: SchedulerView, events: Seq<TimerEvent>) -> SchedulerView
    decreases events.len(),
{
    if events.len() == 0 {
        start
    } else {
        apply(replay(start, events.drop_last()), events.last())
    }
}

/// The scheduler just before the event at index `at`.
pub open spec fn state_before(start: SchedulerView, events: Seq<TimerEvent>, at: int) -> SchedulerView {
    replay(start, events.take(at))
}

/// The event at index `at` is the end of a grace period for `session`, and
/// the action runs.
pub open spec fn runs_at(start: SchedulerView, events: Seq<TimerEvent>, at: int, session: u64) -> bool {
    &&& 0 <= at < events.len()
    &&& events[at] matches TimerEvent::Elapse { session: s, handle }
    &&& s == session
    &&& state_before(start, events, at).is_current(session, handle)
}

/// The event at index `at` schedules or cancels for `session`.
pub open spec fn displaces(events: Seq<TimerEvent>, at: int, session: u64) -> bool {
    events[at] == (TimerEvent::Schedule { session }) || events[at] == (TimerEvent::Cancel { session })
}

/// Each event takes the scheduler from the state before it to the state
/// before the next event.
pub proof fn lemma_state_step(start: SchedulerView, events: Seq<TimerEvent>, at: int)
    requires
        0 <= at < events.len(),
    ensures
        state_before(start, events, at + 1) == apply(state_before(start, events, at), events[at]),
{
    assert(events.take(at + 1).drop_last() =~= events.take(at));
}

/// The scheduler's invariant holds throughout a history that starts with it.
pub proof fn lemma_replay_keeps_wf(start: SchedulerView, events: Seq<TimerEvent>)
    requires
        start.wf(),
    ensures
        replay(start, events).wf(),
    decreases events.len(),
{
    if events.len() > 0 {
        lemma_replay_keeps_wf(start, events.drop_last());
    }
}

/// Identifiers are issued in increasing order.
pub proof fn lemma_next_grows(start: SchedulerView, events: Seq<TimerEvent>, from: int, to: int)
    requires
        0 <= from <= to <= events.len(),
    ensures
        state_before(start, events, from).next <= state_before(start, events, to).next,
    decreases to - from,
{
    if from < to {
        lemma_next_grows(start, events, from, to - 1);
        lemma_state_step(start, events, to - 1);
    }
}

/// A session with nothing pending has nothing pending until `schedule` is
/// called for it.
proof fn lemma_stays_idle(start: SchedulerView, events: Seq<TimerEvent>, session: u64, from: int, to: int)
    requires
        0 <= from <= to <= events.len(),
        !state_before(start, events, from).live.contains_key(session),
        forall|k: int| from <= k < to ==> events[k] != (TimerEvent::Schedule { session }),
    ensures
        !state_before(start, events, to).live.contains_key(session),
    decreases to - from,
{
    if from < to {
        lemma_stays_idle(start, events, session, from, to - 1);
        lemma_state_step(start, events, to - 1);
    }
}

/// Between two calls of `schedule` for a session, and after the last one, at
/// most one action runs for that session: when an action has run, no other
/// runs for the session before `schedule` is called for it again.
pub proof fn lemma_single_pending_action(
    start: SchedulerView,
    events: Seq<TimerEvent>,
    session: u64,
    first: int,
    second: int,
)
    requires
        0 <= first < second < events.len(),
        runs_at(start, events, first, session),
        forall|k: int| first < k < second ==> events[k] != (TimerEvent::Schedule { session }),
    ensures
        !runs_at(start, events, second, session),
{
    lemma_state_step(start, events, first);
    lemma_stays_idle(start, events, session, first + 1, second);
}

/// An identifier that was issued, and is not the registered one, never is the
/// registered one again.
proof fn lemma_stays_displaced(
    start: SchedulerView,
    events: Seq<TimerEvent>,
    session: u64,
    handle: nat,
    from: int,
    to: int,
)
    requires
        0 <= from <= to <= events.len(),
        handle < state_before(start, events, from).next,
        !state_before(start, events, from).is_current(session, handle),
    ensures
        handle < state_before(start, events, to).next,
        !state_before(start, events, to).is_current(session, handle),
    decreases to - from,
{
    if from < to {
        lemma_stays_displaced(start, events, session, handle, from, to - 1);
        lemma_state_step(start, events, to - 1);
    }
}

/// An action that was superseded by a later `schedule` for its session, or
/// cancelled, never runs, however late its grace period elapses.
pub proof fn lemma_displaced_never_runs(
    start: SchedulerView,
    events: Seq<TimerEvent>,
    session: u64,
    scheduled: int,
    displaced: int,
    elapsed: int,
)
    requires
        0 <= scheduled < displaced < elapsed < events.len(),
        events[scheduled] == (TimerEvent::Schedule { session }),
        displaces(events, displaced, session),
        events[elapsed] == (TimerEvent::Elapse {
            session,
            handle: state_before(start, events, scheduled).next,
        }),
    ensures
        !runs_at(start, events, elapsed, session),
{
    let handle = state_before(start, events, scheduled).next;
    lemma_state_step(start, events, scheduled);
    lemma_next_grows(start, events, scheduled + 1, displaced);
    lemma_state_step(start, events, displaced);
    lemma_stays_displaced(start, events, session, handle, displaced + 1, elapsed);
}

/// While nothing is scheduled for a session, the handle registered for it is
/// the one that was registered, or none.
proof fn lemma_stays_or_goes(
    start: SchedulerView,
    events: Seq<TimerEvent>,
    session: u64,
    handle: nat,
    from: int,
    to: int,
)
    requires
        0 <= from <= to <= events.len(),
        state_before(start, events, from).live.contains_key(session) ==> state_before(
            start,
            events,
            from,
        ).live[session] == handle,
        forall|k: int| from <= k < to ==> events[k] != (TimerEvent::Schedule { session }),
    ensures
        state_before(start, events, to).live.contains_key(session) ==> state_before(
            start,
            events,
            to,
        ).live[session] == handle,
    decreases to - from,
{
    if from < to {
        lemma_stays_or_goes(start, events, session, handle, from, to - 1);
        lemma_state_step(start, events, to - 1);
    }
}

/// Of the calls of `schedule` for a session, only the last one's action runs
/// once that call is made: an action that runs after it is the one that it
/// scheduled.
pub proof fn lemma_only_last_scheduled_runs(
    start: SchedulerView,
    events: Seq<TimerEvent>,
    session: u64,
    last: int,
    at: int,
)
    requires
        0 <= last < at < events.len(),
        events[last] == (TimerEvent::Schedule { session }),
        forall|k: int| last < k < at ==> events[k] != (TimerEvent::Schedule { session }),
        runs_at(start, events, at, session),
    ensures
        events[at] == (TimerEvent::Elapse {
            session,
            handle: state_before(start, events, last).next,
        }),
{
    let handle = state_before(start, events, last).next;
    lemma_state_step(start, events, last);
    lemma_stays_or_goes(start, events, session, handle, last + 1, at);
}

/// An action stays the registered one while nothing is scheduled or
/// cancelled for its session and its own grace period has not elapsed.
proof fn lemma_stays_current(
    start: SchedulerView,
    events: Seq<TimerEvent>,
    session: u64,
    handle: nat,
    from: int,
    to: int,
)
    requires
        0 <= from <= to <= events.len(),
        state_before(start, events, from).is_current(session, handle),
        forall|k: int|
            from <= k < to ==> !displaces(events, k, session) && events[k] != (TimerEvent::Elapse {
                session,
                handle,
            }),
    ensures
        state_before(start, events, to).is_current(session, handle),
    decreases to - from,
{
    if from < to {
        lemma_stays_current(start, events, session, handle, from, to - 1);
        lemma_state_step(start, events, to - 1);
    }
}

/// The action of the last `schedule` for a session runs when its grace period
/// elapses, if nothing was cancelled for the session meanwhile.
pub proof fn lemma_last_scheduled_runs(
    start: SchedulerView,
    events: Seq<TimerEvent>,
    session: u64,
    scheduled: int,
    elapsed: int,
)
    requires
        0 <= scheduled < elapsed < events.len(),
        events[scheduled] == (TimerEvent::Schedule { session }),
        events[elapsed] == (TimerEvent::Elapse {
            session,
            handle: state_before(start, events, scheduled).next,
        }),
        forall|k: int|
            scheduled < k < elapsed ==> !displaces(events, k, session) && events[k]
                != events[elapsed],
    ensures
        runs_at(start, events, elapsed, session),
{
    let handle = state_before(start, events, scheduled).next;
    lemma_state_step(start, events, scheduled);
    lemma_stays_current(start, events, session, handle, scheduled + 1, elapsed);
}

/// Cancelling does nothing where nothing is pending, a second cancel does
/// nothing after a first, and no action of the session runs after a cancel
/// until `schedule` is called for it again.
pub proof fn lemma_cancel_idempotent(state: SchedulerView, session: u64)
    ensures
        !state.live.contains_key(session) ==> state.cancel(session) == state,
        state.cancel(session).cancel(session) == state.cancel(session),
        forall|handle: nat| !state.cancel(session).is_current(session, handle),
{
    if !state.live.contains_key(session) {
        assert(state.cancel(session).live =~= state.live);
    }
    assert(state.cancel(session).cancel(session).live =~= state.cancel(session).live);
}

} // verus!
