//! Leaving a session: what the transport's answer means, and what follows.

use crate::collaborators::LeaveReply;
use crate::scheduler::{DelayedActionScheduler, SchedulerView};
use crate::timeline::lemma_cancel_idempotent;
use vstd::prelude::*;

verus! {

/// How long after a disconnect the cached connection state is
/// resynchronised, in milliseconds.
pub const RESYNC_DELAY_MILLIS: u64 = 5000;

/// How a disconnect ended, where it did not fail.
#[derive(Clone, Copy, Debug, PartialEq, Eq)]
pub enum DisconnectOutcome {
    /// The automated participant has left its channel.
    Left,
    /// It was in no channel: nothing was to be done.
    AlreadyAbsent,
}

/// The transport could not carry out the leave.
#[derive(Debug, PartialEq, Eq)]
pub struct TransportFailure {
    pub reason: String,
}

/// The follow-up of a disconnect: after `delay_millis`, have the cached
/// connection state of `session` resynchronised with the transport.
#[derive(Clone, Copy, Debug, PartialEq, Eq)]
pub struct Resync {
    pub session: u64,
    pub delay_millis: u64,
}

/// What a disconnect comes to.
#[derive(Debug, PartialEq, Eq)]
pub struct Disconnection {
    pub outcome: Result<DisconnectOutcome, TransportFailure>,
    /// Owed after every disconnect, however it ended.
    pub follow_up: Resync,
}

/// What the transport's answer means: not being connected is no error, any
/// other failure is handed on as it came.
pub open spec fn outcome_of(reply: LeaveReply) -> Result<DisconnectOutcome, TransportFailure> {
    match reply {
        LeaveReply::Left => Ok(DisconnectOutcome::Left),
        LeaveReply::NotConnected => Ok(DisconnectOutcome::AlreadyAbsent),
        LeaveReply::Failed(reason) => Err(TransportFailure { reason }),
    }
}

/// The scheduler after a disconnect: what was pending for the session is
/// cancelled, unless the leave failed.
pub open spec fn after_disconnect(state: SchedulerView, session: u64, reply: LeaveReply) -> SchedulerView {
    match reply {
        LeaveReply::Failed(_) => state,
        _ => state.cancel(session),
    }
}

/// Completes the disconnect of `session`, given the transport's answer to
/// the request to leave.
///
/// A disconnect supersedes the delayed action pending for the session, so
/// that one is cancelled; where the leave failed, the failure is handed on
/// and nothing is cancelled. The follow-up is owed in every case.
pub fn disconnect_from_vc(scheduler: &mut DelayedActionScheduler, session: u64, reply: LeaveReply) -> (done:
    Disconnection)
    requires
        old(scheduler).wf(),
    ensures
        final(scheduler).wf(),
        final(scheduler)@ == after_disconnect(old(scheduler)@, session, reply),
        done.outcome == outcome_of(reply),
        done.follow_up == (Resync { session, delay_millis: RESYNC_DELAY_MILLIS }),
{
    let follow_up = Resync { session, delay_millis: RESYNC_DELAY_MILLIS };
    match reply {
        LeaveReply::Left => {
            scheduler.cancel(session);
            Disconnection { outcome: Ok(DisconnectOutcome::Left), follow_up }
        },
        LeaveReply::NotConnected => {
            scheduler.cancel(session);
            Disconnection { outcome: Ok(DisconnectOutcome::AlreadyAbsent), follow_up }
        },
        LeaveReply::Failed(reason) => Disconnection {
            outcome: Err(TransportFailure { reason }),
            follow_up,
        },
    }
}

/// Disconnecting a session that is not connected is no error, and a second
/// such disconnect ends as the first and leaves the scheduler as the first
/// left it.
pub proof fn lemma_disconnect_idempotent(state: SchedulerView, session: u64)
    ensures
        outcome_of(LeaveReply::NotConnected) == Ok::<DisconnectOutcome, TransportFailure>(
            DisconnectOutcome::AlreadyAbsent,
        ),
        after_disconnect(
            after_disconnect(state, session, LeaveReply::NotConnected),
            session,
            LeaveReply::NotConnected,
        ) == after_disconnect(state, session, LeaveReply::NotConnected),
        forall|handle: nat|
            !after_disconnect(state, session, LeaveReply::NotConnected).is_current(session, handle),
{
    lemma_cancel_idempotent(state, session);
}

} // verus!
