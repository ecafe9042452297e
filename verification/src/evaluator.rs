//! The evaluation of one membership change, step by step.
//!
//! An `Evaluation` is the state of the decision for one event. Each step
//! takes the answer to the request that the step before gave out, and gives
//! out the next request. Where the automated participant is in a channel, it
//! leaves if nobody else is there. Where it is in none, a join is considered.

use crate::auto_join::{failure_text, join_failure_message, permits, policy_permits};
use crate::collaborators::{JoinReply, JoinReplyView, Reply, ReplyView, Request, RequestView};
use crate::snapshot::{alone, channel_in, seen, Membership, MembershipSnapshot};
use vstd::prelude::*;

verus! {

/// How far the evaluation of an event has come: what it is waiting for.
#[derive(Clone, Copy, Debug, PartialEq, Eq)]
pub enum Stage {
    /// The channel that the automated participant is in.
    OwnChannel,
    /// The membership, to see who else is in `channel`.
    Occupancy { channel: u64 },
    /// Whether the session's owner is entitled.
    Entitlement,
    /// The session's policy record.
    Policy,
    /// The membership, to find the channel of the triggering participant.
    Target { notify_target: u64 },
    /// The outcome of the join.
    Joining { channel: u64, notify_target: u64 },
    /// Nothing: the evaluation is over.
    Finished,
}

/// The evaluation of one event.
#[derive(Clone, Copy, Debug, PartialEq, Eq)]
pub struct Evaluation {
    /// The automated participant.
    pub own: u64,
    /// The session that the event belongs to.
    pub session: u64,
    /// The participant whose change of membership is the event.
    pub trigger: u64,
    pub stage: Stage,
}

/// What is to be done once it is known who is in the session, with the
/// automated participant in `channel`: it leaves if and only if the
/// membership could be had and nobody else is in that channel.
pub open spec fn occupancy_verdict(
    session: u64,
    channel: u64,
    own: u64,
    members: Option<Membership>,
) -> RequestView {
    match members {
        Some(present) => if alone(present, channel, own) {
            RequestView::Disconnect { session }
        } else {
            RequestView::Nothing
        },
        None => RequestView::Nothing,
    }
}

impl Evaluation {
    /// The same evaluation at another stage.
    pub open spec fn at(self, stage: Stage) -> Evaluation {
        Evaluation { own: self.own, session: self.session, trigger: self.trigger, stage }
    }

    /// One step: the evaluation after `reply`, and the request that it gives
    /// out. An answer that the stage does not wait for ends the evaluation.
    pub open spec fn step(self, reply: ReplyView) -> (Evaluation, RequestView) {
        let session = self.session;
        let over = (self.at(Stage::Finished), RequestView::Nothing);
        match (self.stage, reply) {
            (Stage::OwnChannel, ReplyView::OwnChannel(Some(channel))) => (
                self.at(Stage::Occupancy { channel }),
                RequestView::Membership { session },
            ),
            (Stage::OwnChannel, ReplyView::OwnChannel(None)) => (
                self.at(Stage::Entitlement),
                RequestView::Entitlement { session },
            ),
            (Stage::Occupancy { channel }, ReplyView::Membership(members)) => (
                self.at(Stage::Finished),
                occupancy_verdict(session, channel, self.own, members),
            ),
            (Stage::Entitlement, ReplyView::Entitlement(entitled)) => if entitled {
                (self.at(Stage::Policy), RequestView::Policy { session })
            } else {
                over
            },
            (Stage::Policy, ReplyView::Policy(policy)) => if policy_permits(policy) {
                (
                    self.at(Stage::Target { notify_target: policy->0.notify_target }),
                    RequestView::Membership { session },
                )
            } else {
                over
            },
            (Stage::Target { notify_target }, ReplyView::Membership(Some(present))) => match channel_in(
                present,
                self.trigger,
            ) {
                Some(channel) => (
                    self.at(Stage::Joining { channel, notify_target }),
                    RequestView::Join { session, channel, notify_target },
                ),
                None => over,
            },
            (
                Stage::Joining { channel, notify_target },
                ReplyView::Join(JoinReplyView::Failed(reason)),
            ) => (
                self.at(Stage::Finished),
                RequestView::Notify { target: notify_target, message: failure_text(reason) },
            ),
            _ => over,
        }
    }

    /// The same evaluation at another stage.
    fn proceed(self, stage: Stage) -> (next: Evaluation)
        ensures
            next == self.at(stage),
    {
        Evaluation { own: self.own, session: self.session, trigger: self.trigger, stage }
    }

    /// Takes the answer to the request that was given out last, and gives out
    /// the next request.
    pub fn advance(self, reply: Reply) -> (next: (Evaluation, Request))
        ensures
            (next.0, next.1@) == self.step(reply@),
    {
        let session = self.session;
        let over = self.proceed(Stage::Finished);
        match (self.stage, reply) {
            (Stage::OwnChannel, Reply::OwnChannel(Some(channel))) => (
                self.proceed(Stage::Occupancy { channel }),
                Request::Membership { session },
            ),
            (Stage::OwnChannel, Reply::OwnChannel(None)) => (
                self.proceed(Stage::Entitlement),
                Request::Entitlement { session },
            ),
            (Stage::Occupancy { channel }, Reply::Membership(snapshot)) => (
                over,
                evaluate_occupancy(session, channel, self.own, &snapshot),
            ),
            (Stage::Entitlement, Reply::Entitlement(true)) => (
                self.proceed(Stage::Policy),
                Request::Policy { session },
            ),
            (Stage::Policy, Reply::Policy(Some(record))) => {
                if permits(&Some(record)) {
                    (
                        self.proceed(Stage::Target { notify_target: record.notify_target }),
                        Request::Membership { session },
                    )
                } else {
                    (over, Request::Nothing)
                }
            },
            (Stage::Target { notify_target }, Reply::Membership(Some(snapshot))) => {
                match snapshot.channel_of(self.trigger) {
                    Some(channel) => (
                        self.proceed(Stage::Joining { channel, notify_target }),
                        Request::Join { session, channel, notify_target },
                    ),
                    None => (over, Request::Nothing),
                }
            },
            (Stage::Joining { channel, notify_target }, Reply::Join(JoinReply::Failed(reason))) => (
                over,
                Request::Notify {
                    target: notify_target,
                    message: join_failure_message(reason.as_str()),
                },
            ),
            _ => (over, Request::Nothing),
        }
    }
}

/// Decides, with the automated participant in `channel`, whether it leaves.
pub fn evaluate_occupancy(
    session: u64,
    channel: u64,
    own: u64,
    snapshot: &Option<MembershipSnapshot>,
) -> (request: Request)
    ensures
        request@ == occupancy_verdict(session, channel, own, seen(*snapshot)),
{
    match snapshot {
        Some(present) => {
            if present.is_alone(channel, own) {
                Request::Disconnect { session }
            } else {
                Request::Nothing
            }
        },
        None => Request::Nothing,
    }
}

} // verus!
