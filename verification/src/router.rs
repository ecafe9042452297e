//! The entry point: a membership change comes in, and its evaluation starts.
//!
//! `voice_state_update` begins the evaluation of one event. The caller then
//! alternates: it performs the request, and hands the answer to
//! `Evaluation::advance`, until the request is one that needs no answer.
//! `handling` is the whole exchange for given answers of the collaborators;
//! the proofs below say what it holds.

use crate::auto_join::{failure_text, JoinPolicyDecision};
use crate::collaborators::{JoinReplyView, Policy, ReplyView, Request, RequestView};
use crate::evaluator::{Evaluation, Stage};
use crate::snapshot::{lemma_alone_iff_no_others, others, Membership};
use vstd::prelude::*;

verus! {

/// Where the evaluation of an event starts. An event without a session is
/// not evaluated.
pub open spec fn route(own: u64, session: Option<u64>, trigger: u64) -> Option<
    (Evaluation, RequestView),
> {
    match session {
        Some(session) => Some(
            (
                Evaluation { own, session, trigger, stage: Stage::OwnChannel },
                RequestView::OwnChannel { session },
            ),
        ),
        None => None,
    }
}

/// Starts the evaluation of a membership change of `trigger` in `session`,
/// with `own` the automated participant, and gives out its first request.
pub fn voice_state_update(own: u64, session: Option<u64>, trigger: u64) -> (first: Option<
    (Evaluation, Request),
>)
    ensures
        match first {
            Some(begun) => route(own, session, trigger) == Some((begun.0, begun.1@)),
            None => route(own, session, trigger) is None,
        },
{
    match session {
        Some(session) => Some(
            (
                Evaluation { own, session, trigger, stage: Stage::OwnChannel },
                Request::OwnChannel { session },
            ),
        ),
        None => None,
    }
}

/// What the collaborators answer while one event is evaluated.
pub struct Answers {
    /// The channel that the automated participant is in.
    pub own_channel: Option<u64>,
    /// The membership of the session, where it can be had.
    pub members: Option<Membership>,
    pub entitled: bool,
    pub policy: Option<Policy>,
    /// How a join goes.
    pub join: JoinReplyView,
}

/// The answer to `request`, for a request that gets one.
pub open spec fn answer_to(request: RequestView, answers: Answers) -> Option<ReplyView> {
    match request {
        RequestView::OwnChannel { .. } => Some(ReplyView::OwnChannel(answers.own_channel)),
        RequestView::Membership { .. } => Some(ReplyView::Membership(answers.members)),
        RequestView::Entitlement { .. } => Some(ReplyView::Entitlement(answers.entitled)),
        RequestView::Policy { .. } => Some(ReplyView::Policy(answers.policy)),
        RequestView::Join { .. } => Some(ReplyView::Join(answers.join)),
        RequestView::Disconnect { .. } => None,
        RequestView::Notify { .. } => None,
        RequestView::Nothing => None,
    }
}

/// The number of steps that an evaluation at `stage` can still take.
pub open spec fn steps_left(stage: Stage) -> nat {
    match stage {
        Stage::OwnChannel => 5,
        Stage::Entitlement => 4,
        Stage::Policy => 3,
        Stage::Target { .. } => 2,
        Stage::Joining { .. } => 1,
        Stage::Occupancy { .. } => 1,
        Stage::Finished => 0,
    }
}

/// The requests given out from `request` on, in their order, when the
/// collaborators answer as `answers` says.
pub open spec fn conduct(evaluation: Evaluation, request: RequestView, answers: Answers) -> Seq<
    RequestView,
>
    decreases steps_left(evaluation.stage),
{
    match answer_to(request, answers) {
        Some(reply) => {
            let next = evaluation.step(reply);
            if steps_left(next.0.stage) < steps_left(evaluation.stage) {
                seq![request] + conduct(next.0, next.1, answers)
            } else {
                seq![request]
            }
        },
        None => seq![request],
    }
}

/// All the requests given out for one event.
pub open spec fn handling(own: u64, session: Option<u64>, trigger: u64, answers: Answers) -> Seq<
    RequestView,
> {
    match route(own, session, trigger) {
        Some(begun) => conduct(begun.0, begun.1, answers),
        None => Seq::empty(),
    }
}

/// Every step takes an evaluation that is not over nearer to its end, and an
/// evaluation is over exactly when the request given out waits for no
/// answer: so `conduct` leaves out no request, and every evaluation ends
/// after five answers at most.
pub proof fn lemma_every_step_advances(evaluation: Evaluation, reply: ReplyView, answers: Answers)
    ensures
        ({
            let next = evaluation.step(reply);
            &&& steps_left(evaluation.stage) <= 5
            &&& !(evaluation.stage is Finished) ==> steps_left(next.0.stage) < steps_left(
                evaluation.stage,
            )
            &&& evaluation.stage is Finished ==> next == (evaluation, RequestView::Nothing)
            &&& next.0.stage is Finished <==> answer_to(next.1, answers) is None
            &&& next.0.own == evaluation.own && next.0.session == evaluation.session
                && next.0.trigger == evaluation.trigger
        }),
{
}

/// With the automated participant in `channel` together with `n` other
/// participants, the disconnect is requested if and only if `n` is zero; and
/// neither a join nor a notification is.
pub proof fn lemma_occupancy_decision(
    own: u64,
    session: u64,
    trigger: u64,
    channel: u64,
    present: Membership,
    answers: Answers,
)
    requires
        present.dom().finite(),
        answers.own_channel == Some(channel),
        answers.members == Some(present),
    ensures
        handling(own, Some(session), trigger, answers).contains(RequestView::Disconnect { session })
            <==> others(present, channel, own).len() == 0,
        forall|i: int|
            0 <= i < handling(own, Some(session), trigger, answers).len() ==> {
                let request = #[trigger] handling(own, Some(session), trigger, answers)[i];
                request.is_question() || request is Nothing || request
                    == (RequestView::Disconnect { session })
            },
{
    reveal_with_fuel(conduct, 3);
    lemma_alone_iff_no_others(present, channel, own);
    let requests = handling(own, Some(session), trigger, answers);
    let asked = seq![RequestView::OwnChannel { session }, RequestView::Membership { session }];
    if others(present, channel, own).len() == 0 {
        assert(requests =~= asked.push(RequestView::Disconnect { session }));
        assert(requests[2] == (RequestView::Disconnect { session }));
    } else {
        assert(requests =~= asked.push(RequestView::Nothing));
    }
}

/// With the automated participant in no channel, a join is requested if and
/// only if the owner is entitled, the policy record is there with one of its
/// flags set, and the triggering participant is in a channel. The join then
/// is for that channel, with the notification target of the policy record.
pub proof fn lemma_auto_join_gating(own: u64, session: u64, trigger: u64, answers: Answers)
    requires
        answers.own_channel is None,
    ensures
        ({
            let decision = JoinPolicyDecision::of(
                answers.entitled,
                answers.policy,
                answers.members,
                trigger,
            );
            let requests = handling(own, Some(session), trigger, answers);
            &&& decision.warrants_join() <==> {
                &&& answers.entitled
                &&& answers.policy matches Some(record) && (record.enabled || record.auto_join)
                &&& answers.members matches Some(present) && present.contains_key(trigger)
                    && present[trigger] is Some
            }
            &&& decision.warrants_join() <==> exists|i: int|
                0 <= i < requests.len() && #[trigger] requests[i] is Join
            &&& forall|i: int|
                0 <= i < requests.len() && #[trigger] requests[i] is Join ==> requests[i] == (
                RequestView::Join {
                    session,
                    channel: decision.target_channel->0,
                    notify_target: answers.policy->0.notify_target,
                })
            &&& forall|i: int|
                0 <= i < requests.len() ==> !(#[trigger] requests[i] is Disconnect)
        }),
{
    reveal_with_fuel(conduct, 6);
    let decision = JoinPolicyDecision::of(answers.entitled, answers.policy, answers.members, trigger);
    let requests = handling(own, Some(session), trigger, answers);
    let first = seq![RequestView::OwnChannel { session }, RequestView::Entitlement { session }];
    if !answers.entitled {
        assert(requests =~= first.push(RequestView::Nothing));
    } else if !decision.policy_enabled {
        assert(requests =~= first.push(RequestView::Policy { session }).push(RequestView::Nothing));
    } else {
        let asked = first.push(RequestView::Policy { session }).push(
            RequestView::Membership { session },
        );
        if decision.target_channel is None {
            assert(requests =~= asked.push(RequestView::Nothing));
        } else {
            let join = RequestView::Join {
                session,
                channel: decision.target_channel->0,
                notify_target: answers.policy->0.notify_target,
            };
            match answers.join {
                JoinReplyView::Joined => {
                    assert(requests =~= asked.push(join).push(RequestView::Nothing));
                },
                JoinReplyView::Failed(reason) => {
                    assert(requests =~= asked.push(join).push(
                        RequestView::Notify {
                            target: answers.policy->0.notify_target,
                            message: failure_text(reason),
                        },
                    ));
                },
            }
            assert(requests[4] is Join);
        }
    }
}

/// Where no join is warranted, nothing is done but asking: no join, no
/// disconnect, no notification.
pub proof fn lemma_abort_is_silent(own: u64, session: u64, trigger: u64, answers: Answers)
    requires
        answers.own_channel is None,
        !JoinPolicyDecision::of(
            answers.entitled,
            answers.policy,
            answers.members,
            trigger,
        ).warrants_join(),
    ensures
        forall|i: int|
            0 <= i < handling(own, Some(session), trigger, answers).len() ==> {
                let request = #[trigger] handling(own, Some(session), trigger, answers)[i];
                request.is_question() || request is Nothing
            },
{
    reveal_with_fuel(conduct, 6);
    let decision = JoinPolicyDecision::of(answers.entitled, answers.policy, answers.members, trigger);
    let requests = handling(own, Some(session), trigger, answers);
    let first = seq![RequestView::OwnChannel { session }, RequestView::Entitlement { session }];
    if !answers.entitled {
        assert(requests =~= first.push(RequestView::Nothing));
    } else if !decision.policy_enabled {
        assert(requests =~= first.push(RequestView::Policy { session }).push(RequestView::Nothing));
    } else {
        assert(requests =~= first.push(RequestView::Policy { session }).push(
            RequestView::Membership { session },
        ).push(RequestView::Nothing));
    }
}

/// A join that fails is reported to the notification target of the policy
/// record, once, and not tried again; a join that succeeds is followed by
/// nothing.
pub proof fn lemma_join_outcome(own: u64, session: u64, trigger: u64, answers: Answers)
    requires
        answers.own_channel is None,
        JoinPolicyDecision::of(
            answers.entitled,
            answers.policy,
            answers.members,
            trigger,
        ).warrants_join(),
    ensures
        ({
            let requests = handling(own, Some(session), trigger, answers);
            &&& requests.len() == 6
            &&& requests[4] is Join
            &&& requests[5] == match answers.join {
                JoinReplyView::Joined => RequestView::Nothing,
                JoinReplyView::Failed(reason) => RequestView::Notify {
                    target: answers.policy->0.notify_target,
                    message: failure_text(reason),
                },
            }
            &&& forall|i: int| 0 <= i < 4 ==> (#[trigger] requests[i]).is_question()
        }),
{
    reveal_with_fuel(conduct, 6);
    lemma_auto_join_gating(own, session, trigger, answers);
    let decision = JoinPolicyDecision::of(answers.entitled, answers.policy, answers.members, trigger);
    let requests = handling(own, Some(session), trigger, answers);
    let asked = seq![
        RequestView::OwnChannel { session },
        RequestView::Entitlement { session },
        RequestView::Policy { session },
        RequestView::Membership { session },
    ];
    let join = RequestView::Join {
        session,
        channel: decision.target_channel->0,
        notify_target: answers.policy->0.notify_target,
    };
    match answers.join {
        JoinReplyView::Joined => {
            assert(requests =~= asked.push(join).push(RequestView::Nothing));
        },
        JoinReplyView::Failed(reason) => {
            assert(requests =~= asked.push(join).push(
                RequestView::Notify {
                    target: answers.policy->0.notify_target,
                    message: failure_text(reason),
                },
            ));
        },
    }
}

} // verus!
