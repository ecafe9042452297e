//! When the automated participant joins a channel by itself.
//!
//! A join is attempted for a session only if its owner is entitled, its
//! policy record permits it, and the participant whose event is at hand is
//! in a channel: that channel is the one to join.

use crate::collaborators::Policy;
use crate::snapshot::{channel_in, seen, Membership, MembershipSnapshot};
use vstd::prelude::*;
use vstd::string::*;

verus! {

/// The policy record is there, and one of its two flags is set.
pub open spec fn policy_permits(policy: Option<Policy>) -> bool {
    policy matches Some(record) && (record.enabled || record.auto_join)
}

/// Whether the policy of a session permits joining by itself.
pub fn permits(policy: &Option<Policy>) -> (permitted: bool)
    ensures
        permitted == policy_permits(*policy),
{
    match policy {
        Some(record) => record.enabled || record.auto_join,
        None => false,
    }
}

/// The channel of `trigger` in the membership, where both can be had.
pub open spec fn target_of(members: Option<Membership>, trigger: u64) -> Option<u64> {
    match members {
        Some(present) => channel_in(present, trigger),
        None => None,
    }
}

/// What was found out for one event about joining: computed for that event
/// and not kept.
#[derive(Clone, Copy, Debug, PartialEq, Eq)]
pub struct JoinPolicyDecision {
    pub entitled: bool,
    pub policy_enabled: bool,
    pub target_channel: Option<u64>,
}

impl JoinPolicyDecision {
    /// The decision that the collaborators' answers give.
    pub open spec fn of(
        entitled: bool,
        policy: Option<Policy>,
        members: Option<Membership>,
        trigger: u64,
    ) -> JoinPolicyDecision {
        JoinPolicyDecision {
            entitled,
            policy_enabled: policy_permits(policy),
            target_channel: target_of(members, trigger),
        }
    }

    /// A join is attempted.
    pub open spec fn warrants_join(self) -> bool {
        self.entitled && self.policy_enabled && self.target_channel is Some
    }

    /// Derives the decision from the collaborators' answers.
    pub fn derive(
        entitled: bool,
        policy: &Option<Policy>,
        snapshot: &Option<MembershipSnapshot>,
        trigger: u64,
    ) -> (decision: JoinPolicyDecision)
        ensures
            decision == Self::of(entitled, *policy, seen(*snapshot), trigger),
    {
        let target_channel = match snapshot {
            Some(present) => present.channel_of(trigger),
            None => None,
        };
        JoinPolicyDecision { entitled, policy_enabled: permits(policy), target_channel }
    }

    /// Whether a join is attempted.
    pub fn attempts_join(&self) -> (attempted: bool)
        ensures
            attempted == self.warrants_join(),
    {
        self.entitled && self.policy_enabled && self.target_channel.is_some()
    }
}

/// The text that reports a failed join: the reason between two fixed parts.
pub open spec fn failure_text(reason: Seq<char>) -> Seq<char> {
    "Failed to join voice channel due to auto-join error: "@ + reason
        + "\nYou may want to report this in our support server."@
}

/// The message sent to the notification target when a join has failed.
pub fn join_failure_message(reason: &str) -> (message: String)
    ensures
        message@ == failure_text(reason@),
{
    let head = String::from_str("Failed to join voice channel due to auto-join error: ");
    head.concat(reason).concat("\nYou may want to report this in our support server.")
}

} // verus!
