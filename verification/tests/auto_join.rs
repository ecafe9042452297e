use voice_presence::auto_join::{join_failure_message, permits, JoinPolicyDecision};
use voice_presence::collaborators::Policy;
use voice_presence::snapshot::MembershipSnapshot;

fn one_member(user: u64, channel: Option<u64>) -> Option<MembershipSnapshot> {
    let mut snapshot = MembershipSnapshot::new();
    snapshot.record(user, channel);
    Some(snapshot)
}

#[test]
fn policy_permits_with_either_flag() {
    assert!(permits(&Some(Policy { enabled: true, auto_join: false, notify_target: 1 })));
    assert!(permits(&Some(Policy { enabled: false, auto_join: true, notify_target: 1 })));
    assert!(permits(&Some(Policy { enabled: true, auto_join: true, notify_target: 1 })));
}

#[test]
fn policy_does_not_permit_without_flags_or_record() {
    assert!(!permits(&Some(Policy { enabled: false, auto_join: false, notify_target: 1 })));
    assert!(!permits(&None));
}

#[test]
fn decision_holds_what_was_found() {
    let policy = Some(Policy { enabled: true, auto_join: false, notify_target: 1 });
    let decision = JoinPolicyDecision::derive(true, &policy, &one_member(2, Some(30)), 2);
    assert_eq!(
        decision,
        JoinPolicyDecision { entitled: true, policy_enabled: true, target_channel: Some(30) }
    );
    assert!(decision.attempts_join());
}

#[test]
fn decision_without_entitlement() {
    let policy = Some(Policy { enabled: true, auto_join: true, notify_target: 1 });
    let decision = JoinPolicyDecision::derive(false, &policy, &one_member(2, Some(30)), 2);
    assert!(!decision.entitled);
    assert!(!decision.attempts_join());
}

#[test]
fn decision_without_policy() {
    let decision = JoinPolicyDecision::derive(true, &None, &one_member(2, Some(30)), 2);
    assert!(!decision.policy_enabled);
    assert!(!decision.attempts_join());
}

#[test]
fn decision_without_target_channel() {
    let policy = Some(Policy { enabled: true, auto_join: true, notify_target: 1 });
    for snapshot in [one_member(2, None), one_member(3, Some(30)), None] {
        let decision = JoinPolicyDecision::derive(true, &policy, &snapshot, 2);
        assert_eq!(decision.target_channel, None);
        assert!(!decision.attempts_join());
    }
}

#[test]
fn failure_message_holds_the_reason() {
    assert_eq!(
        join_failure_message("timed out"),
        "Failed to join voice channel due to auto-join error: timed out\nYou may want to report this in our support server."
    );
}

#[test]
fn failure_message_with_empty_reason() {
    assert_eq!(
        join_failure_message(""),
        "Failed to join voice channel due to auto-join error: \nYou may want to report this in our support server."
    );
}
