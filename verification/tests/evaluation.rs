use voice_presence::collaborators::{JoinReply, LeaveReply, Policy, Reply, Request};
use voice_presence::disconnect::{disconnect_from_vc, DisconnectOutcome};
use voice_presence::evaluator::{evaluate_occupancy, Evaluation, Stage};
use voice_presence::router::voice_state_update;
use voice_presence::scheduler::DelayedActionScheduler;
use voice_presence::snapshot::MembershipSnapshot;

const OWN: u64 = 1;
const SESSION: u64 = 500;
const CHANNEL: u64 = 10;

fn members(entries: &[(u64, Option<u64>)]) -> MembershipSnapshot {
    let mut snapshot = MembershipSnapshot::new();
    for (user, channel) in entries {
        snapshot.record(*user, *channel);
    }
    snapshot
}

/// What the collaborators answer in one test.
struct World {
    own_channel: Option<u64>,
    members: Option<Vec<(u64, Option<u64>)>>,
    entitled: bool,
    policy: Option<Policy>,
    join_failure: Option<&'static str>,
}

/// Runs the evaluation of one event to its end and lists the requests.
fn run(world: &World, session: Option<u64>, trigger: u64) -> Vec<Request> {
    let mut requests = Vec::new();
    let Some((mut evaluation, mut request)) = voice_state_update(OWN, session, trigger) else {
        return requests;
    };
    loop {
        let reply = match &request {
            Request::OwnChannel { .. } => Reply::OwnChannel(world.own_channel),
            Request::Membership { .. } => {
                Reply::Membership(world.members.as_ref().map(|entries| members(entries)))
            }
            Request::Entitlement { .. } => Reply::Entitlement(world.entitled),
            Request::Policy { .. } => Reply::Policy(world.policy),
            Request::Join { .. } => Reply::Join(match world.join_failure {
                Some(reason) => JoinReply::Failed(reason.to_string()),
                None => JoinReply::Joined,
            }),
            Request::Disconnect { .. } | Request::Notify { .. } | Request::Nothing => {
                requests.push(request);
                return requests;
            }
        };
        requests.push(request);
        let next = evaluation.advance(reply);
        evaluation = next.0;
        request = next.1;
    }
}

#[test]
fn an_event_without_a_session_is_not_evaluated() {
    assert!(voice_state_update(OWN, None, 2).is_none());
}

#[test]
fn the_evaluation_starts_by_asking_for_the_own_channel() {
    let (evaluation, request) = voice_state_update(OWN, Some(SESSION), 2).expect("a session");
    assert_eq!(evaluation, Evaluation { own: OWN, session: SESSION, trigger: 2, stage: Stage::OwnChannel });
    assert_eq!(request, Request::OwnChannel { session: SESSION });
}

#[test]
fn last_other_user_leaves() {
    let world = World {
        own_channel: Some(CHANNEL),
        members: Some(vec![(OWN, Some(CHANNEL)), (2, None)]),
        entitled: true,
        policy: None,
        join_failure: None,
    };
    let requests = run(&world, Some(SESSION), 2);
    assert_eq!(
        requests,
        vec![
            Request::OwnChannel { session: SESSION },
            Request::Membership { session: SESSION },
            Request::Disconnect { session: SESSION },
        ]
    );
    let mut scheduler = DelayedActionScheduler::new();
    let done = disconnect_from_vc(&mut scheduler, SESSION, LeaveReply::Left);
    assert_eq!(done.outcome, Ok(DisconnectOutcome::Left));
}

#[test]
fn last_other_user_gone_from_the_snapshot() {
    let world = World {
        own_channel: Some(CHANNEL),
        members: Some(vec![(OWN, Some(CHANNEL))]),
        entitled: false,
        policy: None,
        join_failure: None,
    };
    let requests = run(&world, Some(SESSION), 2);
    assert_eq!(requests.last(), Some(&Request::Disconnect { session: SESSION }));
}

#[test]
fn one_of_two_users_leaves() {
    let world = World {
        own_channel: Some(CHANNEL),
        members: Some(vec![(OWN, Some(CHANNEL)), (2, None), (3, Some(CHANNEL))]),
        entitled: true,
        policy: None,
        join_failure: None,
    };
    let requests = run(&world, Some(SESSION), 2);
    assert_eq!(
        requests,
        vec![
            Request::OwnChannel { session: SESSION },
            Request::Membership { session: SESSION },
            Request::Nothing,
        ]
    );
}

#[test]
fn users_in_other_channels_do_not_keep_the_participant() {
    let world = World {
        own_channel: Some(CHANNEL),
        members: Some(vec![(OWN, Some(CHANNEL)), (2, Some(11)), (3, Some(12))]),
        entitled: true,
        policy: None,
        join_failure: None,
    };
    let requests = run(&world, Some(SESSION), 2);
    assert_eq!(requests.last(), Some(&Request::Disconnect { session: SESSION }));
}

#[test]
fn connected_but_session_state_not_cached() {
    let world = World {
        own_channel: Some(CHANNEL),
        members: None,
        entitled: true,
        policy: Some(Policy { enabled: true, auto_join: true, notify_target: 9 }),
        join_failure: None,
    };
    let requests = run(&world, Some(SESSION), 2);
    assert_eq!(
        requests,
        vec![
            Request::OwnChannel { session: SESSION },
            Request::Membership { session: SESSION },
            Request::Nothing,
        ]
    );
}

#[test]
fn policy_flags_both_off() {
    let world = World {
        own_channel: None,
        members: Some(vec![(2, Some(77))]),
        entitled: true,
        policy: Some(Policy { enabled: false, auto_join: false, notify_target: 9 }),
        join_failure: None,
    };
    let requests = run(&world, Some(SESSION), 2);
    assert_eq!(
        requests,
        vec![
            Request::OwnChannel { session: SESSION },
            Request::Entitlement { session: SESSION },
            Request::Policy { session: SESSION },
            Request::Nothing,
        ]
    );
}

#[test]
fn join_is_attempted() {
    let world = World {
        own_channel: None,
        members: Some(vec![(2, Some(77)), (3, Some(78))]),
        entitled: true,
        policy: Some(Policy { enabled: true, auto_join: true, notify_target: 9 }),
        join_failure: None,
    };
    let requests = run(&world, Some(SESSION), 2);
    assert_eq!(
        requests,
        vec![
            Request::OwnChannel { session: SESSION },
            Request::Entitlement { session: SESSION },
            Request::Policy { session: SESSION },
            Request::Membership { session: SESSION },
            Request::Join { session: SESSION, channel: 77, notify_target: 9 },
            Request::Nothing,
        ]
    );
}

#[test]
fn one_policy_flag_is_enough() {
    for (enabled, auto_join) in [(true, false), (false, true)] {
        let world = World {
            own_channel: None,
            members: Some(vec![(2, Some(77))]),
            entitled: true,
            policy: Some(Policy { enabled, auto_join, notify_target: 9 }),
            join_failure: None,
        };
        let requests = run(&world, Some(SESSION), 2);
        assert!(requests.contains(&Request::Join { session: SESSION, channel: 77, notify_target: 9 }));
    }
}

#[test]
fn not_entitled_stops_before_the_policy_is_asked_for() {
    let world = World {
        own_channel: None,
        members: Some(vec![(2, Some(77))]),
        entitled: false,
        policy: Some(Policy { enabled: true, auto_join: true, notify_target: 9 }),
        join_failure: None,
    };
    let requests = run(&world, Some(SESSION), 2);
    assert_eq!(
        requests,
        vec![
            Request::OwnChannel { session: SESSION },
            Request::Entitlement { session: SESSION },
            Request::Nothing,
        ]
    );
}

#[test]
fn no_policy_record_no_join() {
    let world = World {
        own_channel: None,
        members: Some(vec![(2, Some(77))]),
        entitled: true,
        policy: None,
        join_failure: None,
    };
    let requests = run(&world, Some(SESSION), 2);
    assert_eq!(requests.len(), 4);
    assert_eq!(requests.last(), Some(&Request::Nothing));
}

#[test]
fn triggering_participant_without_a_channel_no_join() {
    for entries in [vec![(2, None)], vec![(3, Some(77))], vec![]] {
        let world = World {
            own_channel: None,
            members: Some(entries),
            entitled: true,
            policy: Some(Policy { enabled: true, auto_join: true, notify_target: 9 }),
            join_failure: None,
        };
        let requests = run(&world, Some(SESSION), 2);
        assert_eq!(
            requests,
            vec![
                Request::OwnChannel { session: SESSION },
                Request::Entitlement { session: SESSION },
                Request::Policy { session: SESSION },
                Request::Membership { session: SESSION },
                Request::Nothing,
            ]
        );
    }
}

#[test]
fn not_connected_and_session_state_not_cached_no_join() {
    let world = World {
        own_channel: None,
        members: None,
        entitled: true,
        policy: Some(Policy { enabled: true, auto_join: true, notify_target: 9 }),
        join_failure: None,
    };
    let requests = run(&world, Some(SESSION), 2);
    assert_eq!(requests.len(), 5);
    assert_eq!(requests.last(), Some(&Request::Nothing));
}

#[test]
fn a_failed_join_is_reported_once() {
    let world = World {
        own_channel: None,
        members: Some(vec![(2, Some(77))]),
        entitled: true,
        policy: Some(Policy { enabled: false, auto_join: true, notify_target: 9 }),
        join_failure: Some("no permission"),
    };
    let requests = run(&world, Some(SESSION), 2);
    assert_eq!(requests.len(), 6);
    assert_eq!(requests[4], Request::Join { session: SESSION, channel: 77, notify_target: 9 });
    assert_eq!(
        requests[5],
        Request::Notify {
            target: 9,
            message: "Failed to join voice channel due to auto-join error: no permission\n\
                      You may want to report this in our support server."
                .to_string(),
        }
    );
}

#[test]
fn an_answer_that_was_not_asked_for_ends_the_evaluation() {
    let (evaluation, _) = voice_state_update(OWN, Some(SESSION), 2).expect("a session");
    let (after, request) = evaluation.advance(Reply::Entitlement(true));
    assert_eq!(after.stage, Stage::Finished);
    assert_eq!(request, Request::Nothing);
    let (still, request) = after.advance(Reply::OwnChannel(Some(CHANNEL)));
    assert_eq!(still.stage, Stage::Finished);
    assert_eq!(request, Request::Nothing);
}

#[test]
fn advance_keeps_who_and_where() {
    let (evaluation, _) = voice_state_update(OWN, Some(SESSION), 2).expect("a session");
    let (after, request) = evaluation.advance(Reply::OwnChannel(Some(CHANNEL)));
    assert_eq!(
        after,
        Evaluation { own: OWN, session: SESSION, trigger: 2, stage: Stage::Occupancy { channel: CHANNEL } }
    );
    assert_eq!(request, Request::Membership { session: SESSION });
}

#[test]
fn evaluate_occupancy_by_itself() {
    let alone = Some(members(&[(OWN, Some(CHANNEL))]));
    let crowded = Some(members(&[(OWN, Some(CHANNEL)), (2, Some(CHANNEL))]));
    assert_eq!(evaluate_occupancy(SESSION, CHANNEL, OWN, &alone), Request::Disconnect { session: SESSION });
    assert_eq!(evaluate_occupancy(SESSION, CHANNEL, OWN, &crowded), Request::Nothing);
    assert_eq!(evaluate_occupancy(SESSION, CHANNEL, OWN, &None), Request::Nothing);
}

#[test]
fn disconnect_if_and_only_if_nobody_else_is_there() {
    for others in 0..5u64 {
        let mut entries = vec![(OWN, Some(CHANNEL))];
        for other in 0..others {
            entries.push((100 + other, Some(CHANNEL)));
        }
        let world = World {
            own_channel: Some(CHANNEL),
            members: Some(entries),
            entitled: true,
            policy: None,
            join_failure: None,
        };
        let requests = run(&world, Some(SESSION), 100);
        let disconnects = requests.contains(&Request::Disconnect { session: SESSION });
        assert_eq!(disconnects, others == 0);
    }
}

#[test]
fn join_if_and_only_if_all_three_conditions_hold() {
    for entitled in [false, true] {
        for enabled in [false, true] {
            for auto_join in [false, true] {
                for target in [None, Some(77)] {
                    let world = World {
                        own_channel: None,
                        members: Some(vec![(2, target)]),
                        entitled,
                        policy: Some(Policy { enabled, auto_join, notify_target: 9 }),
                        join_failure: None,
                    };
                    let requests = run(&world, Some(SESSION), 2);
                    let joins = requests.iter().any(|request| matches!(request, Request::Join { .. }));
                    assert_eq!(joins, entitled && (enabled || auto_join) && target.is_some());
                }
            }
        }
    }
}
