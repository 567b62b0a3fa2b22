use rouxinold_autohalt::backend::{ShutdownError, ShutdownTarget};
use rouxinold_autohalt::config::IdleConfig;
use rouxinold_autohalt::oci::stop_instance_command;
use rouxinold_autohalt::poller::{Action, Event, OutOfTurn, Phase, Poller, QueryOutcome};

const SEC: u128 = 1_000_000_000;

fn cloud() -> ShutdownTarget {
    ShutdownTarget::CloudInstance {
        provider_cli_path: String::from("oci"),
        config_file_path: String::from("/etc/oci/config"),
        instance_id: String::from("ocid1.instance"),
    }
}

fn poller(poll_secs: u64, timeout_secs: u64, target: ShutdownTarget) -> Poller {
    let config = IdleConfig::new(poll_secs, timeout_secs, String::from("mc.example.org"), 25565).unwrap();
    Poller::new(config, target, 0)
}

fn query() -> Action {
    Action::Query { host: String::from("mc.example.org"), port: 25565 }
}

fn players(online: u32) -> QueryOutcome {
    QueryOutcome::Players { online }
}

fn ok(online: u32) -> Option<u32> {
    Some(online)
}

/// Runs one tick at `now` with a query that ends at once; `None` is a failed
/// query. Returns the answer to the tick.
fn tick(poller: &mut Poller, now: u128, seen: Option<u32>) -> Action {
    let at_tick = poller.step(Event::Tick { now }).unwrap();
    if at_tick == query() {
        let outcome = match seen {
            Some(online) => players(online),
            None => QueryOutcome::Failed,
        };
        assert_eq!(poller.step(Event::QueryFinished { now, outcome }), Ok(Action::AwaitTick));
    }
    at_tick
}

#[test]
fn new_poller_waits_for_its_first_tick() {
    let poller = poller(1, 5, cloud());
    assert_eq!(poller.phase(), Phase::AwaitingTick);
    assert_eq!(poller.last_active_at(), 0);
    assert_eq!(poller.idle_duration(3 * SEC), 3 * SEC);
    assert_eq!(poller.config().idle_timeout_secs(), 5);
    assert_eq!(poller.target(), &cloud());
}

#[test]
fn start_grants_a_full_timeout() {
    let config = IdleConfig::new(1, 5, String::from("h"), 1).unwrap();
    let mut poller = Poller::new(config, cloud(), 100 * SEC);
    assert_eq!(poller.last_active_at(), 100 * SEC);
    let answer = poller.step(Event::Tick { now: 105 * SEC }).unwrap();
    assert_eq!(answer, Action::Query { host: String::from("h"), port: 1 });
}

#[test]
fn tick_on_an_active_server_asks_for_the_query() {
    let mut poller = poller(1, 5, cloud());
    assert_eq!(poller.step(Event::Tick { now: SEC }), Ok(query()));
    assert_eq!(poller.phase(), Phase::AwaitingQuery);
}

#[test]
fn players_seen_restart_the_idle_clock() {
    let mut poller = poller(1, 5, cloud());
    poller.step(Event::Tick { now: 4 * SEC }).unwrap();
    let answer = poller.step(Event::QueryFinished { now: 4 * SEC + 250, outcome: players(3) });
    assert_eq!(answer, Ok(Action::AwaitTick));
    assert_eq!(poller.last_active_at(), 4 * SEC + 250);
    assert_eq!(poller.idle_duration(4 * SEC + 250), 0);
    assert_eq!(poller.phase(), Phase::AwaitingTick);
}

#[test]
fn empty_server_leaves_the_idle_clock_running() {
    let mut poller = poller(1, 5, cloud());
    poller.step(Event::Tick { now: 4 * SEC }).unwrap();
    let answer = poller.step(Event::QueryFinished { now: 4 * SEC + 250, outcome: players(0) });
    assert_eq!(answer, Ok(Action::AwaitTick));
    assert_eq!(poller.last_active_at(), 0);
    assert_eq!(poller.idle_duration(4 * SEC + 250), 4 * SEC + 250);
}

#[test]
fn failed_query_leaves_the_idle_clock_running() {
    let mut poller = poller(1, 5, cloud());
    tick(&mut poller, SEC, ok(2));
    assert_eq!(poller.last_active_at(), SEC);
    poller.step(Event::Tick { now: 2 * SEC }).unwrap();
    let answer = poller.step(Event::QueryFinished { now: 2 * SEC + 9, outcome: QueryOutcome::Failed });
    assert_eq!(answer, Ok(Action::AwaitTick));
    assert_eq!(poller.last_active_at(), SEC);
    assert_eq!(poller.phase(), Phase::AwaitingTick);
}

#[test]
fn failed_query_is_not_taken_for_players() {
    let mut poller = poller(1, 2, ShutdownTarget::Local);
    assert_eq!(tick(&mut poller, SEC, None), query());
    assert_eq!(tick(&mut poller, 2 * SEC, None), query());
    let answer = tick(&mut poller, 3 * SEC, None);
    assert!(matches!(answer, Action::Shutdown { .. }));
}

#[test]
fn idle_server_asks_for_shutdown_with_the_idle_time() {
    let mut poller = poller(1, 5, cloud());
    let answer = poller.step(Event::Tick { now: 5 * SEC + 1 });
    assert_eq!(
        answer,
        Ok(Action::Shutdown {
            idle_for: 5 * SEC + 1,
            command: stop_instance_command("oci", "/etc/oci/config", "ocid1.instance"),
        })
    );
    assert_eq!(poller.phase(), Phase::AwaitingShutdown);
}

#[test]
fn tick_at_exactly_the_timeout_does_not_shut_down() {
    let mut poller = poller(1, 5, cloud());
    assert_eq!(poller.idle_duration(5 * SEC), 5 * SEC);
    assert_eq!(poller.step(Event::Tick { now: 5 * SEC }), Ok(query()));
}

#[test]
fn idle_check_uses_what_was_known_at_the_tick_before() {
    let mut poller = poller(1, 5, ShutdownTarget::Local);
    let answer = poller.step(Event::Tick { now: 6 * SEC }).unwrap();
    assert!(matches!(answer, Action::Shutdown { idle_for, .. } if idle_for == 6 * SEC));
    assert_eq!(poller.step(Event::ShutdownFinished { result: Ok(()) }), Ok(query()));
    poller.step(Event::QueryFinished { now: 6 * SEC, outcome: players(1) }).unwrap();
    assert_eq!(poller.step(Event::Tick { now: 7 * SEC }), Ok(query()));
}

#[test]
fn cloud_shutdown_issued_ends_the_run() {
    let mut poller = poller(1, 5, cloud());
    poller.step(Event::Tick { now: 6 * SEC }).unwrap();
    let answer = poller.step(Event::ShutdownFinished { result: Ok(()) });
    assert_eq!(answer, Ok(Action::Exit { result: Ok(()) }));
    assert_eq!(poller.phase(), Phase::Exited);
}

#[test]
fn cloud_shutdown_failure_ends_the_run_with_the_error() {
    let mut poller = poller(1, 5, cloud());
    poller.step(Event::Tick { now: 6 * SEC }).unwrap();
    let error = ShutdownError::StopInstanceFailed { stderr: String::from("NotAuthorized") };
    let answer = poller.step(Event::ShutdownFinished { result: Err(error.clone()) });
    assert_eq!(answer, Ok(Action::Exit { result: Err(error) }));
    assert_eq!(poller.phase(), Phase::Exited);
}

#[test]
fn cloud_launch_failure_ends_the_run_with_the_error() {
    let mut poller = poller(1, 5, cloud());
    poller.step(Event::Tick { now: 6 * SEC }).unwrap();
    let error = ShutdownError::Launch { detail: String::from("not found") };
    let answer = poller.step(Event::ShutdownFinished { result: Err(error.clone()) });
    assert_eq!(answer, Ok(Action::Exit { result: Err(error) }));
}

#[test]
fn cloud_undecodable_failure_ends_the_run() {
    let mut poller = poller(1, 5, cloud());
    poller.step(Event::Tick { now: 6 * SEC }).unwrap();
    let answer = poller.step(Event::ShutdownFinished { result: Err(ShutdownError::UndecodableOutput) });
    assert_eq!(answer, Ok(Action::Exit { result: Err(ShutdownError::UndecodableOutput) }));
}

#[test]
fn nothing_is_accepted_after_the_exit() {
    let mut poller = poller(1, 5, cloud());
    poller.step(Event::Tick { now: 6 * SEC }).unwrap();
    poller.step(Event::ShutdownFinished { result: Ok(()) }).unwrap();
    let refusal = Err(OutOfTurn { awaiting: Phase::Exited });
    assert_eq!(poller.step(Event::Tick { now: 7 * SEC }), refusal);
    assert_eq!(poller.step(Event::ShutdownFinished { result: Ok(()) }), refusal);
    assert_eq!(poller.step(Event::QueryFinished { now: 7 * SEC, outcome: players(4) }), refusal);
    assert_eq!(poller.phase(), Phase::Exited);
    assert_eq!(poller.last_active_at(), 0);
}

#[test]
fn cloud_run_asks_for_shutdown_exactly_once() {
    let mut poller = poller(1, 3, cloud());
    let mut shutdowns = 0;
    let mut exits = 0;
    let counts = [2, 0, 0, 0, 0, 0, 0, 0];
    for (index, online) in counts.iter().enumerate() {
        let now = index as u128 * SEC;
        match poller.step(Event::Tick { now }) {
            Ok(Action::Shutdown { .. }) => {
                shutdowns += 1;
                let answer = poller.step(Event::ShutdownFinished { result: Ok(()) }).unwrap();
                assert_eq!(answer, Action::Exit { result: Ok(()) });
                exits += 1;
            }
            Ok(Action::Query { .. }) => {
                poller.step(Event::QueryFinished { now, outcome: players(*online) }).unwrap();
            }
            Ok(other) => panic!("unexpected answer to a tick: {:?}", other),
            Err(refusal) => assert_eq!(refusal, OutOfTurn { awaiting: Phase::Exited }),
        }
    }
    assert_eq!(shutdowns, 1);
    assert_eq!(exits, 1);
    assert_eq!(poller.phase(), Phase::Exited);
}

#[test]
fn local_shutdown_issued_does_not_end_the_run() {
    let mut poller = poller(1, 5, ShutdownTarget::Local);
    let answer = poller.step(Event::Tick { now: 6 * SEC }).unwrap();
    assert!(matches!(answer, Action::Shutdown { .. }));
    assert_eq!(poller.step(Event::ShutdownFinished { result: Ok(()) }), Ok(query()));
    assert_eq!(poller.phase(), Phase::AwaitingQuery);
    assert_eq!(
        poller.step(Event::QueryFinished { now: 6 * SEC, outcome: players(0) }),
        Ok(Action::AwaitTick)
    );
    assert_eq!(poller.phase(), Phase::AwaitingTick);
}

#[test]
fn local_shutdown_is_asked_for_again_while_the_machine_is_up() {
    let mut poller = poller(1, 5, ShutdownTarget::Local);
    let mut shutdowns = 0;
    for index in 0..10u128 {
        let now = index * SEC;
        let answer = poller.step(Event::Tick { now }).unwrap();
        if let Action::Shutdown { idle_for, command } = answer {
            assert_eq!(idle_for, now);
            assert_eq!(command.program, "sudo");
            shutdowns += 1;
            assert_eq!(poller.step(Event::ShutdownFinished { result: Ok(()) }), Ok(query()));
        }
        poller.step(Event::QueryFinished { now, outcome: players(0) }).unwrap();
    }
    assert_eq!(shutdowns, 4);
    assert_eq!(poller.phase(), Phase::AwaitingTick);
}

#[test]
fn local_command_failure_is_retried_at_the_next_idle_tick() {
    let mut poller = poller(1, 5, ShutdownTarget::Local);
    poller.step(Event::Tick { now: 6 * SEC }).unwrap();
    let error = ShutdownError::CommandFailed { stdout: String::new(), stderr: String::from("busy") };
    assert_eq!(poller.step(Event::ShutdownFinished { result: Err(error) }), Ok(query()));
    poller.step(Event::QueryFinished { now: 6 * SEC, outcome: QueryOutcome::Failed }).unwrap();
    let again = poller.step(Event::Tick { now: 7 * SEC }).unwrap();
    assert!(matches!(again, Action::Shutdown { idle_for, .. } if idle_for == 7 * SEC));
}

#[test]
fn local_undecodable_failure_is_not_fatal() {
    let mut poller = poller(1, 5, ShutdownTarget::Local);
    poller.step(Event::Tick { now: 6 * SEC }).unwrap();
    let answer = poller.step(Event::ShutdownFinished { result: Err(ShutdownError::UndecodableOutput) });
    assert_eq!(answer, Ok(query()));
}

#[test]
fn local_launch_failure_is_fatal() {
    let mut poller = poller(1, 5, ShutdownTarget::Local);
    poller.step(Event::Tick { now: 6 * SEC }).unwrap();
    let error = ShutdownError::Launch { detail: String::from("sudo: not found") };
    let answer = poller.step(Event::ShutdownFinished { result: Err(error.clone()) });
    assert_eq!(answer, Ok(Action::Exit { result: Err(error) }));
    assert_eq!(poller.phase(), Phase::Exited);
}

#[test]
fn events_out_of_turn_are_refused_and_change_nothing() {
    let mut poller = poller(1, 5, cloud());
    let waiting_for_tick = Err(OutOfTurn { awaiting: Phase::AwaitingTick });
    assert_eq!(poller.step(Event::QueryFinished { now: SEC, outcome: players(9) }), waiting_for_tick);
    assert_eq!(poller.step(Event::ShutdownFinished { result: Ok(()) }), waiting_for_tick);
    assert_eq!(poller.last_active_at(), 0);
    assert_eq!(poller.phase(), Phase::AwaitingTick);

    poller.step(Event::Tick { now: SEC }).unwrap();
    let waiting_for_query = Err(OutOfTurn { awaiting: Phase::AwaitingQuery });
    assert_eq!(poller.step(Event::Tick { now: 2 * SEC }), waiting_for_query);
    assert_eq!(poller.step(Event::ShutdownFinished { result: Ok(()) }), waiting_for_query);
    poller.step(Event::QueryFinished { now: SEC, outcome: players(0) }).unwrap();

    poller.step(Event::Tick { now: 9 * SEC }).unwrap();
    let waiting_for_shutdown = Err(OutOfTurn { awaiting: Phase::AwaitingShutdown });
    assert_eq!(poller.step(Event::Tick { now: 10 * SEC }), waiting_for_shutdown);
    assert_eq!(
        poller.step(Event::QueryFinished { now: 10 * SEC, outcome: players(1) }),
        waiting_for_shutdown
    );
    assert_eq!(poller.last_active_at(), 0);
    assert_eq!(poller.phase(), Phase::AwaitingShutdown);
}

#[test]
fn clock_running_backwards_counts_as_no_idle_time() {
    let config = IdleConfig::new(1, 5, String::from("h"), 1).unwrap();
    let mut poller = Poller::new(config, cloud(), 50 * SEC);
    assert_eq!(poller.idle_duration(40 * SEC), 0);
    assert!(matches!(poller.step(Event::Tick { now: 40 * SEC }), Ok(Action::Query { .. })));
}

#[test]
fn found_players_needs_at_least_one() {
    assert!(players(1).found_players());
    assert!(players(u32::MAX).found_players());
    assert!(!players(0).found_players());
    assert!(!QueryOutcome::Failed.found_players());
}

#[test]
fn idle_duration_restarts_only_when_players_are_seen() {
    let mut poller = poller(1, 100, ShutdownTarget::Local);
    let seen = [ok(0), None, ok(0), ok(4), ok(0), None, ok(1), ok(0)];
    let mut before = 0;
    for (index, seen) in seen.iter().enumerate() {
        let now = (index as u128 + 1) * SEC;
        tick(&mut poller, now, *seen);
        let idle = poller.idle_duration(now);
        if matches!(seen, Some(online) if *online > 0) {
            assert_eq!(idle, 0);
        } else {
            assert!(idle >= before);
            assert_eq!(idle, before + SEC);
        }
        before = idle;
    }
}

#[test]
fn five_second_timeout_with_one_second_ticks() {
    let mut poller = poller(1, 5, cloud());
    let counts = [1, 0, 0, 0, 0, 0];
    for (index, online) in counts.iter().enumerate() {
        let now = index as u128 * SEC;
        assert_eq!(tick(&mut poller, now, ok(*online)), query());
    }
    assert_eq!(poller.last_active_at(), 0);
    assert_eq!(poller.idle_duration(5 * SEC), 5 * SEC);
    assert_eq!(poller.phase(), Phase::AwaitingTick);
    let answer = poller.step(Event::Tick { now: 6 * SEC });
    assert_eq!(
        answer,
        Ok(Action::Shutdown {
            idle_for: 6 * SEC,
            command: stop_instance_command("oci", "/etc/oci/config", "ocid1.instance"),
        })
    );
}

#[test]
fn five_second_timeout_with_a_tick_one_instant_late() {
    let mut poller = poller(1, 5, cloud());
    let counts = [1, 0, 0, 0, 0];
    for (index, online) in counts.iter().enumerate() {
        let now = index as u128 * SEC;
        assert_eq!(tick(&mut poller, now, ok(*online)), query());
    }
    let answer = poller.step(Event::Tick { now: 5 * SEC + 1 }).unwrap();
    assert!(matches!(answer, Action::Shutdown { idle_for, .. } if idle_for == 5 * SEC + 1));
}

#[test]
fn failed_queries_neither_hasten_nor_delay_the_shutdown() {
    let mut poller = poller(1, 3, cloud());
    let seen = [ok(1), ok(0), None, None];
    for (index, seen) in seen.iter().enumerate() {
        let now = index as u128 * SEC;
        assert_eq!(tick(&mut poller, now, *seen), query());
        assert_eq!(poller.last_active_at(), 0);
    }
    let answer = poller.step(Event::Tick { now: 4 * SEC }).unwrap();
    assert!(matches!(answer, Action::Shutdown { idle_for, .. } if idle_for == 4 * SEC));
    assert_eq!(
        poller.step(Event::ShutdownFinished { result: Ok(()) }),
        Ok(Action::Exit { result: Ok(()) })
    );
}

#[test]
fn poll_interval_longer_than_timeout_still_detects_idleness() {
    let mut poller = poller(10, 3, ShutdownTarget::Local);
    assert_eq!(tick(&mut poller, 0, ok(1)), query());
    let answer = poller.step(Event::Tick { now: 10 * SEC }).unwrap();
    assert!(matches!(answer, Action::Shutdown { idle_for, .. } if idle_for == 10 * SEC));
}
