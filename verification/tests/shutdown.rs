use wallswitcher::shutdown::{
    assess, BackendStatus, Coordinator, Directive, Event, Observation, Phase, ShutdownOutcome,
    TaskStatus, POLL_INTERVAL_MILLIS,
};

const OUTCOMES: [ShutdownOutcome; 5] = [
    ShutdownOutcome::Signaled,
    ShutdownOutcome::ClientKill,
    ShutdownOutcome::BackendCrashed,
    ShutdownOutcome::SchedulerFailed,
    ShutdownOutcome::ChannelFailed,
];

const BACKENDS: [BackendStatus; 3] =
    [BackendStatus::Alive, BackendStatus::Exited, BackendStatus::Unknown];

const TASKS: [TaskStatus; 3] = [TaskStatus::Running, TaskStatus::Finished, TaskStatus::Failed];

fn observations() -> Vec<Observation> {
    let mut all = Vec::new();
    for interrupted in [false, true] {
        for terminated in [false, true] {
            for backend in BACKENDS {
                for channel in TASKS {
                    for scheduler in TASKS {
                        all.push(Observation {
                            interrupted,
                            terminated,
                            backend,
                            channel,
                            scheduler,
                        });
                    }
                }
            }
        }
    }
    all
}

fn running() -> Coordinator {
    let mut coordinator = Coordinator::new();
    assert_eq!(coordinator.step(Event::Launched), Directive::Poll);
    coordinator
}

#[test]
fn poll_interval() {
    assert_eq!(POLL_INTERVAL_MILLIS, 100);
}

#[test]
fn signals_and_kill_are_graceful() {
    assert!(ShutdownOutcome::Signaled.is_graceful());
    assert!(ShutdownOutcome::ClientKill.is_graceful());
    assert!(!ShutdownOutcome::BackendCrashed.is_graceful());
    assert!(!ShutdownOutcome::SchedulerFailed.is_graceful());
    assert!(!ShutdownOutcome::ChannelFailed.is_graceful());
}

#[test]
fn exit_codes() {
    assert_eq!(ShutdownOutcome::Signaled.exit_code(), 0);
    assert_eq!(ShutdownOutcome::ClientKill.exit_code(), 0);
    assert_eq!(ShutdownOutcome::BackendCrashed.exit_code(), 1);
    assert_eq!(ShutdownOutcome::SchedulerFailed.exit_code(), 1);
    assert_eq!(ShutdownOutcome::ChannelFailed.exit_code(), 1);
}

#[test]
fn a_quiet_observation_decides_nothing() {
    let obs = Observation::new();
    assert!(!obs.interrupted);
    assert!(!obs.terminated);
    assert_eq!(obs.backend, BackendStatus::Alive);
    assert_eq!(obs.channel, TaskStatus::Running);
    assert_eq!(obs.scheduler, TaskStatus::Running);
    assert_eq!(assess(&obs), None);
}

#[test]
fn each_condition_alone_decides_its_outcome() {
    let quiet = Observation::new();
    assert_eq!(
        assess(&Observation { interrupted: true, ..quiet }),
        Some(ShutdownOutcome::Signaled)
    );
    assert_eq!(
        assess(&Observation { terminated: true, ..quiet }),
        Some(ShutdownOutcome::Signaled)
    );
    assert_eq!(
        assess(&Observation { backend: BackendStatus::Exited, ..quiet }),
        Some(ShutdownOutcome::BackendCrashed)
    );
    assert_eq!(
        assess(&Observation { backend: BackendStatus::Unknown, ..quiet }),
        Some(ShutdownOutcome::BackendCrashed)
    );
    assert_eq!(
        assess(&Observation { channel: TaskStatus::Finished, ..quiet }),
        Some(ShutdownOutcome::ClientKill)
    );
    assert_eq!(
        assess(&Observation { channel: TaskStatus::Failed, ..quiet }),
        Some(ShutdownOutcome::ChannelFailed)
    );
    assert_eq!(
        assess(&Observation { scheduler: TaskStatus::Failed, ..quiet }),
        Some(ShutdownOutcome::SchedulerFailed)
    );
    assert_eq!(
        assess(&Observation { scheduler: TaskStatus::Finished, ..quiet }),
        Some(ShutdownOutcome::SchedulerFailed)
    );
}

#[test]
fn conditions_seen_together_are_told_apart_in_order() {
    let all = Observation {
        interrupted: true,
        terminated: true,
        backend: BackendStatus::Exited,
        channel: TaskStatus::Failed,
        scheduler: TaskStatus::Failed,
    };
    assert_eq!(assess(&all), Some(ShutdownOutcome::Signaled));
    let no_signal = Observation { interrupted: false, terminated: false, ..all };
    assert_eq!(assess(&no_signal), Some(ShutdownOutcome::BackendCrashed));
    let backend_alive = Observation { backend: BackendStatus::Alive, ..no_signal };
    assert_eq!(assess(&backend_alive), Some(ShutdownOutcome::ChannelFailed));
    let killed = Observation { channel: TaskStatus::Finished, ..backend_alive };
    assert_eq!(assess(&killed), Some(ShutdownOutcome::ClientKill));
    let channel_runs = Observation { channel: TaskStatus::Running, ..backend_alive };
    assert_eq!(assess(&channel_runs), Some(ShutdownOutcome::SchedulerFailed));
}

#[test]
fn only_the_quiet_observation_keeps_the_daemon_running() {
    for obs in observations() {
        assert_eq!(assess(&obs).is_none(), obs == Observation::new());
    }
}

#[test]
fn coordinator_starts_in_starting() {
    let coordinator = Coordinator::new();
    assert_eq!(coordinator, Coordinator::Starting);
    assert_eq!(coordinator.phase(), Phase::Starting);
    assert_eq!(coordinator.outcome(), None);
}

#[test]
fn coordinator_polls_while_nothing_happens() {
    let mut coordinator = running();
    assert_eq!(coordinator.phase(), Phase::Running);
    let mut round: u32 = 0;
    while round < 50 {
        assert_eq!(coordinator.step(Event::Observed(Observation::new())), Directive::Poll);
        assert_eq!(coordinator, Coordinator::Running);
        assert_eq!(coordinator.outcome(), None);
        round += 1;
    }
}

#[test]
fn kill_ends_the_daemon_gracefully() {
    let mut coordinator = running();
    let obs = Observation { channel: TaskStatus::Finished, ..Observation::new() };
    assert_eq!(coordinator.step(Event::Observed(obs)), Directive::StopTasks);
    assert_eq!(coordinator.phase(), Phase::Terminating);
    assert_eq!(coordinator.outcome(), Some(ShutdownOutcome::ClientKill));
    assert_eq!(
        coordinator.step(Event::TasksStopped),
        Directive::Release(ShutdownOutcome::ClientKill)
    );
    assert_eq!(coordinator, Coordinator::Terminated(ShutdownOutcome::ClientKill));
    assert_eq!(coordinator.phase(), Phase::Terminated);
    assert_eq!(coordinator.outcome().map(|o| o.exit_code()), Some(0));
}

#[test]
fn a_backend_exit_ends_the_daemon_fatally() {
    for backend in [BackendStatus::Exited, BackendStatus::Unknown] {
        let mut coordinator = running();
        let obs = Observation { backend, ..Observation::new() };
        assert_eq!(coordinator.step(Event::Observed(obs)), Directive::StopTasks);
        assert_eq!(coordinator.outcome(), Some(ShutdownOutcome::BackendCrashed));
        assert_eq!(
            coordinator.step(Event::TasksStopped),
            Directive::Release(ShutdownOutcome::BackendCrashed)
        );
        assert_eq!(coordinator.phase(), Phase::Terminated);
        assert_eq!(coordinator.outcome().map(|o| o.exit_code()), Some(1));
        assert_eq!(coordinator.outcome().map(|o| o.is_graceful()), Some(false));
    }
}

#[test]
fn every_deciding_observation_leads_to_one_release() {
    for obs in observations() {
        let mut coordinator = running();
        let directive = coordinator.step(Event::Observed(obs));
        match assess(&obs) {
            None => {
                assert_eq!(directive, Directive::Poll);
                assert_eq!(coordinator, Coordinator::Running);
                assert_eq!(coordinator.step(Event::TasksStopped), Directive::Ignore);
                assert_eq!(coordinator, Coordinator::Running);
            }
            Some(outcome) => {
                assert_eq!(directive, Directive::StopTasks);
                assert_eq!(coordinator, Coordinator::Terminating(outcome));
                assert_eq!(coordinator.step(Event::TasksStopped), Directive::Release(outcome));
                assert_eq!(coordinator, Coordinator::Terminated(outcome));
                assert_eq!(coordinator.step(Event::TasksStopped), Directive::Ignore);
                assert_eq!(coordinator, Coordinator::Terminated(outcome));
            }
        }
    }
}

#[test]
fn the_first_outcome_wins() {
    for outcome_first in observations() {
        let Some(outcome) = assess(&outcome_first) else {
            continue;
        };
        for later in observations() {
            let mut coordinator = running();
            coordinator.step(Event::Observed(outcome_first));
            assert_eq!(coordinator.step(Event::Observed(later)), Directive::Ignore);
            assert_eq!(coordinator.outcome(), Some(outcome));
            coordinator.step(Event::TasksStopped);
            assert_eq!(coordinator.step(Event::Observed(later)), Directive::Ignore);
            assert_eq!(coordinator, Coordinator::Terminated(outcome));
        }
    }
}

#[test]
fn events_out_of_phase_are_ignored() {
    let mut coordinator = Coordinator::new();
    let crashed = Observation { backend: BackendStatus::Exited, ..Observation::new() };
    assert_eq!(coordinator.step(Event::Observed(crashed)), Directive::Ignore);
    assert_eq!(coordinator.step(Event::TasksStopped), Directive::Ignore);
    assert_eq!(coordinator, Coordinator::Starting);
    assert_eq!(coordinator.step(Event::Launched), Directive::Poll);
    assert_eq!(coordinator.step(Event::Launched), Directive::Ignore);
    assert_eq!(coordinator, Coordinator::Running);
    coordinator.step(Event::Observed(crashed));
    assert_eq!(coordinator.step(Event::Launched), Directive::Ignore);
    assert_eq!(coordinator.phase(), Phase::Terminating);
    coordinator.step(Event::TasksStopped);
    assert_eq!(coordinator.step(Event::Launched), Directive::Ignore);
    assert_eq!(coordinator.phase(), Phase::Terminated);
}

#[test]
fn terminating_and_terminated_carry_their_outcome() {
    for outcome in OUTCOMES {
        assert_eq!(Coordinator::Terminating(outcome).phase(), Phase::Terminating);
        assert_eq!(Coordinator::Terminating(outcome).outcome(), Some(outcome));
        assert_eq!(Coordinator::Terminated(outcome).phase(), Phase::Terminated);
        assert_eq!(Coordinator::Terminated(outcome).outcome(), Some(outcome));
    }
    assert_eq!(Coordinator::Running.phase(), Phase::Running);
    assert_eq!(Coordinator::Running.outcome(), None);
}
