use chaos_framework::error::{ChaosError, FailureReason, InjectorError, TargetError};
use chaos_framework::executor::{
    Executor, ExecutorAction, ExecutorEvent, ExecutorState, InjectionOutcome, RevertCause, POLL_MS,
};
use chaos_framework::handle::{Claim, FaultTable, InjectionHandle};
use chaos_framework::injectors::{ActiveEffect, Effect, Injector};
use chaos_framework::result::ScenarioResult;
use chaos_framework::runner::{RunState, RunnerCommand, ScenarioRunner};
use chaos_framework::scenario::{
    Capability, Injection, InjectorKind, Phase, Scenario, SchedulingMode, Target,
};
use chaos_framework::target::{Inventory, ResolvedTarget};

fn target(capability: Capability, selector: &str) -> Target {
    Target { capability, selector: selector.to_string() }
}

fn packet_loss(selector: &str, duration_ms: Option<u64>) -> Injection {
    Injection {
        kind: InjectorKind::PacketLoss,
        target: target(Capability::Network, selector),
        duration_ms,
        magnitude: None,
        probability_ppm: Some(250_000),
        interval_ms: None,
    }
}

fn cpu_starvation(selector: &str, duration_ms: Option<u64>) -> Injection {
    Injection {
        kind: InjectorKind::CpuStarvation,
        target: target(Capability::Process, selector),
        duration_ms,
        magnitude: Some(80),
        probability_ppm: None,
        interval_ms: None,
    }
}

fn phase(name: &str, duration_ms: u64, mode: SchedulingMode, injections: Vec<Injection>) -> Phase {
    Phase { name: name.to_string(), duration_ms, injections, mode }
}

fn scenario(duration_ms: u64, phases: Vec<Phase>) -> Scenario {
    Scenario { name: "sample".to_string(), description: None, duration_ms, phases }
}

fn host() -> Inventory {
    let mut inventory = Inventory::new();
    inventory.add(target(Capability::Network, "eth0"));
    inventory.add(target(Capability::Process, "nginx"));
    inventory.add(target(Capability::Resource, "disk0"));
    inventory
}

/// Runs a scenario against a simulated clock and a host that does all it
/// is asked. Returns the result and the number of reverts asked for.
fn simulate(s: Scenario, stop_at: Option<u64>) -> (Option<ScenarioResult>, u64, RunState) {
    let inventory = host();
    let mut table = FaultTable::new();
    let mut runner = ScenarioRunner::new();
    runner.start(s, 0).expect("the run begins");
    let mut live: Vec<(usize, usize, Executor)> = Vec::new();
    let mut reverts: u64 = 0;
    let mut now: u64 = 0;
    while runner.is_running() && now <= 120_000 {
        if stop_at == Some(now) {
            runner.request_stop();
        }
        let stop = runner.should_stop();
        let mut still: Vec<(usize, usize, Executor)> = Vec::new();
        for (phase, injection, mut executor) in live {
            match executor.step(&inventory, &mut table, ExecutorEvent::Tick { now_ms: now, stop }) {
                ExecutorAction::Revert { .. } => {
                    reverts += 1;
                    match executor.step(&inventory, &mut table, ExecutorEvent::Reverted { ok: true }) {
                        ExecutorAction::Finish { outcome } => {
                            assert!(runner.record(phase, injection, outcome));
                        }
                        other => panic!("unexpected {:?}", other),
                    }
                }
                ExecutorAction::Wait { ms } => {
                    assert!(ms <= POLL_MS);
                    still.push((phase, injection, executor));
                }
                other => panic!("unexpected {:?}", other),
            }
        }
        live = still;
        let commands = runner.poll(now);
        for command in commands {
            match command {
                RunnerCommand::Start { phase, injection, hold_ms } => {
                    let inj = runner.injection(phase, injection).expect("it is there");
                    let mut executor = Executor::new(inj, hold_ms);
                    match executor.step(&inventory, &mut table, ExecutorEvent::Start) {
                        ExecutorAction::Apply { .. } => {
                            let next = executor.step(
                                &inventory,
                                &mut table,
                                ExecutorEvent::Applied { refused: None, now_ms: now },
                            );
                            assert!(matches!(next, ExecutorAction::Wait { .. }));
                            live.push((phase, injection, executor));
                        }
                        ExecutorAction::Finish { outcome } => {
                            assert!(runner.record(phase, injection, outcome));
                        }
                        other => panic!("unexpected {:?}", other),
                    }
                }
                RunnerCommand::Cancel { .. } => {}
            }
        }
        now += 100;
    }
    assert_eq!(table.live_count(), 0);
    assert!(live.is_empty());
    (runner.result(1_700_000_000_000), reverts, runner.current())
}

#[test]
fn two_sequential_phases_give_two_results() {
    let s = scenario(
        6000,
        vec![
            phase("loss", 3000, SchedulingMode::Sequential, vec![packet_loss("eth0", Some(3000))]),
            phase("cpu", 3000, SchedulingMode::Sequential, vec![cpu_starvation("nginx", Some(3000))]),
        ],
    );
    let (result, reverts, state) = simulate(s, None);
    assert_eq!(state, RunState::Completed);
    let result = result.expect("a completed run has a result");
    assert_eq!(result.total_injections, 2);
    assert_eq!(result.phase_results.len(), 2);
    assert_eq!(result.phase_results[0].injection_count, 1);
    assert_eq!(result.phase_results[1].injection_count, 1);
    assert_eq!(result.phase_results[0].name, "loss");
    assert_eq!(result.phase_results[1].name, "cpu");
    assert_eq!(result.success_ratio(), (2, 2));
    let (succeeded, attempted) = result.success_ratio();
    assert_eq!(succeeded as f64 / attempted as f64, 1.0);
    assert_eq!(result.success_ppm(), 1_000_000);
    assert_eq!(result.started_at_ms, 1_700_000_000_000);
    assert_eq!(reverts, 2);
}

#[test]
fn every_live_fault_is_reverted_once_on_a_stop() {
    for stop_at in [0u64, 100, 700, 1500, 2900, 3000, 3100, 4400, 5900] {
        let s = scenario(
            6000,
            vec![
                phase(
                    "both",
                    3000,
                    SchedulingMode::Concurrent,
                    vec![packet_loss("eth0", None), cpu_starvation("nginx", Some(1000))],
                ),
                phase("cpu", 3000, SchedulingMode::Sequential, vec![cpu_starvation("nginx", None)]),
            ],
        );
        let (result, reverts, state) = simulate(s, Some(stop_at));
        assert_eq!(state, RunState::Stopped, "stop at {}", stop_at);
        let result = result.expect("a stopped run has a result");
        assert!(result.is_sound());
        assert_eq!(reverts, result.succeeded(), "stop at {}", stop_at);
        assert_eq!(result.succeeded(), result.attempted());
    }
}

#[test]
fn failed_injections_are_data_and_the_run_goes_on() {
    let s = scenario(
        4000,
        vec![
            phase("lost", 2000, SchedulingMode::Sequential, vec![packet_loss("wlan9", None)]),
            phase("cpu", 2000, SchedulingMode::Sequential, vec![cpu_starvation("nginx", None)]),
        ],
    );
    let (result, reverts, state) = simulate(s, None);
    assert_eq!(state, RunState::Completed);
    let result = result.expect("a result");
    assert_eq!(result.total_injections, 2);
    assert_eq!(result.phase_results[0].failed, 1);
    assert_eq!(result.phase_results[0].succeeded, 0);
    assert_eq!(result.phase_results[1].succeeded, 1);
    assert_eq!(result.success_ppm(), 500_000);
    assert_eq!(reverts, 1);
}

#[test]
fn a_phase_that_starts_at_the_total_is_never_entered() {
    let s = scenario(
        10_000,
        vec![
            phase("first", 10_000, SchedulingMode::Sequential, vec![packet_loss("eth0", None)]),
            phase("second", 5_000, SchedulingMode::Sequential, vec![cpu_starvation("nginx", None)]),
        ],
    );
    let (result, reverts, state) = simulate(s, None);
    assert_eq!(state, RunState::Completed);
    let result = result.expect("a result");
    assert_eq!(result.phase_results.len(), 1);
    assert_eq!(result.phase_results[0].name, "first");
    assert_eq!(result.total_injections, 1);
    assert_eq!(reverts, 1);
}

#[test]
fn a_phase_that_straddles_the_total_is_cut_short() {
    let s = scenario(
        10_000,
        vec![
            phase("first", 6_000, SchedulingMode::Sequential, vec![packet_loss("eth0", None)]),
            phase("second", 6_000, SchedulingMode::Sequential, vec![cpu_starvation("nginx", None)]),
        ],
    );
    let (result, _, state) = simulate(s, None);
    assert_eq!(state, RunState::Completed);
    let result = result.expect("a result");
    assert_eq!(result.phase_results.len(), 2);
    assert_eq!(result.phase_results[0].duration_ms, 6_000);
    assert_eq!(result.phase_results[1].duration_ms, 4_000);
    assert_eq!(result.total_duration_ms, 10_000);
}

#[test]
fn starting_twice_is_refused_and_the_first_run_goes_on() {
    let mut runner = ScenarioRunner::with_defaults();
    let first = scenario(
        3000,
        vec![phase("only", 3000, SchedulingMode::Sequential, vec![packet_loss("eth0", None)])],
    );
    let handle = runner.start(first, 50).expect("the first run begins");
    assert_eq!(handle.started_at_ms, 50);
    assert_eq!(handle.phases, 1);
    let commands = runner.poll(60);
    assert_eq!(commands, vec![RunnerCommand::Start { phase: 0, injection: 0, hold_ms: 2990 }]);
    let before = runner.status(70);
    let second = scenario(
        9000,
        vec![phase("other", 9000, SchedulingMode::Sequential, vec![cpu_starvation("nginx", None)])],
    );
    assert_eq!(runner.start(second, 70), Err(ChaosError::AlreadyRunning));
    assert_eq!(runner.status(70), before);
    assert_eq!(runner.current(), RunState::Running { phase: 0 });
    assert_eq!(runner.injection(0, 0).expect("still there").kind, InjectorKind::PacketLoss);
    assert!(runner.record(0, 0, InjectionOutcome::Completed { held_ms: 2990 }));
    assert_eq!(runner.poll(3100), vec![]);
    assert_eq!(runner.current(), RunState::Completed);
}

#[test]
fn no_injection_starts_while_the_phase_before_is_live() {
    let mut runner = ScenarioRunner::new();
    let s = scenario(
        2000,
        vec![
            phase("one", 1000, SchedulingMode::Sequential, vec![packet_loss("eth0", None)]),
            phase("two", 1000, SchedulingMode::Sequential, vec![cpu_starvation("nginx", None)]),
        ],
    );
    runner.start(s, 0).expect("begins");
    assert_eq!(
        runner.poll(0),
        vec![RunnerCommand::Start { phase: 0, injection: 0, hold_ms: 1000 }]
    );
    // The time of the first phase is over, but its injection is still live.
    assert_eq!(runner.poll(1000), vec![RunnerCommand::Cancel { phase: 0, injection: 0 }]);
    assert_eq!(runner.poll(1500), vec![RunnerCommand::Cancel { phase: 0, injection: 0 }]);
    assert_eq!(runner.current(), RunState::Running { phase: 0 });
    // A report for another phase or another injection does not count.
    assert!(!runner.record(1, 0, InjectionOutcome::Completed { held_ms: 1 }));
    assert!(!runner.record(0, 7, InjectionOutcome::Completed { held_ms: 1 }));
    assert!(runner.record(0, 0, InjectionOutcome::Cancelled { held_ms: 1500 }));
    assert!(!runner.record(0, 0, InjectionOutcome::Cancelled { held_ms: 1500 }));
    assert_eq!(runner.poll(1600), vec![]);
    assert_eq!(runner.current(), RunState::Running { phase: 1 });
    assert_eq!(
        runner.poll(1700),
        vec![RunnerCommand::Start { phase: 1, injection: 0, hold_ms: 300 }]
    );
}

#[test]
fn a_sequential_phase_runs_one_injection_at_a_time() {
    let mut runner = ScenarioRunner::new();
    let s = scenario(
        9000,
        vec![phase(
            "three",
            9000,
            SchedulingMode::Sequential,
            vec![packet_loss("eth0", None), cpu_starvation("nginx", Some(1000)), packet_loss("eth0", None)],
        )],
    );
    runner.start(s, 0).expect("begins");
    assert_eq!(
        runner.poll(0),
        vec![RunnerCommand::Start { phase: 0, injection: 0, hold_ms: 3000 }]
    );
    // The second is due at three seconds, but the first is still live.
    assert_eq!(runner.poll(3000), vec![]);
    assert!(runner.record(0, 0, InjectionOutcome::Completed { held_ms: 3000 }));
    // Not due yet.
    let mut early = ScenarioRunner::new();
    early
        .start(
            scenario(
                9000,
                vec![phase(
                    "two",
                    9000,
                    SchedulingMode::Sequential,
                    vec![packet_loss("eth0", Some(10)), cpu_starvation("nginx", None)],
                )],
            ),
            0,
        )
        .expect("begins");
    assert_eq!(early.poll(0).len(), 1);
    assert!(early.record(0, 0, InjectionOutcome::Completed { held_ms: 10 }));
    assert_eq!(early.poll(100), vec![]);
    assert_eq!(
        early.poll(4500),
        vec![RunnerCommand::Start { phase: 0, injection: 1, hold_ms: 4500 }]
    );
    // Back to the first runner: the second starts, with its own shorter hold.
    assert_eq!(
        runner.poll(3100),
        vec![RunnerCommand::Start { phase: 0, injection: 1, hold_ms: 1000 }]
    );
}

#[test]
fn a_concurrent_phase_starts_all_together() {
    let mut runner = ScenarioRunner::new();
    let s = scenario(
        5000,
        vec![phase(
            "both",
            5000,
            SchedulingMode::Concurrent,
            vec![packet_loss("eth0", None), cpu_starvation("nginx", Some(2000))],
        )],
    );
    runner.start(s, 1000).expect("begins");
    assert_eq!(
        runner.poll(1000),
        vec![
            RunnerCommand::Start { phase: 0, injection: 0, hold_ms: 5000 },
            RunnerCommand::Start { phase: 0, injection: 1, hold_ms: 2000 },
        ]
    );
    assert_eq!(runner.poll(1100), vec![]);
    assert!(runner.record(0, 1, InjectionOutcome::Completed { held_ms: 2000 }));
    assert!(runner.record(0, 0, InjectionOutcome::RevertFailed));
    // Everything is over before the time is: the phase is left early.
    assert_eq!(runner.poll(4000), vec![]);
    assert_eq!(runner.current(), RunState::Completed);
    let result = runner.result(0).expect("a result");
    assert_eq!(result.phase_results[0].succeeded, 1);
    assert_eq!(result.phase_results[0].failed, 1);
    assert_eq!(result.phase_results[0].duration_ms, 3000);
}

#[test]
fn a_stop_is_idempotent_and_idle_runners_ignore_it() {
    let mut runner = ScenarioRunner::new();
    runner.request_stop();
    assert!(!runner.should_stop());
    assert_eq!(runner.current(), RunState::Idle);
    assert_eq!(runner.poll(5), vec![]);
    assert!(runner.result(0).is_none());
    runner
        .start(
            scenario(1000, vec![phase("p", 1000, SchedulingMode::Sequential, vec![packet_loss("eth0", None)])]),
            0,
        )
        .expect("begins");
    runner.request_stop();
    runner.request_stop();
    assert!(runner.should_stop());
    // Nothing was started yet, so the run stops at once and starts nothing.
    assert_eq!(runner.poll(10), vec![]);
    assert_eq!(runner.current(), RunState::Stopped);
    let result = runner.result(0).expect("a result");
    assert_eq!(result.total_injections, 0);
    assert_eq!(result.success_ratio(), (1, 1));
}

#[test]
fn a_scenario_that_cannot_be_scheduled_fails_the_runner() {
    let mut runner = ScenarioRunner::new();
    let s = scenario(
        1000,
        vec![
            phase("same", 500, SchedulingMode::Sequential, vec![]),
            phase("same", 500, SchedulingMode::Sequential, vec![]),
        ],
    );
    let refused = runner.start(s, 0);
    assert!(matches!(refused, Err(ChaosError::Scheduling(_))));
    assert_eq!(runner.current(), RunState::Failed);
    assert!(runner.result(0).is_none());
}

#[test]
fn a_run_with_nothing_to_run_is_completed_at_once() {
    let mut runner = ScenarioRunner::new();
    runner
        .start(scenario(0, vec![phase("p", 1000, SchedulingMode::Sequential, vec![])]), 0)
        .expect("begins");
    assert_eq!(runner.current(), RunState::Completed);
    let result = runner.result(7).expect("a result");
    assert_eq!(result.phase_results.len(), 0);
    assert_eq!(result.success_ppm(), 1_000_000);
}

#[test]
fn only_a_run_in_progress_can_fail() {
    let mut runner = ScenarioRunner::new();
    runner.fail();
    assert_eq!(runner.current(), RunState::Idle);
    runner
        .start(
            scenario(1000, vec![phase("p", 1000, SchedulingMode::Sequential, vec![packet_loss("eth0", None)])]),
            0,
        )
        .expect("begins");
    runner.fail();
    assert_eq!(runner.current(), RunState::Failed);
    assert!(!runner.is_running());
}

fn drive(events: &[ExecutorEvent], inj: Injection, hold_ms: u64) -> (Executor, Vec<ExecutorAction>, FaultTable) {
    let inventory = host();
    let mut table = FaultTable::new();
    let mut executor = Executor::new(inj, hold_ms);
    let mut actions = Vec::new();
    for event in events {
        actions.push(executor.step(&inventory, &mut table, *event));
    }
    (executor, actions, table)
}

fn reverts(actions: &[ExecutorAction]) -> usize {
    actions.iter().filter(|a| matches!(a, ExecutorAction::Revert { .. })).count()
}

#[test]
fn a_hold_that_runs_out_is_reverted_once() {
    let (executor, actions, table) = drive(
        &[
            ExecutorEvent::Start,
            ExecutorEvent::Applied { refused: None, now_ms: 1000 },
            ExecutorEvent::Tick { now_ms: 1100, stop: false },
            ExecutorEvent::Tick { now_ms: 1250, stop: false },
            ExecutorEvent::Tick { now_ms: 1300, stop: false },
            ExecutorEvent::Tick { now_ms: 1400, stop: true },
            ExecutorEvent::Reverted { ok: true },
            ExecutorEvent::Reverted { ok: true },
            ExecutorEvent::Tick { now_ms: 1500, stop: true },
        ],
        packet_loss("eth0", None),
        300,
    );
    let effect = ActiveEffect {
        target: 0,
        kind: InjectorKind::PacketLoss,
        effect: Effect::DropPackets { loss_ppm: 250_000 },
    };
    assert_eq!(actions[0], ExecutorAction::Apply { effect });
    assert_eq!(actions[1], ExecutorAction::Wait { ms: 100 });
    assert_eq!(actions[2], ExecutorAction::Wait { ms: 100 });
    assert_eq!(actions[3], ExecutorAction::Wait { ms: 50 });
    assert!(matches!(actions[4], ExecutorAction::Revert { .. }));
    assert_eq!(actions[5], ExecutorAction::Ignore);
    assert_eq!(actions[6], ExecutorAction::Finish { outcome: InjectionOutcome::Completed { held_ms: 300 } });
    assert_eq!(actions[7], ExecutorAction::Ignore);
    assert_eq!(actions[8], ExecutorAction::Ignore);
    assert_eq!(reverts(&actions), 1);
    assert_eq!(executor.outcome(), Some(InjectionOutcome::Completed { held_ms: 300 }));
    assert!(!executor.has_live_fault());
    assert_eq!(table.live_count(), 0);
}

#[test]
fn a_stop_mid_hold_reverts_at_once() {
    let (executor, actions, table) = drive(
        &[
            ExecutorEvent::Start,
            ExecutorEvent::Applied { refused: None, now_ms: 0 },
            ExecutorEvent::Tick { now_ms: 40, stop: true },
            ExecutorEvent::Reverted { ok: true },
        ],
        cpu_starvation("nginx", None),
        60_000,
    );
    assert_eq!(reverts(&actions), 1);
    assert_eq!(executor.outcome(), Some(InjectionOutcome::Cancelled { held_ms: 40 }));
    assert_eq!(table.live_count(), 0);
}

#[test]
fn a_fault_after_apply_is_reverted_and_counts_as_failed() {
    let (executor, actions, table) = drive(
        &[
            ExecutorEvent::Start,
            ExecutorEvent::Applied { refused: None, now_ms: 0 },
            ExecutorEvent::Fault { now_ms: 10 },
            ExecutorEvent::Fault { now_ms: 11 },
            ExecutorEvent::Reverted { ok: true },
        ],
        cpu_starvation("nginx", None),
        1000,
    );
    assert_eq!(reverts(&actions), 1);
    assert_eq!(
        executor.outcome(),
        Some(InjectionOutcome::Failed { reason: FailureReason::Interrupted })
    );
    assert!(!InjectionOutcome::Failed { reason: FailureReason::Interrupted }.succeeded());
    assert_eq!(table.live_count(), 0);
}

#[test]
fn a_revert_that_fails_is_told_apart_and_the_claim_stays() {
    let (executor, actions, table) = drive(
        &[
            ExecutorEvent::Start,
            ExecutorEvent::Applied { refused: None, now_ms: 0 },
            ExecutorEvent::Tick { now_ms: 1000, stop: false },
            ExecutorEvent::Reverted { ok: false },
        ],
        cpu_starvation("nginx", None),
        1000,
    );
    assert_eq!(reverts(&actions), 1);
    assert_eq!(executor.outcome(), Some(InjectionOutcome::RevertFailed));
    assert!(!InjectionOutcome::RevertFailed.succeeded());
    assert_eq!(table.live_count(), 1);
    assert!(table.holds(Claim { target: 1, kind: InjectorKind::CpuStarvation }));
}

#[test]
fn an_apply_that_fails_leaves_nothing_behind() {
    let (executor, actions, table) = drive(
        &[
            ExecutorEvent::Start,
            ExecutorEvent::Applied { refused: Some(InjectorError::PermissionDenied), now_ms: 5 },
            ExecutorEvent::Tick { now_ms: 10, stop: false },
            ExecutorEvent::Reverted { ok: true },
        ],
        packet_loss("eth0", None),
        1000,
    );
    assert_eq!(reverts(&actions), 0);
    assert_eq!(
        executor.outcome(),
        Some(InjectionOutcome::Failed {
            reason: FailureReason::Injector(InjectorError::PermissionDenied)
        })
    );
    assert_eq!(table.live_count(), 0);
    assert!(!table.holds(Claim { target: 0, kind: InjectorKind::PacketLoss }));
}

#[test]
fn a_target_that_is_not_found_fails_without_a_handle() {
    let (executor, actions, table) =
        drive(&[ExecutorEvent::Start], packet_loss("nowhere", None), 1000);
    assert_eq!(
        actions,
        vec![ExecutorAction::Finish {
            outcome: InjectionOutcome::Failed { reason: FailureReason::Target(TargetError::NotFound) }
        }]
    );
    assert!(!executor.has_live_fault());
    assert_eq!(table.live_count(), 0);
}

#[test]
fn the_same_fault_twice_on_one_target_is_refused() {
    let inventory = host();
    let mut table = FaultTable::new();
    let mut first = Executor::new(packet_loss("eth0", None), 1000);
    let mut second = Executor::new(packet_loss("eth0", None), 1000);
    assert!(matches!(
        first.step(&inventory, &mut table, ExecutorEvent::Start),
        ExecutorAction::Apply { .. }
    ));
    assert_eq!(
        second.step(&inventory, &mut table, ExecutorEvent::Start),
        ExecutorAction::Finish {
            outcome: InjectionOutcome::Failed {
                reason: FailureReason::Injector(InjectorError::AlreadyActive)
            }
        }
    );
    assert_eq!(table.live_count(), 1);
    // Another kind on the same target is a fault of its own.
    let mut latency = Executor::new(
        Injection {
            kind: InjectorKind::NetworkLatency,
            target: target(Capability::Network, "eth0"),
            duration_ms: None,
            magnitude: Some(200),
            probability_ppm: None,
            interval_ms: Some(20),
        },
        1000,
    );
    assert_eq!(
        latency.step(&inventory, &mut table, ExecutorEvent::Start),
        ExecutorAction::Apply {
            effect: ActiveEffect {
                target: 0,
                kind: InjectorKind::NetworkLatency,
                effect: Effect::DelayTraffic { delay_ms: 200, jitter_ms: 20 },
            }
        }
    );
    assert_eq!(table.live_count(), 2);
}

#[test]
fn abandoning_hands_out_the_revert_once() {
    let inventory = host();
    let mut table = FaultTable::new();
    let mut executor = Executor::new(cpu_starvation("nginx", None), 5000);
    assert_eq!(executor.abandon(0), None);
    executor.step(&inventory, &mut table, ExecutorEvent::Start);
    assert_eq!(executor.abandon(0), None);
    executor.step(&inventory, &mut table, ExecutorEvent::Applied { refused: None, now_ms: 100 });
    assert!(executor.has_live_fault());
    let left = executor.abandon(350).expect("the fault is live");
    assert_eq!(left.target, 1);
    assert_eq!(left.kind, InjectorKind::CpuStarvation);
    assert_eq!(executor.abandon(360), None);
    match executor.current() {
        ExecutorState::Reverting { handle, cause, held_ms } => {
            assert!(handle.reverted);
            assert_eq!(cause, RevertCause::Cancelled);
            assert_eq!(held_ms, 250);
        }
        other => panic!("unexpected {:?}", other),
    }
    assert_eq!(
        executor.step(&inventory, &mut table, ExecutorEvent::Reverted { ok: true }),
        ExecutorAction::Finish { outcome: InjectionOutcome::Cancelled { held_ms: 250 } }
    );
    assert_eq!(table.live_count(), 0);
}

#[test]
fn a_handle_gives_its_revert_out_once() {
    let mut handle = InjectionHandle::acquire(InjectorKind::DiskSlow, 4, 99);
    assert!(!handle.reverted);
    assert_eq!(handle.held_ms(150), 51);
    assert_eq!(handle.held_ms(10), 0);
    let action = handle.release().expect("the first time");
    assert_eq!((action.target, action.kind), (4, InjectorKind::DiskSlow));
    assert!(handle.reverted);
    assert_eq!(handle.release(), None);
    assert_eq!(handle.release(), None);
}

#[test]
fn preparing_checks_capability_then_parameters_then_the_table() {
    let mut table = FaultTable::new();
    let network = ResolvedTarget { id: 3, capability: Capability::Network };
    let process = ResolvedTarget { id: 4, capability: Capability::Process };
    let mut bad = packet_loss("eth0", None);
    bad.probability_ppm = Some(1_000_001);
    assert_eq!(Injector::prepare(&mut table, &process, &bad), Err(InjectorError::TargetUnavailable));
    assert_eq!(Injector::prepare(&mut table, &network, &bad), Err(InjectorError::UnsupportedParameter));
    assert_eq!(table.live_count(), 0);
    let good = packet_loss("eth0", None);
    let effect = Injector::prepare(&mut table, &network, &good).expect("it is claimed");
    assert_eq!(effect.target, 3);
    assert_eq!(Injector::prepare(&mut table, &network, &good), Err(InjectorError::AlreadyActive));
    assert_eq!(table.live_count(), 1);
    assert_eq!(
        Injector::complete(&mut table, &effect, Err(InjectorError::PermissionDenied), 0),
        Err(InjectorError::PermissionDenied)
    );
    assert_eq!(table.live_count(), 0);
    let effect = Injector::prepare(&mut table, &network, &good).expect("free again");
    let handle = Injector::complete(&mut table, &effect, Ok(()), 12).expect("live");
    assert_eq!(handle, InjectionHandle { kind: InjectorKind::PacketLoss, target: 3, acquired_at_ms: 12, reverted: false });
    Injector::settle(&mut table, &handle, false);
    assert_eq!(table.live_count(), 1);
    Injector::settle(&mut table, &handle, true);
    assert_eq!(table.live_count(), 0);
}

#[test]
fn each_kind_asks_for_its_own_effect() {
    let make = |kind, capability, magnitude, probability_ppm, interval_ms| Injection {
        kind,
        target: target(capability, "t"),
        duration_ms: None,
        magnitude,
        probability_ppm,
        interval_ms,
    };
    assert_eq!(
        Injector::effect(&make(InjectorKind::TcpReset, Capability::Network, None, None, None)),
        Ok(Effect::ResetConnections { every_ms: None })
    );
    assert_eq!(
        Injector::effect(&make(InjectorKind::TcpReset, Capability::Network, None, None, Some(500))),
        Ok(Effect::ResetConnections { every_ms: Some(500) })
    );
    assert_eq!(
        Injector::effect(&make(InjectorKind::TcpReset, Capability::Network, None, None, Some(0))),
        Err(InjectorError::UnsupportedParameter)
    );
    assert_eq!(
        Injector::effect(&make(InjectorKind::MemoryPressure, Capability::Resource, Some(1 << 30), None, None)),
        Ok(Effect::HoldMemory { bytes: 1 << 30 })
    );
    assert_eq!(
        Injector::effect(&make(InjectorKind::MemoryPressure, Capability::Resource, None, Some(500_000), None)),
        Ok(Effect::HoldMemoryShare { ppm: 500_000 })
    );
    assert_eq!(
        Injector::effect(&make(InjectorKind::MemoryPressure, Capability::Resource, Some(1), Some(1), None)),
        Err(InjectorError::UnsupportedParameter)
    );
    assert_eq!(
        Injector::effect(&make(InjectorKind::DiskSlow, Capability::Resource, Some(4096), None, None)),
        Ok(Effect::ThrottleDisk { bytes_per_sec: 4096 })
    );
    assert_eq!(
        Injector::effect(&make(InjectorKind::ProcessKill, Capability::Process, None, None, None)),
        Ok(Effect::KillProcess { signal: 15, restart_after_ms: None })
    );
    assert_eq!(
        Injector::effect(&make(InjectorKind::ProcessKill, Capability::Process, Some(9), None, Some(2000))),
        Ok(Effect::KillProcess { signal: 9, restart_after_ms: Some(2000) })
    );
    assert_eq!(
        Injector::effect(&make(InjectorKind::ProcessKill, Capability::Process, Some(65), None, None)),
        Err(InjectorError::UnsupportedParameter)
    );
    assert_eq!(
        Injector::effect(&make(InjectorKind::CpuStarvation, Capability::Process, Some(0), None, None)),
        Err(InjectorError::UnsupportedParameter)
    );
    assert_eq!(
        Injector::effect(&make(InjectorKind::CpuStarvation, Capability::Process, Some(100), None, None)),
        Ok(Effect::StarveCpu { ceiling_percent: 100 })
    );
    assert_eq!(
        Injector::effect(&make(InjectorKind::NetworkLatency, Capability::Network, Some(10), None, Some(11))),
        Err(InjectorError::UnsupportedParameter)
    );
}

#[test]
fn resolving_finds_the_first_entry_and_changes_nothing() {
    let mut inventory = host();
    let eth0 = target(Capability::Network, "eth0");
    assert_eq!(inventory.resolve(&eth0), Ok(ResolvedTarget { id: 0, capability: Capability::Network }));
    assert_eq!(inventory.resolve(&eth0), inventory.resolve(&eth0));
    assert_eq!(
        inventory.resolve(&target(Capability::Process, "eth0")),
        Err(TargetError::NotFound)
    );
    assert_eq!(inventory.resolve(&target(Capability::Network, "eth1")), Err(TargetError::NotFound));
    inventory.add(target(Capability::Network, "eth0"));
    inventory.add(target(Capability::Network, "eth1"));
    assert_eq!(inventory.resolve(&eth0), Ok(ResolvedTarget { id: 0, capability: Capability::Network }));
    assert_eq!(
        inventory.resolve(&target(Capability::Network, "eth1")),
        Ok(ResolvedTarget { id: 4, capability: Capability::Network })
    );
    assert_eq!(inventory.entries.len(), 5);
}

#[test]
fn errors_have_words_and_a_level() {
    assert_eq!(ChaosError::AlreadyRunning.message(), "a run is already in progress");
    assert_eq!(ChaosError::Target(TargetError::NotFound).message(), "target not found");
    assert_eq!(ChaosError::Revert.message(), "revert failed");
    assert!(ChaosError::Target(TargetError::PermissionDenied).is_local());
    assert!(ChaosError::Injector(InjectorError::AlreadyActive).is_local());
    assert!(ChaosError::Revert.is_local());
    assert!(!ChaosError::AlreadyRunning.is_local());
}
