//! The runner: one scenario from its first phase to its result.
//!
//! The runner does not run injections itself. Whoever drives it polls it
//! with the time; it answers with the injections to start and to cancel,
//! and is told how each one ended. It walks the phases in order and moves
//! on only when nothing of the phase at hand is live any more.
//!
//! States: idle; running a phase; and, at the end, completed, stopped or
//! failed. A runner runs one scenario at a time.

use crate::error::ChaosError;
use crate::executor::{least, InjectionOutcome};
use crate::result::{attempted_in, PhaseResult, ScenarioResult};
use crate::scenario::{
    injections_in, lemma_injections_grow, Injection, Phase, Scenario, SchedulingMode,
};
use crate::scheduler::{
    phase_runs, planned, running_phases, window_of, PhaseWindow, PlannedInjection, Scheduler,
};
use vstd::prelude::*;

verus! {

/// Where a runner stands.
#[derive(Clone, Copy, Debug, PartialEq, Eq, Structural)]
pub enum RunState {
    /// No run was started yet.
    Idle,
    /// A phase is running.
    Running { phase: usize },
    /// The last phase is over.
    Completed,
    /// A stop was asked for, and everything live was taken back.
    Stopped,
    /// The scenario could not be carried on with.
    Failed,
}

/// Where one injection of the phase at hand stands.
#[derive(Clone, Copy, Debug, PartialEq, Eq, Structural)]
pub enum Slot {
    /// Not started.
    Pending,
    /// Started, and not yet known to be over.
    Live,
    /// Over: its fault, if one was applied, has been dealt with.
    Over { succeeded: bool },
}

/// What the runner wants done.
#[derive(Clone, Copy, Debug, PartialEq, Eq, Structural)]
pub enum RunnerCommand {
    /// Start an injection of the phase at hand and hold it this long.
    Start { phase: usize, injection: usize, hold_ms: u64 },
    /// Have a live injection take its fault back now.
    Cancel { phase: usize, injection: usize },
}

/// What the caller gets for a run that has begun.
#[derive(Clone, Copy, Debug, PartialEq, Eq, Structural)]
pub struct RunHandle {
    pub started_at_ms: u64,
    /// How many phases will run.
    pub phases: usize,
}

/// A snapshot of a runner.
#[derive(Clone, Copy, Debug, PartialEq, Eq, Structural)]
pub struct RunStatus {
    pub is_running: bool,
    pub current_phase: Option<usize>,
    pub elapsed_ms: u64,
    pub total_ms: u64,
    pub started_at_ms: Option<u64>,
}

/// Whether an injection is live.
pub open spec fn live_in(slots: Seq<Slot>) -> bool {
    exists|i: int| 0 <= i < slots.len() && slots[i] is Live
}

/// Whether every injection is over.
pub open spec fn all_over(slots: Seq<Slot>) -> bool {
    forall|i: int| 0 <= i < slots.len() ==> slots[i] is Over
}

/// How many of the first `upto` injections are over with the given success.
pub open spec fn count_over(slots: Seq<Slot>, succeeded: bool, upto: int) -> nat
    decreases upto,
{
    if upto <= 0 {
        0
    } else {
        count_over(slots, succeeded, upto - 1) + if slots[upto - 1] == (Slot::Over { succeeded }) {
            1nat
        } else {
            0nat
        }
    }
}

/// The time since a start; none if the clock ran backwards.
pub open spec fn since(started_at_ms: u64, now_ms: u64) -> u64 {
    if now_ms >= started_at_ms {
        (now_ms - started_at_ms) as u64
    } else {
        0
    }
}

/// The result of a phase whose injections stand as the slots say.
pub open spec fn phase_result_of(
    result: PhaseResult,
    phase: Phase,
    slots: Seq<Slot>,
    took_ms: u64,
) -> bool {
    &&& result.name@ == phase.name@
    &&& result.duration_ms == took_ms
    &&& result.succeeded == count_over(slots, true, slots.len() as int)
    &&& result.failed == count_over(slots, false, slots.len() as int)
    &&& result.injection_count == result.succeeded + result.failed
}

fn any_live(slots: &Vec<Slot>) -> (live: bool)
    ensures
        live == live_in(slots@),
{
    let mut i: usize = 0;
    while i < slots.len()
        invariant
            0 <= i <= slots@.len(),
            forall|j: int| 0 <= j < i ==> !(slots@[j] is Live),
        decreases slots@.len() - i,
    {
        if let Slot::Live = slots[i] {
            return true;
        }
        i += 1;
    }
    false
}

fn every_over(slots: &Vec<Slot>) -> (over: bool)
    ensures
        over == all_over(slots@),
{
    let mut i: usize = 0;
    while i < slots.len()
        invariant
            0 <= i <= slots@.len(),
            forall|j: int| 0 <= j < i ==> slots@[j] is Over,
        decreases slots@.len() - i,
    {
        match slots[i] {
            Slot::Over { .. } => {},
            _ => {
                return false;
            },
        }
        i += 1;
    }
    true
}

proof fn lemma_counts_bounded(slots: Seq<Slot>, upto: int)
    requires
        0 <= upto <= slots.len(),
    ensures
        count_over(slots, true, upto) + count_over(slots, false, upto) <= upto,
    decreases upto,
{
    if upto > 0 {
        lemma_counts_bounded(slots, upto - 1);
    }
}

fn tally(slots: &Vec<Slot>) -> (counts: (u64, u64))
    ensures
        counts.0 == count_over(slots@, true, slots@.len() as int),
        counts.1 == count_over(slots@, false, slots@.len() as int),
        counts.0 + counts.1 <= slots@.len(),
{
    let mut ok: u64 = 0;
    let mut bad: u64 = 0;
    let mut i: usize = 0;
    while i < slots.len()
        invariant
            0 <= i <= slots@.len(),
            ok == count_over(slots@, true, i as int),
            bad == count_over(slots@, false, i as int),
            ok + bad <= i,
        decreases slots@.len() - i,
    {
        match slots[i] {
            Slot::Over { succeeded: true } => {
                ok = ok + 1;
            },
            Slot::Over { succeeded: false } => {
                bad = bad + 1;
            },
            _ => {},
        }
        i += 1;
    }
    (ok, bad)
}

fn cancel_all(slots: &Vec<Slot>, phase: usize) -> (commands: Vec<RunnerCommand>)
    ensures
        commands@.no_duplicates(),
        forall|c: int|
            0 <= c < commands@.len() ==> (#[trigger] commands@[c] matches RunnerCommand::Cancel {
                phase: p,
                injection,
            } && p == phase && injection < slots@.len() && slots@[injection as int] is Live),
        forall|i: int|
            0 <= i < slots@.len() && slots@[i] is Live ==> commands@.contains(
                RunnerCommand::Cancel { phase, injection: i as usize },
            ),
{
    let mut commands: Vec<RunnerCommand> = Vec::new();
    let mut i: usize = 0;
    while i < slots.len()
        invariant
            0 <= i <= slots@.len(),
            commands@.no_duplicates(),
            forall|c: int|
                0 <= c < commands@.len() ==> (#[trigger] commands@[c] matches RunnerCommand::Cancel {
                    injection,
                    ..
                } && injection < i),
            forall|c: int|
                0 <= c < commands@.len()
                    ==> (#[trigger] commands@[c] matches RunnerCommand::Cancel {
                    phase: p,
                    injection,
                } && p == phase && injection < slots@.len() && slots@[injection as int] is Live),
            forall|j: int|
                0 <= j < i && slots@[j] is Live ==> commands@.contains(
                    RunnerCommand::Cancel { phase, injection: j as usize },
                ),
        decreases slots@.len() - i,
    {
        if let Slot::Live = slots[i] {
            let ghost before = commands@;
            commands.push(RunnerCommand::Cancel { phase, injection: i });
            proof {
                assert(commands@[before.len() as int] == (RunnerCommand::Cancel {
                    phase,
                    injection: i,
                }));
                assert forall|c: int| 0 <= c < before.len() implies commands@[c] == before[c] by {}
                assert forall|x: int, y: int|
                    0 <= x < commands@.len() && 0 <= y < commands@.len() && x != y implies commands@[x]
                    != commands@[y] by {
                    if x < before.len() {
                        assert(commands@[x] == before[x]);
                    }
                    if y < before.len() {
                        assert(commands@[y] == before[y]);
                    }
                }
                assert forall|j: int| 0 <= j < i + 1
                    && slots@[j] is Live implies commands@.contains(
                    RunnerCommand::Cancel { phase, injection: j as usize },
                ) by {
                    if j < i {
                        let c = RunnerCommand::Cancel { phase, injection: j as usize };
                        let w = choose|w: int| 0 <= w < before.len() && before[w] == c;
                        assert(commands@[w] == c);
                    }
                }
            }
        }
        i += 1;
    }
    commands
}

fn pending_slots(n: usize) -> (slots: Vec<Slot>)
    ensures
        slots@.len() == n,
        forall|i: int| 0 <= i < n ==> slots@[i] is Pending,
{
    let mut slots: Vec<Slot> = Vec::new();
    let mut i: usize = 0;
    while i < n
        invariant
            0 <= i <= n,
            slots@.len() == i,
            forall|j: int| 0 <= j < i ==> slots@[j] is Pending,
        decreases n - i,
    {
        slots.push(Slot::Pending);
        i += 1;
    }
    slots
}

/// What a poll finds to be due.
pub enum Due {
    /// Nothing runs, or it is too early for the phase at hand, or a
    /// sequential phase has an injection live.
    Nothing,
    /// Live injections stand in the way of leaving the phase.
    CancelLive { phase: usize },
    /// The phase at hand is over and nothing in it is live.
    Leave { phase: usize },
    /// Injections may be started, this far into the phase and with this
    /// much of it left.
    StartDue { phase: usize, into_ms: u64, left_ms: u64 },
}

/// The place of the first injection from `from` on that waits, or the
/// number of injections if none does.
pub open spec fn first_pending(slots: Seq<Slot>, from: int) -> int
    decreases slots.len() - from,
{
    if from < 0 || from >= slots.len() {
        slots.len() as int
    } else if slots[from] is Pending {
        from
    } else {
        first_pending(slots, from + 1)
    }
}

/// The slots after the injections that are due were started: in a
/// concurrent phase every one that waits and is due; in a sequential phase
/// the first that waits, if it is due and none is live.
pub open spec fn started_slots(
    slots: Seq<Slot>,
    plan: Seq<PlannedInjection>,
    mode: SchedulingMode,
    into_ms: u64,
) -> Seq<Slot> {
    match mode {
        SchedulingMode::Concurrent => Seq::new(
            slots.len(),
            |i: int|
                if slots[i] is Pending && into_ms >= plan[i].offset_ms {
                    Slot::Live
                } else {
                    slots[i]
                },
        ),
        SchedulingMode::Sequential => {
            let next = first_pending(slots, 0);
            if !live_in(slots) && next < slots.len() && into_ms >= plan[next].offset_ms {
                slots.update(next, Slot::Live)
            } else {
                slots
            }
        },
    }
}

/// The runner of scenarios.
pub struct ScenarioRunner {
    state: RunState,
    scenario: Scenario,
    windows: Vec<PhaseWindow>,
    lines: Vec<PlannedInjection>,
    slots: Vec<Slot>,
    results: Vec<PhaseResult>,
    total: u64,
    started_at_ms: u64,
    entered_ms: u64,
    finished_ms: u64,
    stop: bool,
}

impl ScenarioRunner {
    /// Where the runner stands.
    pub closed spec fn state(&self) -> RunState {
        self.state
    }

    /// The scenario that runs, or ran last.
    pub closed spec fn scenario(&self) -> Scenario {
        self.scenario
    }

    /// Where the injections of the phase at hand stand.
    pub closed spec fn slots(&self) -> Seq<Slot> {
        self.slots@
    }

    /// The results of the phases that are over, in phase order.
    pub closed spec fn results(&self) -> Seq<PhaseResult> {
        self.results@
    }

    /// Whether a stop was asked for.
    pub closed spec fn stop_requested(&self) -> bool {
        self.stop
    }

    /// When the run began.
    pub closed spec fn started_at(&self) -> u64 {
        self.started_at_ms
    }

    /// The windows of the phases that run.
    pub closed spec fn windows(&self) -> Seq<PhaseWindow> {
        self.windows@
    }

    /// The plan of the phase at hand.
    pub closed spec fn plan(&self) -> Seq<PlannedInjection> {
        self.lines@
    }

    /// How far into the run the phase at hand was entered.
    pub closed spec fn entered(&self) -> u64 {
        self.entered_ms
    }

    /// How far into the run the last phase was left.
    pub closed spec fn finished(&self) -> u64 {
        self.finished_ms
    }

    /// Whether a run is in progress.
    pub open spec fn running(&self) -> bool {
        self.state() is Running
    }

    /// What a poll at a given time finds to be due.
    pub open spec fn due_now(&self, now_ms: u64) -> Due {
        match self.state() {
            RunState::Running { phase } => {
                let elapsed = since(self.started_at(), now_ms);
                let window = self.windows()[phase as int];
                if self.stop_requested() || elapsed >= window.end_ms {
                    if live_in(self.slots()) {
                        Due::CancelLive { phase }
                    } else {
                        Due::Leave { phase }
                    }
                } else if all_over(self.slots()) {
                    Due::Leave { phase }
                } else if elapsed < window.start_ms {
                    Due::Nothing
                } else {
                    Due::StartDue {
                        phase,
                        into_ms: (elapsed - window.start_ms) as u64,
                        left_ms: (window.end_ms - elapsed) as u64,
                    }
                }
            },
            _ => Due::Nothing,
        }
    }

    /// The runner is in order: while a phase runs it is one of the phases
    /// that the schedule lets run, the plan at hand is that phase's plan,
    /// a sequential phase has one injection live at most, and there is one
    /// sound result for each phase that is over.
    pub closed spec fn wf(&self) -> bool {
        &&& self.total == attempted_in(self.results@, self.results@.len() as int)
        &&& forall|k: int| 0 <= k < self.results@.len() ==> (#[trigger] self.results@[k]).sound()
        &&& self.state matches RunState::Running { phase } ==> {
            &&& self.scenario.valid()
            &&& phase < self.windows@.len() <= self.scenario.phases@.len()
            &&& self.windows@.len() == running_phases(
                self.scenario.phases@,
                self.scenario.duration_ms as nat,
                self.scenario.phases@.len() as int,
            )
            &&& self.total <= injections_in(self.scenario.phases@, phase as int)
            &&& forall|k: int|
                0 <= k < self.windows@.len() ==> #[trigger] self.windows@[k] == window_of(
                    self.scenario.phases@,
                    self.scenario.duration_ms as nat,
                    k,
                ) && phase_runs(self.scenario.phases@, self.scenario.duration_ms as nat, k)
            &&& self.windows@[phase as int].start_ms <= self.windows@[phase as int].end_ms
            &&& self.slots@.len() == self.scenario.phases@[phase as int].injections@.len()
            &&& self.lines@.len() == self.slots@.len()
            &&& forall|i: int|
                0 <= i < self.lines@.len() ==> #[trigger] self.lines@[i] == planned(
                    self.scenario.phases@[phase as int],
                    self.windows@[phase as int].budget_spec(),
                    i,
                )
            &&& self.scenario.phases@[phase as int].mode == SchedulingMode::Sequential ==> forall|
                i: int,
                j: int,
            |
                0 <= i < j < self.slots@.len() ==> !(self.slots@[i] is Live
                    && self.slots@[j] is Live)
        }
    }

    /// While a phase runs, it is one that starts before the scenario's
    /// total duration is over: a phase that would start at or after it is
    /// never entered.
    pub proof fn lemma_running_phase_is_scheduled(&self)
        requires
            self.wf(),
        ensures
            self.state() matches RunState::Running { phase } ==> phase_runs(
                self.scenario().phases@,
                self.scenario().duration_ms as nat,
                phase as int,
            ),
            self.state() matches RunState::Running { phase } ==> self.slots().len()
                == self.scenario().phases@[phase as int].injections@.len(),
    {
    }

    /// While a phase runs, its window is the one the schedule gives it,
    /// and the plan at hand is the plan of that phase for the time its
    /// window holds.
    pub proof fn lemma_plan_is_scheduled(&self)
        requires
            self.wf(),
        ensures
            self.state() matches RunState::Running { phase } ==> {
                &&& phase < self.windows().len() <= self.scenario().phases@.len()
                &&& forall|k: int|
                    0 <= k < self.scenario().phases@.len() ==> (phase_runs(
                        self.scenario().phases@,
                        self.scenario().duration_ms as nat,
                        k,
                    ) <==> k < self.windows().len())
                &&& self.windows()[phase as int] == window_of(
                    self.scenario().phases@,
                    self.scenario().duration_ms as nat,
                    phase as int,
                )
                &&& self.plan().len() == self.slots().len()
                &&& forall|i: int|
                    0 <= i < self.plan().len() ==> #[trigger] self.plan()[i] == planned(
                        self.scenario().phases@[phase as int],
                        self.windows()[phase as int].budget_spec(),
                        i,
                    )
            },
    {
        if self.state is Running {
            crate::scheduler::lemma_running_prefix(
                self.scenario.phases@,
                self.scenario.duration_ms as nat,
                self.scenario.phases@.len() as int,
            );
        }
    }

    /// Phases keep their order. Whatever the time, a poll starts
    /// injections only in the phase at hand, and never after a stop was
    /// asked for; and it leaves the phase at hand only when none of its
    /// injections is live. So no injection of a phase starts before every
    /// injection of the phase before it is over or was never started.
    pub proof fn lemma_phases_in_order(&self, now_ms: u64)
        requires
            self.wf(),
        ensures
            self.due_now(now_ms) matches Due::StartDue { phase, .. } ==> self.state() == (
            RunState::Running { phase }) && !self.stop_requested(),
            self.due_now(now_ms) matches Due::Leave { phase } ==> self.state() == (
            RunState::Running { phase }) && !live_in(self.slots()),
            self.due_now(now_ms) matches Due::CancelLive { phase } ==> self.state() == (
            RunState::Running { phase }) && live_in(self.slots()),
    {
    }

    /// In a sequential phase no two injections are live at once.
    pub proof fn lemma_sequential_one_live(&self, i: int, j: int)
        requires
            self.wf(),
            self.state() matches RunState::Running { phase }
                && self.scenario().phases@[phase as int].mode
                == SchedulingMode::Sequential,
            0 <= i < j < self.slots().len(),
        ensures
            !(self.slots()[i] is Live && self.slots()[j] is Live),
    {
    }

    /// The runner has not run anything: it is idle, no stop is asked for,
    /// it holds no scenario but an empty one of no duration, no schedule and
    /// no plan, no injection and no result, and its clock stands at nothing.
    pub open spec fn fresh(&self) -> bool {
        &&& self.state() == RunState::Idle
        &&& !self.stop_requested()
        &&& self.scenario().name@.len() == 0
        &&& self.scenario().description is None
        &&& self.scenario().duration_ms == 0
        &&& self.scenario().phases@.len() == 0
        &&& self.windows().len() == 0
        &&& self.plan().len() == 0
        &&& self.slots().len() == 0
        &&& self.results().len() == 0
        &&& self.started_at() == 0
        &&& self.entered() == 0
        &&& self.finished() == 0
    }

    /// A runner that has not run anything.
    pub fn new() -> (runner: Self)
        ensures
            runner.wf(),
            runner.fresh(),
    {
        ScenarioRunner {
            state: RunState::Idle,
            scenario: Scenario {
                name: String::new(),
                description: None,
                duration_ms: 0,
                phases: Vec::new(),
            },
            windows: Vec::new(),
            lines: Vec::new(),
            slots: Vec::new(),
            results: Vec::new(),
            total: 0,
            started_at_ms: 0,
            entered_ms: 0,
            finished_ms: 0,
            stop: false,
        }
    }

    /// A runner that has not run anything, as `new` gives it.
    pub fn with_defaults() -> (runner: Self)
        ensures
            runner.wf(),
            runner.fresh(),
    {
        Self::new()
    }

    /// Where the runner stands.
    pub fn current(&self) -> (state: RunState)
        ensures
            state == self.state(),
    {
        self.state
    }

    /// Whether a run is in progress.
    pub fn is_running(&self) -> (running: bool)
        ensures
            running == self.running(),
    {
        match self.state {
            RunState::Running { .. } => true,
            _ => false,
        }
    }

    /// Whether a stop was asked for.
    pub fn should_stop(&self) -> (stop: bool)
        ensures
            stop == self.stop_requested(),
    {
        self.stop
    }

    /// Begins a run. On a runner that is running, nothing happens but the
    /// refusal: the run in progress is not touched. A scenario that cannot
    /// be scheduled leaves the runner failed. Otherwise the first phase is
    /// entered; with no phase to run at all, the run is completed at once.
    pub fn start(&mut self, scenario: Scenario, now_ms: u64) -> (begun: Result<RunHandle, ChaosError>)
        requires
            old(self).wf(),
        ensures
            final(self).wf(),
            old(self).running()
                ==> begun == Err::<RunHandle, ChaosError>(ChaosError::AlreadyRunning)
                && *final(self) == *old(self),
            !old(self).running() && !scenario.valid() ==> (begun matches Err(
                ChaosError::Scheduling(e),
            ) && crate::scenario::scheduling_error(scenario.phases@) == Some(e)
                && final(self).state() == RunState::Failed
                && final(self).results() == old(self).results()),
            !old(self).running() && scenario.valid() ==> (begun matches Ok(handle)
                && handle.started_at_ms == now_ms && handle.phases == final(self).windows().len()
                && final(self).scenario() == scenario && final(self).started_at() == now_ms
                && final(self).entered() == 0 && final(self).finished() == 0
                && !final(self).stop_requested() && final(self).results().len() == 0
                && final(self).state() == if phase_runs(
                scenario.phases@,
                scenario.duration_ms as nat,
                0,
            ) {
                RunState::Running { phase: 0 }
            } else {
                RunState::Completed
            }),
            !old(self).running() && final(self).state() is Running ==> forall|i: int|
                0 <= i < final(self).slots().len() ==> final(self).slots()[i] is Pending,
    {
        if self.is_running() {
            return Err(ChaosError::AlreadyRunning);
        }
        match scenario.validate() {
            Err(e) => {
                self.state = RunState::Failed;
                return Err(ChaosError::Scheduling(e));
            },
            Ok(_) => {},
        }
        let windows = Scheduler::windows(&scenario);
        let phases = windows.len();
        self.results = Vec::new();
        self.total = 0;
        self.started_at_ms = now_ms;
        self.entered_ms = 0;
        self.finished_ms = 0;
        self.stop = false;
        if phases == 0 {
            self.scenario = scenario;
            self.windows = windows;
            self.lines = Vec::new();
            self.slots = Vec::new();
            self.state = RunState::Completed;
        } else {
            let first = windows[0];
            proof {
                crate::scheduler::lemma_duration_clamping(
                    scenario.phases@,
                    scenario.duration_ms as nat,
                    0,
                );
            }
            let lines = Scheduler::plan(&scenario.phases[0], first.budget());
            self.slots = pending_slots(lines.len());
            self.lines = lines;
            self.scenario = scenario;
            self.windows = windows;
            self.state = RunState::Running { phase: 0 };
        }
        Ok(RunHandle { started_at_ms: now_ms, phases })
    }

    /// Asks the run to stop. Asking again changes nothing, and neither
    /// does asking while nothing runs.
    pub fn request_stop(&mut self)
        requires
            old(self).wf(),
        ensures
            final(self).wf(),
            final(self).state() == old(self).state(),
            final(self).slots() == old(self).slots(),
            final(self).results() == old(self).results(),
            final(self).scenario() == old(self).scenario(),
            final(self).stop_requested() == (old(self).stop_requested() || old(self).running()),
            final(self).started_at() == old(self).started_at(),
            final(self).entered() == old(self).entered(),
            final(self).finished() == old(self).finished(),
            final(self).plan() == old(self).plan(),
            final(self).windows() == old(self).windows(),
            !old(self).running() ==> *final(self) == *old(self),
    {
        if self.is_running() {
            self.stop = true;
        }
    }

    /// Gives the run up for an error that it cannot recover from. Only a
    /// run in progress can fail.
    pub fn fail(&mut self)
        requires
            old(self).wf(),
        ensures
            final(self).wf(),
            final(self).state() == if old(self).running() {
                RunState::Failed
            } else {
                old(self).state()
            },
            final(self).results() == old(self).results(),
            final(self).scenario() == old(self).scenario(),
            final(self).slots() == old(self).slots(),
            final(self).stop_requested() == old(self).stop_requested(),
            final(self).started_at() == old(self).started_at(),
            final(self).finished() == old(self).finished(),
    {
        if self.is_running() {
            self.state = RunState::Failed;
        }
    }

    /// Notes how an injection ended. It counts if the injection belongs to
    /// the phase at hand and is live; anything else is left aside. Says
    /// whether it counted.
    pub fn record(
        &mut self,
        phase: usize,
        injection: usize,
        outcome: InjectionOutcome,
    ) -> (counted: bool)
        requires
            old(self).wf(),
        ensures
            final(self).wf(),
            final(self).state() == old(self).state(),
            final(self).results() == old(self).results(),
            final(self).stop_requested() == old(self).stop_requested(),
            final(self).scenario() == old(self).scenario(),
            final(self).started_at() == old(self).started_at(),
            final(self).entered() == old(self).entered(),
            final(self).finished() == old(self).finished(),
            final(self).plan() == old(self).plan(),
            final(self).windows() == old(self).windows(),
            counted == (old(self).state() == (RunState::Running { phase })
                && injection < old(self).slots().len()
                && old(self).slots()[injection as int] is Live),
            final(self).slots() == if counted {
                old(self).slots().update(
                    injection as int,
                    Slot::Over { succeeded: outcome.succeeded_spec() },
                )
            } else {
                old(self).slots()
            },
    {
        match self.state {
            RunState::Running { phase: at } => {
                if at != phase || injection >= self.slots.len() {
                    return false;
                }
                match self.slots[injection] {
                    Slot::Live => {
                        self.slots.set(injection, Slot::Over { succeeded: outcome.succeeded() });
                        true
                    },
                    _ => false,
                }
            },
            _ => false,
        }
    }

    /// Looks at the time and says what to do. What is to be done follows
    /// from `due_now`:
    ///
    /// - `Nothing`: no command, and the runner stays as it is.
    /// - `CancelLive`: one cancel for each live injection, each once, and
    ///   no other command; the runner stays as it is.
    /// - `Leave`: no command. The phase at hand is closed with its result,
    ///   and the run is stopped if a stop was asked for, else moves on to
    ///   the next phase that runs, else is completed.
    /// - `StartDue`: in a concurrent phase, one start for each injection
    ///   that waits and is due; in a sequential phase, while none is live,
    ///   a start for the first that waits if it is due. No start comes
    ///   twice. Each is held for what its plan says, cut off at the end of
    ///   the phase. Those started are live afterwards, and nothing else
    ///   changes.
    ///
    /// So an injection is started only in the phase at hand, never after a
    /// stop was asked for, and the phase at hand changes only when nothing
    /// in it is live.
    pub fn poll(&mut self, now_ms: u64) -> (commands: Vec<RunnerCommand>)
        requires
            old(self).wf(),
        ensures
            final(self).wf(),
            final(self).scenario() == old(self).scenario(),
            final(self).stop_requested() == old(self).stop_requested(),
            final(self).started_at() == old(self).started_at(),
            final(self).windows() == old(self).windows(),
            match old(self).due_now(now_ms) {
                Due::Nothing => commands@.len() == 0 && *final(self) == *old(self),
                Due::CancelLive { phase } => {
                    &&& commands@.no_duplicates()
                    &&& final(self).state() == old(self).state()
                    &&& final(self).entered() == old(self).entered()
                    &&& final(self).finished() == old(self).finished()
                    &&& final(self).slots() == old(self).slots()
                    &&& final(self).results() == old(self).results()
                    &&& final(self).plan() == old(self).plan()
                    &&& forall|c: int|
                        0 <= c < commands@.len() ==> (#[trigger] commands@[c]
                            matches RunnerCommand::Cancel { phase: p, injection } && p == phase
                            && injection < old(self).slots().len()
                                && old(self).slots()[injection as int] is Live)
                    &&& forall|i: int|
                        0 <= i < old(self).slots().len() && old(self).slots()[i] is Live
                            ==> commands@.contains(
                            RunnerCommand::Cancel { phase, injection: i as usize },
                        )
                },
                Due::Leave { phase } => {
                    &&& commands@.len() == 0
                    &&& final(self).state() == if old(self).stop_requested() {
                        RunState::Stopped
                    } else if phase + 1 < old(self).windows().len() {
                        RunState::Running { phase: (phase + 1) as usize }
                    } else {
                        RunState::Completed
                    }
                    &&& final(self).results().len() == old(self).results().len() + 1
                    &&& final(self).results().drop_last() == old(self).results()
                    &&& phase_result_of(
                        final(self).results().last(),
                        old(self).scenario().phases@[phase as int],
                        old(self).slots(),
                        since(old(self).entered(), since(old(self).started_at(), now_ms)),
                    )
                    &&& final(self).entered() == since(old(self).started_at(), now_ms)
                    &&& final(self).finished() == since(old(self).started_at(), now_ms)
                    &&& final(self).state() is Running ==> forall|i: int|
                        0 <= i < final(self).slots().len() ==> final(self).slots()[i] is Pending
                },
                Due::StartDue { phase, into_ms, left_ms } => {
                    &&& commands@.no_duplicates()
                    &&& final(self).state() == old(self).state()
                    &&& final(self).entered() == old(self).entered()
                    &&& final(self).finished() == old(self).finished()
                    &&& final(self).results() == old(self).results()
                    &&& final(self).plan() == old(self).plan()
                    &&& final(self).slots() == started_slots(
                        old(self).slots(),
                        old(self).plan(),
                        old(self).scenario().phases@[phase as int].mode,
                        into_ms,
                    )
                    &&& forall|c: int|
                        0 <= c < commands@.len() ==> (#[trigger] commands@[c]
                            matches RunnerCommand::Start { phase: p, injection, hold_ms } && p
                            == phase && injection < old(self).slots().len()
                                && old(self).slots()[injection as int] is Pending
                                && final(self).slots()[injection as int] is Live
                                && hold_ms == least(
                            old(self).plan()[injection as int].hold_ms,
                            left_ms,
                        ))
                    &&& forall|i: int|
                        0 <= i < old(self).slots().len() && old(self).slots()[i] is Pending
                            && final(self).slots()[i] is Live ==> commands@.contains(
                            RunnerCommand::Start {
                                phase,
                                injection: i as usize,
                                hold_ms: least(old(self).plan()[i].hold_ms, left_ms),
                            },
                        )
                },
            },
    {
        let mut commands: Vec<RunnerCommand> = Vec::new();
        let phase = match self.state {
            RunState::Running { phase } => phase,
            _ => {
                return commands;
            },
        };
        let elapsed: u64 = if now_ms >= self.started_at_ms {
            now_ms - self.started_at_ms
        } else {
            0
        };
        let window = self.windows[phase];
        let live = any_live(&self.slots);
        if self.stop || elapsed >= window.end_ms {
            if live {
                return cancel_all(&self.slots, phase);
            }
            self.leave_phase(phase, elapsed);
            return commands;
        }
        if every_over(&self.slots) {
            assert(!live_in(self.slots@));
            self.leave_phase(phase, elapsed);
            return commands;
        }
        if elapsed < window.start_ms {
            return commands;
        }
        let into: u64 = elapsed - window.start_ms;
        let left: u64 = window.end_ms - elapsed;
        match self.scenario.phases[phase].mode {
            SchedulingMode::Sequential => {
                if live {
                    assert(self.slots@ =~= started_slots(
                        self.slots@,
                        self.lines@,
                        SchedulingMode::Sequential,
                        into,
                    ));
                    commands
                } else {
                    self.start_next(phase, into, left)
                }
            },
            SchedulingMode::Concurrent => self.start_all_due(phase, into, left),
        }
    }

    /// In a sequential phase with nothing live: starts the first
    /// injection that waits, if it is due.
    fn start_next(&mut self, phase: usize, into: u64, left: u64) -> (commands: Vec<RunnerCommand>)
        requires
            old(self).wf(),
            old(self).state == (RunState::Running { phase }),
            old(self).scenario.phases@[phase as int].mode == SchedulingMode::Sequential,
            !live_in(old(self).slots@),
        ensures
            final(self).wf(),
            commands@.no_duplicates(),
            *final(self) == (ScenarioRunner { slots: final(self).slots, ..*old(self) }),
            final(self).slots@ == started_slots(
                old(self).slots@,
                old(self).lines@,
                SchedulingMode::Sequential,
                into,
            ),
            forall|c: int|
                0 <= c < commands@.len() ==> (#[trigger] commands@[c] matches RunnerCommand::Start {
                    phase: p,
                    injection,
                    hold_ms,
                } && p == phase && injection < old(self).slots@.len()
                    && old(self).slots@[injection as int] is Pending
                    && final(self).slots@[injection as int] is Live
                    && hold_ms == least(old(self).lines@[injection as int].hold_ms, left)),
            forall|i: int|
                0 <= i < old(self).slots@.len() && old(self).slots@[i] is Pending
                    && final(self).slots@[i] is Live ==> commands@.contains(
                    RunnerCommand::Start {
                        phase,
                        injection: i as usize,
                        hold_ms: least(old(self).lines@[i].hold_ms, left),
                    },
                ),
    {
        let mut commands: Vec<RunnerCommand> = Vec::new();
        let ghost before = self.slots@;
        let mut i: usize = 0;
        while i < self.slots.len()
            invariant
                0 <= i <= before.len(),
                self.slots@ == before,
                before == old(self).slots@,
                commands@.len() == 0,
                *self == *old(self),
                old(self).wf(),
                old(self).state == (RunState::Running { phase }),
                !live_in(before),
                forall|j: int| 0 <= j < i ==> !(before[j] is Pending),
                first_pending(before, 0) == first_pending(before, i as int),
            decreases before.len() - i,
        {
            match self.slots[i] {
                Slot::Pending => {
                    let line = self.lines[i];
                    if into >= line.offset_ms {
                        let hold_ms: u64 = if line.hold_ms <= left {
                            line.hold_ms
                        } else {
                            left
                        };
                        self.slots.set(i, Slot::Live);
                        commands.push(RunnerCommand::Start { phase, injection: i, hold_ms });
                        proof {
                            assert(self.slots@ =~= before.update(i as int, Slot::Live));
                            assert(commands@[0] == (RunnerCommand::Start {
                                phase,
                                injection: i,
                                hold_ms,
                            }));
                            assert forall|a: int, b: int|
                                0 <= a < b < self.slots@.len() implies !(self.slots@[a] is Live
                                && self.slots@[b] is Live) by {
                                if self.slots@[a] is Live && self.slots@[b] is Live {
                                    if a != i {
                                        assert(before[a] is Live);
                                    } else {
                                        assert(before[b] is Live);
                                    }
                                }
                            }
                            assert forall|k: int|
                                0 <= k < before.len() && before[k] is Pending
                                    && self.slots@[k] is Live implies commands@.contains(
                                RunnerCommand::Start {
                                    phase,
                                    injection: k as usize,
                                    hold_ms: least(self.lines@[k].hold_ms, left),
                                },
                            ) by {
                                assert(k == i);
                            }
                        }
                    }
                    return commands;
                },
                _ => {},
            }
            i += 1;
        }
        commands
    }

    /// In a concurrent phase: starts every injection that waits and is due.
    fn start_all_due(&mut self, phase: usize, into: u64, left: u64) -> (commands: Vec<RunnerCommand>)
        requires
            old(self).wf(),
            old(self).state == (RunState::Running { phase }),
            old(self).scenario.phases@[phase as int].mode == SchedulingMode::Concurrent,
        ensures
            final(self).wf(),
            commands@.no_duplicates(),
            *final(self) == (ScenarioRunner { slots: final(self).slots, ..*old(self) }),
            final(self).slots@ == started_slots(
                old(self).slots@,
                old(self).lines@,
                SchedulingMode::Concurrent,
                into,
            ),
            forall|c: int|
                0 <= c < commands@.len() ==> (#[trigger] commands@[c] matches RunnerCommand::Start {
                    phase: p,
                    injection,
                    hold_ms,
                } && p == phase && injection < old(self).slots@.len()
                    && old(self).slots@[injection as int] is Pending
                    && final(self).slots@[injection as int] is Live
                    && hold_ms == least(old(self).lines@[injection as int].hold_ms, left)),
            forall|i: int|
                0 <= i < old(self).slots@.len() && old(self).slots@[i] is Pending
                    && final(self).slots@[i] is Live ==> commands@.contains(
                    RunnerCommand::Start {
                        phase,
                        injection: i as usize,
                        hold_ms: least(old(self).lines@[i].hold_ms, left),
                    },
                ),
    {
        let mut commands: Vec<RunnerCommand> = Vec::new();
        let ghost before = self.slots@;
        let mut i: usize = 0;
        while i < self.slots.len()
            invariant
                0 <= i <= before.len(),
                self.slots@.len() == before.len(),
                self.lines@.len() == before.len(),
                before == old(self).slots@,
                *self == (ScenarioRunner { slots: self.slots, ..*old(self) }),
                old(self).wf(),
                old(self).state == (RunState::Running { phase }),
                old(self).scenario.phases@[phase as int].mode == SchedulingMode::Concurrent,
                commands@.no_duplicates(),
                forall|j: int| i <= j < before.len() ==> self.slots@[j] == before[j],
                forall|j: int|
                    0 <= j < i ==> self.slots@[j] == if before[j] is Pending && into
                        >= self.lines@[j].offset_ms {
                        Slot::Live
                    } else {
                        before[j]
                    },
                forall|c: int|
                    0 <= c < commands@.len()
                        ==> (#[trigger] commands@[c] matches RunnerCommand::Start {
                        phase: p,
                        injection,
                        hold_ms,
                    } && p == phase && injection < i && before[injection as int] is Pending
                        && self.slots@[injection as int] is Live && hold_ms == least(
                        self.lines@[injection as int].hold_ms,
                        left,
                    )),
                forall|j: int|
                    0 <= j < i && before[j] is Pending && self.slots@[j] is Live
                        ==> commands@.contains(
                        RunnerCommand::Start {
                            phase,
                            injection: j as usize,
                            hold_ms: least(self.lines@[j].hold_ms, left),
                        },
                    ),
            decreases before.len() - i,
        {
            let line = self.lines[i];
            if let Slot::Pending = self.slots[i] {
                if into >= line.offset_ms {
                    let hold_ms: u64 = if line.hold_ms <= left {
                        line.hold_ms
                    } else {
                        left
                    };
                    let ghost earlier = commands@;
                    self.slots.set(i, Slot::Live);
                    commands.push(RunnerCommand::Start { phase, injection: i, hold_ms });
                    proof {
                        assert(commands@[earlier.len() as int] == (RunnerCommand::Start {
                            phase,
                            injection: i,
                            hold_ms,
                        }));
                        assert forall|x: int, y: int|
                            0 <= x < commands@.len() && 0 <= y < commands@.len() && x
                                != y implies commands@[x] != commands@[y] by {
                            if x < earlier.len() {
                                assert(commands@[x] == earlier[x]);
                            }
                            if y < earlier.len() {
                                assert(commands@[y] == earlier[y]);
                            }
                        }
                        assert forall|j: int|
                            0 <= j < i + 1 && before[j] is Pending
                                && self.slots@[j] is Live implies commands@.contains(
                            RunnerCommand::Start {
                                phase,
                                injection: j as usize,
                                hold_ms: least(self.lines@[j].hold_ms, left),
                            },
                        ) by {
                            if j < i {
                                let c = RunnerCommand::Start {
                                    phase,
                                    injection: j as usize,
                                    hold_ms: least(self.lines@[j].hold_ms, left),
                                };
                                let w = choose|w: int| 0 <= w < earlier.len() && earlier[w] == c;
                                assert(commands@[w] == c);
                            }
                        }
                    }
                }
            }
            i += 1;
        }
        assert(self.slots@ =~= started_slots(
            before,
            self.lines@,
            SchedulingMode::Concurrent,
            into,
        ));
        commands
    }

    /// Closes the phase at hand with its result and moves on: to `Stopped`
    /// if a stop was asked for, else to the next phase that runs, else to
    /// `Completed`.
    fn leave_phase(&mut self, phase: usize, elapsed: u64)
        requires
            old(self).wf(),
            old(self).state == (RunState::Running { phase }),
            !live_in(old(self).slots@),
        ensures
            final(self).wf(),
            final(self).scenario == old(self).scenario,
            final(self).stop == old(self).stop,
            final(self).started_at_ms == old(self).started_at_ms,
            final(self).state != old(self).state,
            !(final(self).state is Failed),
            ({
                &&& final(self).results@.len() == old(self).results@.len() + 1
                &&& final(self).results@.drop_last() == old(self).results@
                &&& phase_result_of(
                    final(self).results@.last(),
                    old(self).scenario.phases@[phase as int],
                    old(self).slots@,
                    since(old(self).entered_ms, elapsed),
                )
            }),
            final(self).entered_ms == elapsed,
            final(self).finished_ms == elapsed,
            final(self).windows == old(self).windows,
            final(self).state == if old(self).stop {
                RunState::Stopped
            } else if phase + 1 < old(self).windows@.len() {
                RunState::Running { phase: (phase + 1) as usize }
            } else {
                RunState::Completed
            },
            final(self).state is Running ==> forall|i: int|
                0 <= i < final(self).slots@.len() ==> final(self).slots@[i] is Pending,
    {
        let held: usize = self.slots.len();
        let (ok, bad) = tally(&self.slots);
        assert(ok + bad <= held);
        let count: u64 = ok + bad;
        proof {
            lemma_injections_grow(
                self.scenario.phases@,
                phase + 1,
                self.scenario.phases@.len() as int,
            );
        }
        let took: u64 = if elapsed >= self.entered_ms {
            elapsed - self.entered_ms
        } else {
            0
        };
        let result = PhaseResult {
            name: self.scenario.phases[phase].name.clone(),
            duration_ms: took,
            injection_count: count,
            succeeded: ok,
            failed: bad,
        };
        let ghost earlier = self.results@;
        self.results.push(result);
        self.total = self.total + count;
        proof {
            assert(self.results@.drop_last() =~= earlier);
            lemma_attempted_same(earlier, self.results@, earlier.len() as int);
        }
        self.entered_ms = elapsed;
        self.finished_ms = elapsed;
        let scheduled: usize = self.windows.len();
        if self.stop {
            self.state = RunState::Stopped;
        } else if phase + 1 < scheduled {
            let window = self.windows[phase + 1];
            proof {
                crate::scheduler::lemma_duration_clamping(
                    self.scenario.phases@,
                    self.scenario.duration_ms as nat,
                    phase + 1,
                );
            }
            let lines = Scheduler::plan(&self.scenario.phases[phase + 1], window.budget());
            self.slots = pending_slots(lines.len());
            self.lines = lines;
            self.state = RunState::Running { phase: phase + 1 };
        } else {
            self.state = RunState::Completed;
        }
    }

    /// An injection of the phase at hand, for whoever is to run it.
    pub fn injection(&self, phase: usize, injection: usize) -> (found: Option<Injection>)
        requires
            self.wf(),
        ensures
            found == if self.state() == (RunState::Running { phase }) && injection
                < self.slots().len() {
                Some(self.scenario().phases@[phase as int].injections@[injection as int])
            } else {
                None
            },
    {
        match self.state {
            RunState::Running { phase: at } => {
                if at == phase && injection < self.slots.len() {
                    Some(self.scenario.phases[phase].injections[injection].clone())
                } else {
                    None
                }
            },
            _ => None,
        }
    }

    /// The results of the phases that are over, in phase order.
    pub fn phase_results(&self) -> (results: Vec<PhaseResult>)
        ensures
            results@ == self.results(),
    {
        copy_phase_results(&self.results)
    }

    /// A snapshot of the runner at a time.
    pub fn status(&self, now_ms: u64) -> (status: RunStatus)
        requires
            self.wf(),
        ensures
            status.is_running == self.running(),
            status.current_phase == match self.state() {
                RunState::Running { phase } => Some(phase),
                _ => None,
            },
            status.total_ms == self.scenario().duration_ms,
            status.started_at_ms == if self.state() is Idle {
                None
            } else {
                Some(self.started_at())
            },
            status.elapsed_ms == if self.running() {
                since(self.started_at(), now_ms)
            } else {
                self.finished()
            },
    {
        let running = self.is_running();
        RunStatus {
            is_running: running,
            current_phase: match self.state {
                RunState::Running { phase } => Some(phase),
                _ => None,
            },
            elapsed_ms: if running {
                if now_ms >= self.started_at_ms {
                    now_ms - self.started_at_ms
                } else {
                    0
                }
            } else {
                self.finished_ms
            },
            total_ms: self.scenario.duration_ms,
            started_at_ms: match self.state {
                RunState::Idle => None,
                _ => Some(self.started_at_ms),
            },
        }
    }

    /// The result of the run, once it is completed or stopped: one entry
    /// for each phase that was left, in phase order, and their sum.
    pub fn result(&self, started_at_epoch_ms: i64) -> (result: Option<ScenarioResult>)
        requires
            self.wf(),
        ensures
            result is Some <==> (self.state() is Completed || self.state() is Stopped),
            result matches Some(r) ==> {
                &&& r.sound()
                &&& r.scenario_name@ == self.scenario().name@
                &&& r.started_at_ms == started_at_epoch_ms
                &&& r.total_duration_ms == self.finished()
                &&& r.phase_results@ == self.results()
            },
    {
        match self.state {
            RunState::Completed | RunState::Stopped => Some(
                ScenarioResult {
                    scenario_name: self.scenario.name.clone(),
                    started_at_ms: started_at_epoch_ms,
                    total_duration_ms: self.finished_ms,
                    total_injections: self.total,
                    phase_results: copy_phase_results(&self.results),
                },
            ),
            _ => None,
        }
    }
}

proof fn lemma_attempted_same(a: Seq<PhaseResult>, b: Seq<PhaseResult>, upto: int)
    requires
        0 <= upto <= a.len() <= b.len(),
        forall|k: int| 0 <= k < upto ==> a[k] == b[k],
    ensures
        attempted_in(a, upto) == attempted_in(b, upto),
    decreases upto,
{
    if upto > 0 {
        lemma_attempted_same(a, b, upto - 1);
    }
}

fn copy_phase_results(list: &Vec<PhaseResult>) -> (copy: Vec<PhaseResult>)
    ensures
        copy@ == list@,
{
    let mut copy: Vec<PhaseResult> = Vec::new();
    let mut i: usize = 0;
    while i < list.len()
        invariant
            0 <= i <= list@.len(),
            copy@ == list@.take(i as int),
        decreases list@.len() - i,
    {
        copy.push(list[i].clone());
        assert(list@.take(i as int).push(list@[i as int]) =~= list@.take(i + 1));
        i += 1;
    }
    assert(list@.take(list@.len() as int) =~= list@);
    copy
}

} // verus!
