//! The scheduler: pure functions from a scenario and a time to what should
//! run. Nothing here starts or stops a fault.
//!
//! Phase boundaries are the running sums of the phase durations, cut off at
//! the scenario's total duration. A phase whose start falls at or after the
//! total never runs; one that straddles the total is cut short at it.
//!
//! Inside a sequential phase the budget is divided evenly among the
//! injections, in whole milliseconds; the last injection absorbs the
//! remainder of the division.

use crate::scenario::{Injection, Phase, Scenario, SchedulingMode};
use vstd::prelude::*;

verus! {

/// The sum of the durations of the first `k` phases: where phase `k` starts,
/// counted from the start of the run.
pub open spec fn phase_start(phases: Seq<Phase>, k: int) -> nat
    decreases k,
{
    if k <= 0 {
        0
    } else {
        phase_start(phases, k - 1) + phases[k - 1].duration_ms as nat
    }
}

/// Whether phase `k` runs at all: it starts before the total duration is over.
pub open spec fn phase_runs(phases: Seq<Phase>, total_ms: nat, k: int) -> bool {
    0 <= k < phases.len() && phase_start(phases, k) < total_ms
}

/// Where phase `k` ends: at its own end or at the total, whichever is first.
pub open spec fn phase_end(phases: Seq<Phase>, total_ms: nat, k: int) -> nat {
    if phase_start(phases, k + 1) <= total_ms {
        phase_start(phases, k + 1)
    } else {
        total_ms
    }
}

/// How many phases run. Starts never decrease, so these are the first ones.
pub open spec fn running_phases(phases: Seq<Phase>, total_ms: nat, upto: int) -> nat
    decreases upto,
{
    if upto <= 0 {
        0
    } else if phase_runs(phases, total_ms, upto - 1) {
        running_phases(phases, total_ms, upto - 1) + 1
    } else {
        running_phases(phases, total_ms, upto - 1)
    }
}

/// The time span of one phase that runs, counted from the start of the run.
#[derive(Clone, Copy, Debug, PartialEq, Eq, Structural)]
pub struct PhaseWindow {
    pub phase: usize,
    pub start_ms: u64,
    pub end_ms: u64,
}

impl PhaseWindow {
    /// The time the phase has.
    pub open spec fn budget_spec(self) -> nat {
        (self.end_ms - self.start_ms) as nat
    }

    /// The time the phase has.
    pub fn budget(self) -> (b: u64)
        requires
            self.start_ms <= self.end_ms,
        ensures
            b == self.budget_spec(),
    {
        self.end_ms - self.start_ms
    }
}

/// The window of phase `k` of a scenario, for a phase that runs.
pub open spec fn window_of(phases: Seq<Phase>, total_ms: nat, k: int) -> PhaseWindow {
    PhaseWindow {
        phase: k as usize,
        start_ms: phase_start(phases, k) as u64,
        end_ms: phase_end(phases, total_ms, k) as u64,
    }
}

/// Starts never decrease from one phase to a later one.
pub proof fn lemma_starts_ordered(phases: Seq<Phase>, i: int, j: int)
    requires
        0 <= i <= j,
    ensures
        phase_start(phases, i) <= phase_start(phases, j),
    decreases j - i,
{
    if i < j {
        lemma_starts_ordered(phases, i, j - 1);
    }
}

/// A phase whose start falls at or after the scenario's total duration does
/// not run, and neither does any later one; those that run are cut off at the
/// total, so that no window reaches past it.
pub proof fn lemma_duration_clamping(phases: Seq<Phase>, total_ms: nat, k: int)
    requires
        0 <= k < phases.len(),
    ensures
        phase_start(phases, k) >= total_ms ==> forall|j: int|
            k <= j < phases.len() ==> !phase_runs(phases, total_ms, j),
        phase_runs(phases, total_ms, k) ==> phase_start(phases, k) <= phase_end(
            phases,
            total_ms,
            k,
        ) <= total_ms,
        phase_runs(phases, total_ms, k) ==> phase_end(phases, total_ms, k) - phase_start(
            phases,
            k,
        ) <= phases[k].duration_ms,
{
    if phase_start(phases, k) >= total_ms {
        assert forall|j: int| k <= j < phases.len() implies !phase_runs(phases, total_ms, j) by {
            lemma_starts_ordered(phases, k, j);
        }
    }
}

/// The phases that run are exactly the first `running_phases` ones.
pub proof fn lemma_running_prefix(phases: Seq<Phase>, total_ms: nat, upto: int)
    requires
        0 <= upto <= phases.len(),
    ensures
        running_phases(phases, total_ms, upto) <= upto,
        forall|k: int|
            0 <= k < upto ==> (phase_runs(phases, total_ms, k) <==> k < running_phases(
                phases,
                total_ms,
                upto,
            )),
    decreases upto,
{
    if upto > 0 {
        lemma_running_prefix(phases, total_ms, upto - 1);
        let before = running_phases(phases, total_ms, upto - 1);
        if phase_runs(phases, total_ms, upto - 1) {
            // Every earlier phase starts no later, so it runs too.
            assert forall|k: int| 0 <= k < upto - 1 implies phase_runs(phases, total_ms, k) by {
                lemma_starts_ordered(phases, k, upto - 1);
            }
            if before < upto - 1 {
                assert(phase_runs(phases, total_ms, before as int));
            }
        }
    }
}

/// The length of the slot that injection `i` of `n` has in a budget.
pub open spec fn slot_len(mode: SchedulingMode, n: nat, budget: nat, i: int) -> nat {
    match mode {
        SchedulingMode::Concurrent => budget,
        SchedulingMode::Sequential => if n == 0 {
            0
        } else if i < n - 1 {
            budget / n
        } else {
            (budget - (n - 1) * (budget / n)) as nat
        },
    }
}

/// Where the slot of injection `i` of `n` begins, counted from the phase's start.
pub open spec fn slot_offset(mode: SchedulingMode, n: nat, budget: nat, i: int) -> nat {
    match mode {
        SchedulingMode::Concurrent => 0,
        SchedulingMode::Sequential => if n == 0 {
            0
        } else {
            (i * (budget / n)) as nat
        },
    }
}

/// How long an injection is held in a slot: for the whole slot, or for its
/// own duration where that is shorter.
pub open spec fn hold_len(own: Option<u64>, slot: nat) -> nat {
    match own {
        Some(d) => if (d as nat) < slot {
            d as nat
        } else {
            slot
        },
        None => slot,
    }
}

/// One line of a phase's plan: which injection, when to start it, counted
/// from the phase's start, and how long to hold it.
#[derive(Clone, Copy, Debug, PartialEq, Eq, Structural)]
pub struct PlannedInjection {
    pub index: usize,
    pub offset_ms: u64,
    pub hold_ms: u64,
}

/// The plan line of injection `i` of a phase that has `budget` milliseconds.
pub open spec fn planned(phase: Phase, budget: nat, i: int) -> PlannedInjection {
    let n = phase.injections@.len();
    PlannedInjection {
        index: i as usize,
        offset_ms: slot_offset(phase.mode, n, budget, i) as u64,
        hold_ms: hold_len(phase.injections@[i].duration_ms, slot_len(phase.mode, n, budget, i)) as u64,
    }
}

/// Whether a plan line has its injection active at a time within the phase.
pub open spec fn active(line: PlannedInjection, elapsed_ms: nat) -> bool {
    line.offset_ms <= elapsed_ms < line.offset_ms + line.hold_ms
}

/// Every slot lies within the budget, and a sequential slot ends where the
/// next begins.
pub proof fn lemma_slots_fit(mode: SchedulingMode, n: nat, budget: nat, i: int)
    requires
        0 <= i < n,
    ensures
        slot_offset(mode, n, budget, i) + slot_len(mode, n, budget, i) <= budget,
        mode == SchedulingMode::Sequential && i + 1 < n ==> slot_offset(mode, n, budget, i)
            + slot_len(mode, n, budget, i) == slot_offset(mode, n, budget, i + 1),
        mode == SchedulingMode::Sequential && i + 1 == n ==> slot_offset(mode, n, budget, i)
            + slot_len(mode, n, budget, i) == budget,
{
    if mode == SchedulingMode::Sequential {
        let each = budget / n;
        assert(n * each <= budget) by (nonlinear_arith)
            requires
                n > 0,
                each == budget / n,
        ;
        assert(i * each + each == (i + 1) * each) by (nonlinear_arith);
        assert((i + 1) * each <= n * each) by (nonlinear_arith)
            requires
                i + 1 <= n,
                each >= 0,
        ;
        assert((n - 1) * each + each == n * each) by (nonlinear_arith);
        assert(i * each >= 0) by (nonlinear_arith)
            requires
                i >= 0,
                each >= 0,
        ;
    }
}

/// In a sequential phase no two injections are planned to be active at once.
pub proof fn lemma_sequential_one_at_a_time(phase: Phase, budget: nat, i: int, j: int, t: nat)
    requires
        phase.mode == SchedulingMode::Sequential,
        budget <= u64::MAX,
        0 <= i < j < phase.injections@.len(),
    ensures
        !(active(planned(phase, budget, i), t) && active(planned(phase, budget, j), t)),
{
    let n = phase.injections@.len();
    let each = budget / n;
    lemma_slots_fit(phase.mode, n, budget, i);
    lemma_slots_fit(phase.mode, n, budget, j);
    assert((i + 1) * each <= j * each) by (nonlinear_arith)
        requires
            i + 1 <= j,
            each >= 0,
    ;
    assert(i * each + each == (i + 1) * each) by (nonlinear_arith);
    assert(i * each >= 0) by (nonlinear_arith)
        requires
            i >= 0,
            each >= 0,
    ;
}

/// In a concurrent phase every injection is planned to start with the phase.
pub proof fn lemma_concurrent_start_together(phase: Phase, budget: nat, i: int)
    requires
        phase.mode == SchedulingMode::Concurrent,
        0 <= i < phase.injections@.len(),
    ensures
        planned(phase, budget, i).offset_ms == 0,
{
}

/// The scheduler. It holds nothing: every answer is a function of what is asked.
#[derive(Clone, Copy, Debug)]
pub struct Scheduler {}

impl Scheduler {
    /// The windows of the phases that run, in phase order. The phases that
    /// run are the first ones; phase `k` is among them exactly when it starts
    /// before the total duration is over.
    pub fn windows(scenario: &Scenario) -> (windows: Vec<PhaseWindow>)
        ensures
            windows@.len() == running_phases(
                scenario.phases@,
                scenario.duration_ms as nat,
                scenario.phases@.len() as int,
            ),
            windows@.len() <= scenario.phases@.len(),
            forall|k: int|
                0 <= k < scenario.phases@.len() ==> (phase_runs(
                    scenario.phases@,
                    scenario.duration_ms as nat,
                    k,
                ) <==> k < windows@.len()),
            forall|k: int|
                0 <= k < windows@.len() ==> #[trigger] windows@[k] == window_of(
                    scenario.phases@,
                    scenario.duration_ms as nat,
                    k,
                ),
    {
        let total: u64 = scenario.duration_ms;
        let mut windows: Vec<PhaseWindow> = Vec::new();
        let mut start: u64 = 0;
        let mut k: usize = 0;
        while k < scenario.phases.len() && start < total
            invariant
                0 <= k <= scenario.phases@.len(),
                total == scenario.duration_ms,
                start <= total,
                start == phase_start(scenario.phases@, k as int) || (start == total && total
                    <= phase_start(scenario.phases@, k as int)),
                windows@.len() == k,
                forall|j: int| 0 <= j < k ==> phase_runs(scenario.phases@, total as nat, j),
                forall|j: int|
                    0 <= j < k ==> #[trigger] windows@[j] == window_of(
                        scenario.phases@,
                        total as nat,
                        j,
                    ),
            decreases scenario.phases@.len() - k,
        {
            let d: u64 = scenario.phases[k].duration_ms;
            let end: u64 = if d >= total - start {
                total
            } else {
                start + d
            };
            windows.push(PhaseWindow { phase: k, start_ms: start, end_ms: end });
            start = end;
            k += 1;
        }
        proof {
            lemma_running_prefix(scenario.phases@, total as nat, scenario.phases@.len() as int);
            if k < scenario.phases@.len() {
                assert(!phase_runs(scenario.phases@, total as nat, k as int));
            }
            if k > 0 {
                assert(phase_runs(scenario.phases@, total as nat, k - 1));
            }
        }
        windows
    }

    /// The phase that a time falls in, going by the plain running sums of the
    /// phase durations: the first phase that ends after `elapsed_ms`. `None`
    /// once all phases are over.
    pub fn current_phase(phases: &Vec<Phase>, elapsed_ms: u64) -> (found: Option<usize>)
        ensures
            found matches Some(k) ==> k < phases@.len() && phase_start(phases@, k as int)
                <= elapsed_ms < phase_start(phases@, k + 1),
            found is None <==> phase_start(phases@, phases@.len() as int) <= elapsed_ms,
    {
        let mut acc: u64 = 0;
        let mut k: usize = 0;
        while k < phases.len()
            invariant
                0 <= k <= phases@.len(),
                acc == phase_start(phases@, k as int),
                acc <= elapsed_ms,
            decreases phases@.len() - k,
        {
            let d: u64 = phases[k].duration_ms;
            if d > elapsed_ms - acc {
                proof {
                    lemma_starts_ordered(phases@, k as int + 1, phases@.len() as int);
                }
                return Some(k);
            }
            acc = acc + d;
            k += 1;
        }
        None
    }

    /// The plan of one phase that has `budget_ms` to run in: one line for each
    /// injection, in list order.
    pub fn plan(phase: &Phase, budget_ms: u64) -> (lines: Vec<PlannedInjection>)
        ensures
            lines@.len() == phase.injections@.len(),
            forall|i: int|
                0 <= i < lines@.len() ==> #[trigger] lines@[i] == planned(
                    *phase,
                    budget_ms as nat,
                    i,
                ),
    {
        let n: usize = phase.injections.len();
        let mut lines: Vec<PlannedInjection> = Vec::new();
        if n == 0 {
            return lines;
        }
        let each: u64 = budget_ms / (n as u64);
        let mut offset: u64 = 0;
        let mut i: usize = 0;
        while i < n
            invariant
                0 <= i <= n,
                n == phase.injections@.len(),
                n > 0,
                each == (budget_ms as nat) / (n as nat),
                i < n ==> offset == i * each,
                offset <= budget_ms,
                lines@.len() == i,
                forall|j: int|
                    0 <= j < i ==> #[trigger] lines@[j] == planned(*phase, budget_ms as nat, j),
            decreases n - i,
        {
            proof {
                lemma_slots_fit(phase.mode, n as nat, budget_ms as nat, i as int);
                assert(i * each + each == (i + 1) * each) by (nonlinear_arith);
            }
            let (start, slot): (u64, u64) = match phase.mode {
                SchedulingMode::Concurrent => (0, budget_ms),
                SchedulingMode::Sequential => if i < n - 1 {
                    (offset, each)
                } else {
                    (offset, budget_ms - offset)
                },
            };
            let hold: u64 = match phase.injections[i].duration_ms {
                Some(d) => if d < slot {
                    d
                } else {
                    slot
                },
                None => slot,
            };
            lines.push(PlannedInjection { index: i, offset_ms: start, hold_ms: hold });
            if i < n - 1 {
                proof {
                    lemma_slots_fit(SchedulingMode::Sequential, n as nat, budget_ms as nat, i as int);
                }
                offset = offset + each;
            }
            i += 1;
        }
        lines
    }

    /// The injections of a phase that should be active at a time within it,
    /// by index, in rising order.
    pub fn active_at(phase: &Phase, budget_ms: u64, elapsed_ms: u64) -> (now: Vec<usize>)
        ensures
            forall|i: int|
                0 <= i < phase.injections@.len() ==> (now@.contains(i as usize) <==> active(
                    planned(*phase, budget_ms as nat, i),
                    elapsed_ms as nat,
                )),
            forall|a: int| 0 <= a < now@.len() ==> (#[trigger] now@[a]) < phase.injections@.len(),
            forall|a: int, b: int| 0 <= a < b < now@.len() ==> now@[a] < now@[b],
    {
        let lines = Self::plan(phase, budget_ms);
        let mut now: Vec<usize> = Vec::new();
        let mut i: usize = 0;
        while i < lines.len()
            invariant
                0 <= i <= lines@.len(),
                lines@.len() == phase.injections@.len(),
                forall|j: int|
                    0 <= j < lines@.len() ==> #[trigger] lines@[j] == planned(
                        *phase,
                        budget_ms as nat,
                        j,
                    ),
                forall|j: int|
                    0 <= j < i ==> (now@.contains(j as usize) <==> active(
                        planned(*phase, budget_ms as nat, j),
                        elapsed_ms as nat,
                    )),
                forall|a: int| 0 <= a < now@.len() ==> (#[trigger] now@[a]) < i,
                forall|a: int, b: int| 0 <= a < b < now@.len() ==> now@[a] < now@[b],
            decreases lines@.len() - i,
        {
            let line = lines[i];
            let ghost before = now@;
            if line.offset_ms <= elapsed_ms && elapsed_ms - line.offset_ms < line.hold_ms {
                now.push(i);
                proof {
                    assert(now@[before.len() as int] == i);
                    assert forall|j: int| 0 <= j < i + 1 implies (now@.contains(j as usize)
                        <==> active(planned(*phase, budget_ms as nat, j), elapsed_ms as nat)) by {
                        if j < i {
                            if before.contains(j as usize) {
                                let w = choose|w: int| 0 <= w < before.len()
                                    && before[w] == j as usize;
                                assert(now@[w] == j as usize);
                            }
                            if now@.contains(j as usize) {
                                let w = choose|w: int| 0 <= w < now@.len() && now@[w] == j as usize;
                                assert(w < before.len());
                                assert(before[w] == j as usize);
                            }
                        }
                    }
                }
            } else {
                proof {
                    if now@.contains(i) {
                        let w = choose|w: int| 0 <= w < now@.len() && now@[w] == i;
                        assert(now@[w] < i);
                    }
                }
            }
            i += 1;
        }
        now
    }
}

} // verus!
