//! What a run leaves behind: one result per phase, and their sum.

use crate::scenario::PPM;
use vstd::prelude::*;

verus! {

/// The outcome of one phase.
#[derive(Debug)]
pub struct PhaseResult {
    pub name: String,
    /// How long the phase was observed to take.
    pub duration_ms: u64,
    /// How many injections were attempted.
    pub injection_count: u64,
    pub succeeded: u64,
    pub failed: u64,
}

/// The outcome of a whole run.
#[derive(Debug)]
pub struct ScenarioResult {
    pub scenario_name: String,
    /// When the run began, in milliseconds since the Unix epoch.
    pub started_at_ms: i64,
    pub total_duration_ms: u64,
    pub total_injections: u64,
    pub phase_results: Vec<PhaseResult>,
}

/// Injections attempted in the first `upto` phases.
pub open spec fn attempted_in(phases: Seq<PhaseResult>, upto: int) -> nat
    decreases upto,
{
    if upto <= 0 {
        0
    } else {
        attempted_in(phases, upto - 1) + phases[upto - 1].injection_count as nat
    }
}

/// Injections that succeeded in the first `upto` phases.
pub open spec fn succeeded_in(phases: Seq<PhaseResult>, upto: int) -> nat
    decreases upto,
{
    if upto <= 0 {
        0
    } else {
        succeeded_in(phases, upto - 1) + phases[upto - 1].succeeded as nat
    }
}

/// The success rate of `succeeded` out of `attempted`, in parts per million,
/// rounded down. Nothing attempted counts as full success.
pub open spec fn rate_ppm(succeeded: nat, attempted: nat) -> nat {
    if attempted == 0 {
        PPM as nat
    } else {
        succeeded * (PPM as nat) / attempted
    }
}

/// The success rate is the quotient of what succeeded by what was
/// attempted: one whole where nothing was attempted or everything
/// succeeded, nothing where nothing succeeded, and in between the quotient
/// in parts per million, rounded down.
pub proof fn lemma_rate_is_the_quotient(succeeded: nat, attempted: nat)
    requires
        succeeded <= attempted,
    ensures
        attempted == 0 ==> rate_ppm(succeeded, attempted) == PPM,
        attempted > 0 && succeeded == attempted ==> rate_ppm(succeeded, attempted) == PPM,
        attempted > 0 && succeeded == 0 ==> rate_ppm(succeeded, attempted) == 0,
        rate_ppm(succeeded, attempted) <= PPM,
        attempted > 0 ==> rate_ppm(succeeded, attempted) * attempted <= succeeded * PPM < (rate_ppm(
            succeeded,
            attempted,
        ) + 1) * attempted,
{
    if attempted > 0 {
        let q = succeeded * (PPM as nat) / attempted;
        let n = succeeded * (PPM as nat);
        assert(q * attempted <= n < (q + 1) * attempted) by (nonlinear_arith)
            requires
                attempted > 0,
                q == n / attempted,
        ;
        assert(q <= PPM) by (nonlinear_arith)
            requires
                q == (succeeded * (PPM as nat)) / attempted,
                succeeded <= attempted,
                attempted > 0,
        ;
        assert(succeeded == attempted ==> q == PPM) by (nonlinear_arith)
            requires
                q == (succeeded * (PPM as nat)) / attempted,
                attempted > 0,
        ;
        assert(succeeded == 0 ==> q == 0) by (nonlinear_arith)
            requires
                q == (succeeded * (PPM as nat)) / attempted,
                attempted > 0,
        ;
    }
}

/// With every phase sound, no more succeeded than were attempted.
pub proof fn lemma_succeeded_bounded(phases: Seq<PhaseResult>, upto: int)
    requires
        0 <= upto <= phases.len(),
        forall|k: int| 0 <= k < phases.len() ==> (#[trigger] phases[k]).sound(),
    ensures
        succeeded_in(phases, upto) <= attempted_in(phases, upto),
    decreases upto,
{
    if upto > 0 {
        lemma_succeeded_bounded(phases, upto - 1);
        assert(phases[upto - 1].sound());
    }
}

/// Sums over fewer phases are no larger.
pub proof fn lemma_attempted_grows(phases: Seq<PhaseResult>, i: int, j: int)
    requires
        0 <= i <= j,
    ensures
        attempted_in(phases, i) <= attempted_in(phases, j),
    decreases j - i,
{
    if i < j {
        lemma_attempted_grows(phases, i, j - 1);
    }
}

impl PhaseResult {
    /// Every attempted injection either succeeded or failed.
    pub open spec fn sound(&self) -> bool {
        self.succeeded + self.failed == self.injection_count
    }
}

impl Clone for PhaseResult {
    fn clone(&self) -> (copy: Self)
        ensures
            copy == *self,
    {
        PhaseResult {
            name: self.name.clone(),
            duration_ms: self.duration_ms,
            injection_count: self.injection_count,
            succeeded: self.succeeded,
            failed: self.failed,
        }
    }
}

impl ScenarioResult {
    /// Every phase is sound, and the total is the sum over the phases.
    pub open spec fn sound(&self) -> bool {
        &&& forall|k: int|
            0 <= k < self.phase_results@.len() ==> (#[trigger] self.phase_results@[k]).sound()
        &&& self.total_injections == attempted_in(
            self.phase_results@,
            self.phase_results@.len() as int,
        )
    }

    /// Injections attempted over all phases.
    pub open spec fn attempted_spec(&self) -> nat {
        attempted_in(self.phase_results@, self.phase_results@.len() as int)
    }

    /// Injections that succeeded over all phases.
    pub open spec fn succeeded_spec(&self) -> nat {
        succeeded_in(self.phase_results@, self.phase_results@.len() as int)
    }

    /// The success rate in parts per million.
    pub open spec fn success_ppm_spec(&self) -> nat {
        rate_ppm(self.succeeded_spec(), self.attempted_spec())
    }

    /// Whether every phase is sound and the total is the sum over the phases.
    pub fn is_sound(&self) -> (ok: bool)
        ensures
            ok == self.sound(),
    {
        let mut sum: u64 = 0;
        let mut k: usize = 0;
        while k < self.phase_results.len()
            invariant
                0 <= k <= self.phase_results@.len(),
                sum == attempted_in(self.phase_results@, k as int),
                sum <= self.total_injections,
                forall|j: int| 0 <= j < k ==> (#[trigger] self.phase_results@[j]).sound(),
            decreases self.phase_results@.len() - k,
        {
            let p = &self.phase_results[k];
            if p.succeeded > p.injection_count || p.injection_count - p.succeeded != p.failed {
                assert(!self.phase_results@[k as int].sound());
                return false;
            }
            if p.injection_count > self.total_injections - sum {
                proof {
                    lemma_attempted_grows(
                        self.phase_results@,
                        k as int + 1,
                        self.phase_results@.len() as int,
                    );
                }
                return false;
            }
            sum = sum + p.injection_count;
            k += 1;
        }
        sum == self.total_injections
    }

    /// Injections attempted over all phases.
    pub fn attempted(&self) -> (n: u64)
        requires
            self.sound(),
        ensures
            n == self.attempted_spec(),
    {
        self.total_injections
    }

    /// Injections that succeeded over all phases.
    pub fn succeeded(&self) -> (n: u64)
        requires
            self.sound(),
        ensures
            n == self.succeeded_spec(),
            n <= self.attempted_spec(),
    {
        let mut n: u64 = 0;
        let mut k: usize = 0;
        while k < self.phase_results.len()
            invariant
                0 <= k <= self.phase_results@.len(),
                self.sound(),
                n == succeeded_in(self.phase_results@, k as int),
            decreases self.phase_results@.len() - k,
        {
            proof {
                lemma_succeeded_bounded(self.phase_results@, k as int + 1);
                lemma_attempted_grows(
                    self.phase_results@,
                    k as int + 1,
                    self.phase_results@.len() as int,
                );
            }
            n = n + self.phase_results[k].succeeded;
            k += 1;
        }
        proof {
            lemma_succeeded_bounded(self.phase_results@, k as int);
        }
        n
    }

    /// The success rate as a fraction: the injections that succeeded over
    /// those attempted. With nothing attempted the rate is one whole, written
    /// as one over one. The denominator is never zero.
    pub fn success_ratio(&self) -> (ratio: (u64, u64))
        requires
            self.sound(),
        ensures
            self.attempted_spec() == 0 ==> ratio == (1u64, 1u64),
            self.attempted_spec() > 0 ==> ratio.0 == self.succeeded_spec() && ratio.1
                == self.attempted_spec(),
            ratio.0 <= ratio.1,
            ratio.1 > 0,
    {
        if self.total_injections == 0 {
            (1, 1)
        } else {
            (self.succeeded(), self.total_injections)
        }
    }

    /// The success rate in parts per million, rounded down: a million when
    /// nothing was attempted or everything succeeded.
    pub fn success_ppm(&self) -> (ppm: u64)
        requires
            self.sound(),
        ensures
            ppm == self.success_ppm_spec(),
            ppm <= PPM,
    {
        let (num, den) = self.success_ratio();
        ratio_ppm(num, den)
    }

    /// Whole seconds of the observed duration.
    pub fn duration_secs(&self) -> (secs: u64)
        ensures
            secs == self.total_duration_ms / 1000,
    {
        self.total_duration_ms / 1000
    }
}

/// How many injections of a stored phase succeeded and how many failed.
/// A phase stored without these counts is taken to have succeeded in
/// all that it attempted; one stored with the successes alone has failed
/// in the rest.
pub open spec fn counts_of(injection_count: u64, succeeded: Option<u64>, failed: Option<u64>) -> (
    u64,
    u64,
) {
    let won = match succeeded {
        Some(s) => s,
        None => injection_count,
    };
    let lost = match failed {
        Some(f) => f,
        None => if injection_count >= won {
            (injection_count - won) as u64
        } else {
            0
        },
    };
    (won, lost)
}

/// How many injections of a stored phase succeeded and how many failed.
pub fn stored_counts(injection_count: u64, succeeded: Option<u64>, failed: Option<u64>) -> (counts:
    (u64, u64))
    ensures
        counts == counts_of(injection_count, succeeded, failed),
        succeeded is None && failed is None ==> counts == (injection_count, 0u64),
{
    let won: u64 = match succeeded {
        Some(s) => s,
        None => injection_count,
    };
    let lost: u64 = match failed {
        Some(f) => f,
        None => if injection_count >= won {
            injection_count - won
        } else {
            0
        },
    };
    (won, lost)
}

/// The counts to store with a phase: none where every injection
/// succeeded, since that is what a phase stored without counts is taken to
/// say; else both.
pub open spec fn counts_kept(injection_count: u64, succeeded: u64, failed: u64) -> (
    Option<u64>,
    Option<u64>,
) {
    if succeeded == injection_count && failed == 0 {
        (None, None)
    } else {
        (Some(succeeded), Some(failed))
    }
}

/// The counts to store with a phase.
pub fn counts_to_store(injection_count: u64, succeeded: u64, failed: u64) -> (kept: (
    Option<u64>,
    Option<u64>,
))
    ensures
        kept == counts_kept(injection_count, succeeded, failed),
{
    if succeeded == injection_count && failed == 0 {
        (None, None)
    } else {
        (Some(succeeded), Some(failed))
    }
}

/// What is stored of the counts of a phase gives the counts back.
pub proof fn lemma_counts_round_trip(injection_count: u64, succeeded: u64, failed: u64)
    ensures
        counts_of(
            injection_count,
            counts_kept(injection_count, succeeded, failed).0,
            counts_kept(injection_count, succeeded, failed).1,
        ) == (succeeded, failed),
{
}

/// `num / den` in parts per million, rounded down, for a fraction of at most one.
pub fn ratio_ppm(num: u64, den: u64) -> (ppm: u64)
    requires
        num <= den,
        den > 0,
    ensures
        ppm == (num as nat) * (PPM as nat) / (den as nat),
        ppm <= PPM,
        num == den ==> ppm == PPM,
{
    assert((num as int) * (PPM as int) <= u64::MAX * 1_000_000) by (nonlinear_arith)
        requires
            0 <= num <= u64::MAX,
            PPM == 1_000_000,
    ;
    let wide: u128 = (num as u128) * (PPM as u128);
    let q: u128 = wide / (den as u128);
    assert(q <= PPM) by (nonlinear_arith)
        requires
            q == (num as int) * (PPM as int) / (den as int),
            0 <= num <= den,
            den > 0,
    ;
    assert(num == den ==> q == PPM) by (nonlinear_arith)
        requires
            q == (num as int) * (PPM as int) / (den as int),
            den > 0,
    ;
    q as u64
}

} // verus!
