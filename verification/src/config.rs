//! A scenario as it comes out of a file: names where the model has kinds,
//! and numbers that may be negative. Building the scenario proper checks
//! it all, so that what runs is sound.

use crate::scenario::{
    scheduling_error, Capability, Injection, InjectorKind, Phase, Scenario, SchedulingError,
    SchedulingMode, Target,
};
use vstd::prelude::*;

verus! {

/// One injection as a file gives it.
#[derive(Debug)]
pub struct InjectionConfig {
    /// The name of the kind of fault.
    pub kind: String,
    /// The selector of the target.
    pub target: String,
    pub duration_ms: Option<i64>,
    pub magnitude: Option<i64>,
    pub probability_ppm: Option<i64>,
    pub interval_ms: Option<i64>,
}

/// One phase as a file gives it.
#[derive(Debug)]
pub struct PhaseConfig {
    pub name: String,
    pub duration_ms: i64,
    /// `sequential` or `concurrent`; sequential where nothing is said.
    pub mode: Option<String>,
    pub injections: Vec<InjectionConfig>,
}

/// A scenario as a file gives it.
#[derive(Debug)]
pub struct ScenarioConfig {
    pub name: String,
    pub description: Option<String>,
    pub duration_ms: i64,
    pub phases: Vec<PhaseConfig>,
}

/// What is wrong with a scenario as a file gives it.
#[derive(Clone, Copy, Debug, PartialEq, Eq, Structural)]
pub enum ConfigError {
    /// A duration is negative: that of the scenario, or that of a phase.
    NegativeDuration { of_phase: Option<usize> },
    /// The scheduling mode of a phase is neither of the two.
    UnknownMode { phase: usize },
    /// The kind of an injection is none of the seven.
    UnknownKind { phase: usize, injection: usize },
    /// A duration or a parameter of an injection is negative.
    NegativeValue { phase: usize, injection: usize },
    /// Every part is well formed, but the scenario cannot be scheduled.
    Unschedulable { error: SchedulingError },
}

/// The mode that a name stands for; sequential where nothing is said.
pub open spec fn mode_of(name: Option<String>) -> Option<SchedulingMode> {
    match name {
        None => Some(SchedulingMode::Sequential),
        Some(n) => if n@ == "sequential"@ {
            Some(SchedulingMode::Sequential)
        } else if n@ == "concurrent"@ {
            Some(SchedulingMode::Concurrent)
        } else {
            None
        },
    }
}

/// Whether an optional number is given and negative.
pub open spec fn negative(value: Option<i64>) -> bool {
    value matches Some(v) && v < 0
}

/// An optional number that is not negative, as the model holds it.
pub open spec fn unsigned(value: Option<i64>) -> Option<u64> {
    match value {
        Some(v) => Some(v as u64),
        None => None,
    }
}

/// What is wrong with one injection, if anything: its kind first, then
/// its numbers.
pub open spec fn injection_defect(inj: InjectionConfig, phase: usize, at: usize) -> Option<
    ConfigError,
> {
    if InjectorKind::from_name_spec(inj.kind@) is None {
        Some(ConfigError::UnknownKind { phase, injection: at })
    } else if negative(inj.duration_ms) || negative(inj.magnitude) || negative(inj.probability_ppm)
        || negative(inj.interval_ms) {
        Some(ConfigError::NegativeValue { phase, injection: at })
    } else {
        None
    }
}

/// The first thing wrong among the first `upto` injections of a phase.
pub open spec fn injections_defect(list: Seq<InjectionConfig>, phase: usize, upto: int) -> Option<
    ConfigError,
>
    decreases upto,
{
    if upto <= 0 {
        None
    } else if injections_defect(list, phase, upto - 1) is Some {
        injections_defect(list, phase, upto - 1)
    } else {
        injection_defect(list[upto - 1], phase, (upto - 1) as usize)
    }
}

/// What is wrong with one phase, if anything: its duration first, then
/// its mode, then its injections in order.
pub open spec fn phase_defect(phase: PhaseConfig, at: usize) -> Option<ConfigError> {
    if phase.duration_ms < 0 {
        Some(ConfigError::NegativeDuration { of_phase: Some(at) })
    } else if mode_of(phase.mode) is None {
        Some(ConfigError::UnknownMode { phase: at })
    } else {
        injections_defect(phase.injections@, at, phase.injections@.len() as int)
    }
}

/// The first thing wrong among the first `upto` phases.
pub open spec fn phases_defect(list: Seq<PhaseConfig>, upto: int) -> Option<ConfigError>
    decreases upto,
{
    if upto <= 0 {
        None
    } else if phases_defect(list, upto - 1) is Some {
        phases_defect(list, upto - 1)
    } else {
        phase_defect(list[upto - 1], (upto - 1) as usize)
    }
}

/// The first thing wrong with the parts of a scenario, if anything: the
/// duration of the scenario first, then the phases in order.
pub open spec fn defect(config: ScenarioConfig) -> Option<ConfigError> {
    if config.duration_ms < 0 {
        Some(ConfigError::NegativeDuration { of_phase: None })
    } else {
        phases_defect(config.phases@, config.phases@.len() as int)
    }
}

/// Whether an injection of the model is what the file gives: the kind
/// that the name stands for, the selector with the capability that the
/// kind asks for, and the numbers as they are.
pub open spec fn injection_mirrors(inj: Injection, given: InjectionConfig) -> bool {
    &&& InjectorKind::from_name_spec(given.kind@) == Some(inj.kind)
    &&& inj.target.selector@ == given.target@
    &&& inj.target.capability == inj.kind.capability_spec()
    &&& inj.duration_ms == unsigned(given.duration_ms)
    &&& inj.magnitude == unsigned(given.magnitude)
    &&& inj.probability_ppm == unsigned(given.probability_ppm)
    &&& inj.interval_ms == unsigned(given.interval_ms)
}

/// Whether a phase of the model is what the file gives.
pub open spec fn phase_mirrors(phase: Phase, given: PhaseConfig) -> bool {
    &&& phase.name@ == given.name@
    &&& phase.duration_ms == given.duration_ms
    &&& mode_of(given.mode) == Some(phase.mode)
    &&& phase.injections@.len() == given.injections@.len()
    &&& forall|i: int|
        0 <= i < phase.injections@.len() ==> injection_mirrors(
            #[trigger] phase.injections@[i],
            given.injections@[i],
        )
}

/// Whether a scenario of the model is what the file gives.
pub open spec fn mirrors(scenario: Scenario, given: ScenarioConfig) -> bool {
    &&& scenario.name@ == given.name@
    &&& scenario.description == given.description
    &&& scenario.duration_ms == given.duration_ms
    &&& scenario.phases@.len() == given.phases@.len()
    &&& forall|k: int|
        0 <= k < scenario.phases@.len() ==> phase_mirrors(
            #[trigger] scenario.phases@[k],
            given.phases@[k],
        )
}

proof fn lemma_injections_defect_stays(list: Seq<InjectionConfig>, phase: usize, from: int, to: int)
    requires
        from <= to,
        injections_defect(list, phase, from) is Some,
    ensures
        injections_defect(list, phase, to) == injections_defect(list, phase, from),
    decreases to - from,
{
    if from < to {
        lemma_injections_defect_stays(list, phase, from, to - 1);
    }
}

proof fn lemma_phases_defect_stays(list: Seq<PhaseConfig>, from: int, to: int)
    requires
        from <= to,
        phases_defect(list, from) is Some,
    ensures
        phases_defect(list, to) == phases_defect(list, from),
    decreases to - from,
{
    if from < to {
        lemma_phases_defect_stays(list, from, to - 1);
    }
}

fn to_unsigned(value: Option<i64>) -> (out: Option<u64>)
    requires
        !negative(value),
    ensures
        out == unsigned(value),
{
    match value {
        Some(v) => Some(v as u64),
        None => None,
    }
}

fn is_negative(value: Option<i64>) -> (neg: bool)
    ensures
        neg == negative(value),
{
    match value {
        Some(v) => v < 0,
        None => false,
    }
}

fn read_mode(name: &Option<String>) -> (mode: Option<SchedulingMode>)
    ensures
        mode == mode_of(*name),
{
    match name {
        None => Some(SchedulingMode::Sequential),
        Some(n) => {
            if crate::scenario::same_text(n.as_str(), "sequential") {
                Some(SchedulingMode::Sequential)
            } else if crate::scenario::same_text(n.as_str(), "concurrent") {
                Some(SchedulingMode::Concurrent)
            } else {
                None
            }
        },
    }
}

fn build_injection(given: &InjectionConfig, phase: usize, at: usize) -> (built: Result<
    Injection,
    ConfigError,
>)
    ensures
        match injection_defect(*given, phase, at) {
            Some(e) => built == Err::<Injection, ConfigError>(e),
            None => built matches Ok(inj) && injection_mirrors(inj, *given),
        },
{
    let kind = match InjectorKind::from_name(given.kind.as_str()) {
        Some(kind) => kind,
        None => {
            return Err(ConfigError::UnknownKind { phase, injection: at });
        },
    };
    if is_negative(given.duration_ms) || is_negative(given.magnitude) || is_negative(
        given.probability_ppm,
    ) || is_negative(given.interval_ms) {
        return Err(ConfigError::NegativeValue { phase, injection: at });
    }
    Ok(
        Injection {
            kind,
            target: Target { capability: kind.capability(), selector: given.target.clone() },
            duration_ms: to_unsigned(given.duration_ms),
            magnitude: to_unsigned(given.magnitude),
            probability_ppm: to_unsigned(given.probability_ppm),
            interval_ms: to_unsigned(given.interval_ms),
        },
    )
}

fn build_phase(given: &PhaseConfig, at: usize) -> (built: Result<Phase, ConfigError>)
    ensures
        match phase_defect(*given, at) {
            Some(e) => built == Err::<Phase, ConfigError>(e),
            None => built matches Ok(phase) && phase_mirrors(phase, *given),
        },
{
    if given.duration_ms < 0 {
        return Err(ConfigError::NegativeDuration { of_phase: Some(at) });
    }
    let mode = match read_mode(&given.mode) {
        Some(mode) => mode,
        None => {
            return Err(ConfigError::UnknownMode { phase: at });
        },
    };
    let mut injections: Vec<Injection> = Vec::new();
    let mut i: usize = 0;
    while i < given.injections.len()
        invariant
            0 <= i <= given.injections@.len(),
            injections@.len() == i,
            given.duration_ms >= 0,
            mode_of(given.mode) == Some(mode),
            injections_defect(given.injections@, at, i as int) is None,
            forall|j: int|
                0 <= j < i ==> injection_mirrors(#[trigger] injections@[j], given.injections@[j]),
        decreases given.injections@.len() - i,
    {
        match build_injection(&given.injections[i], at, i) {
            Ok(inj) => {
                injections.push(inj);
            },
            Err(e) => {
                proof {
                    assert(injections_defect(given.injections@, at, i + 1) == Some(e));
                    lemma_injections_defect_stays(
                        given.injections@,
                        at,
                        i + 1,
                        given.injections@.len() as int,
                    );
                }
                return Err(e);
            },
        }
        i += 1;
    }
    Ok(Phase { name: given.name.clone(), duration_ms: given.duration_ms as u64, injections, mode })
}

/// Builds the scenario that a file gives. What comes out is sound and is
/// what the file gives, or there is no scenario: the first thing wrong
/// with the parts is named, or, with every part well formed, the reason the
/// scenario cannot be scheduled.
pub fn build_scenario(given: &ScenarioConfig) -> (built: Result<Scenario, ConfigError>)
    ensures
        match defect(*given) {
            Some(e) => built == Err::<Scenario, ConfigError>(e),
            None => match built {
                Ok(scenario) => mirrors(scenario, *given) && scenario.valid(),
                Err(e) => e matches ConfigError::Unschedulable { error } && exists|s: Scenario|
                    #![auto]
                    mirrors(s, *given) && scheduling_error(s.phases@) == Some(error),
            },
        },
{
    if given.duration_ms < 0 {
        return Err(ConfigError::NegativeDuration { of_phase: None });
    }
    let mut phases: Vec<Phase> = Vec::new();
    let mut k: usize = 0;
    while k < given.phases.len()
        invariant
            0 <= k <= given.phases@.len(),
            phases@.len() == k,
            given.duration_ms >= 0,
            phases_defect(given.phases@, k as int) is None,
            forall|j: int| 0 <= j < k ==> phase_mirrors(#[trigger] phases@[j], given.phases@[j]),
        decreases given.phases@.len() - k,
    {
        match build_phase(&given.phases[k], k) {
            Ok(phase) => {
                phases.push(phase);
            },
            Err(e) => {
                proof {
                    assert(phases_defect(given.phases@, k + 1) == Some(e));
                    lemma_phases_defect_stays(given.phases@, k + 1, given.phases@.len() as int);
                }
                return Err(e);
            },
        }
        k += 1;
    }
    let scenario = Scenario {
        name: given.name.clone(),
        description: crate::state::copy_optional(&given.description),
        duration_ms: given.duration_ms as u64,
        phases,
    };
    assert(mirrors(scenario, *given));
    match scenario.validate() {
        Ok(_) => Ok(scenario),
        Err(error) => {
            assert(mirrors(scenario, *given) && scheduling_error(scenario.phases@) == Some(error));
            Err(ConfigError::Unschedulable { error })
        },
    }
}

} // verus!
