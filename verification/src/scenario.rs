//! The scenario model: a named, time-bounded sequence of phases, each holding
//! the fault injections to run and the way to schedule them.
//!
//! All durations are whole milliseconds.

use vstd::prelude::*;

verus! {

/// How the injections of one phase share the phase's time.
#[derive(Clone, Copy, Debug, PartialEq, Eq, Structural)]
pub enum SchedulingMode {
    /// One injection at a time, in list order.
    Sequential,
    /// All injections start together.
    Concurrent,
}

/// The seven kinds of fault.
#[derive(Clone, Copy, Debug, PartialEq, Eq, Structural)]
pub enum InjectorKind {
    NetworkLatency,
    PacketLoss,
    TcpReset,
    CpuStarvation,
    MemoryPressure,
    DiskSlow,
    ProcessKill,
}

/// What a target can have done to it.
#[derive(Clone, Copy, Debug, PartialEq, Eq, Structural)]
pub enum Capability {
    /// Rules on a network interface can be inserted and removed.
    Network,
    /// Signals can be delivered and resource limits changed.
    Process,
    /// A host resource (processor time, memory, a disk) can be put under load.
    Resource,
}

/// Parts per million in a whole.
pub const PPM: u64 = 1_000_000;

/// The highest signal number a process-kill injection may name.
pub const MAX_SIGNAL: u64 = 64;

impl InjectorKind {
    /// The capability a target must have for this kind of fault.
    pub open spec fn capability_spec(self) -> Capability {
        match self {
            InjectorKind::NetworkLatency | InjectorKind::PacketLoss | InjectorKind::TcpReset =>
                Capability::Network,
            InjectorKind::CpuStarvation | InjectorKind::ProcessKill => Capability::Process,
            InjectorKind::MemoryPressure | InjectorKind::DiskSlow => Capability::Resource,
        }
    }

    /// The name a scenario file uses for this kind.
    pub open spec fn name_spec(self) -> Seq<char> {
        match self {
            InjectorKind::NetworkLatency => "network_latency"@,
            InjectorKind::PacketLoss => "packet_loss"@,
            InjectorKind::TcpReset => "tcp_reset"@,
            InjectorKind::CpuStarvation => "cpu_starvation"@,
            InjectorKind::MemoryPressure => "memory_pressure"@,
            InjectorKind::DiskSlow => "disk_slow"@,
            InjectorKind::ProcessKill => "process_kill"@,
        }
    }

    /// The kind that a name stands for, if it stands for one.
    pub open spec fn from_name_spec(name: Seq<char>) -> Option<InjectorKind> {
        if name == "network_latency"@ {
            Some(InjectorKind::NetworkLatency)
        } else if name == "packet_loss"@ {
            Some(InjectorKind::PacketLoss)
        } else if name == "tcp_reset"@ {
            Some(InjectorKind::TcpReset)
        } else if name == "cpu_starvation"@ {
            Some(InjectorKind::CpuStarvation)
        } else if name == "memory_pressure"@ {
            Some(InjectorKind::MemoryPressure)
        } else if name == "disk_slow"@ {
            Some(InjectorKind::DiskSlow)
        } else if name == "process_kill"@ {
            Some(InjectorKind::ProcessKill)
        } else {
            None
        }
    }

    /// Whether this kind accepts the three parameters as given.
    ///
    /// - latency: `magnitude` is the delay and is required; `interval` is the
    ///   jitter and may not exceed the delay; no probability.
    /// - packet loss: `probability` is required and at most one whole; nothing else.
    /// - connection reset: `interval` absent for one shot, positive for a
    ///   periodic reset; nothing else.
    /// - processor starvation: `magnitude` is the utilisation ceiling in
    ///   percent, 1 to 100; nothing else.
    /// - memory pressure: either `magnitude`, a positive byte count, or
    ///   `probability`, a fraction of what is available; never both.
    /// - disk slowdown: `magnitude` is a positive ceiling in bytes per second;
    ///   nothing else.
    /// - process kill: `magnitude` is the signal number, 1 to 64, and may be
    ///   left out; `interval` is the delay before a restart; no probability.
    pub open spec fn accepts_spec(
        self,
        magnitude: Option<u64>,
        probability_ppm: Option<u64>,
        interval_ms: Option<u64>,
    ) -> bool {
        match self {
            InjectorKind::NetworkLatency => {
                &&& magnitude is Some
                &&& probability_ppm is None
                &&& interval_ms matches Some(jitter) ==> jitter <= magnitude->0
            },
            InjectorKind::PacketLoss => {
                &&& magnitude is None
                &&& interval_ms is None
                &&& probability_ppm matches Some(p) && p <= PPM
            },
            InjectorKind::TcpReset => {
                &&& magnitude is None
                &&& probability_ppm is None
                &&& interval_ms matches Some(every) ==> every > 0
            },
            InjectorKind::CpuStarvation => {
                &&& probability_ppm is None
                &&& interval_ms is None
                &&& magnitude matches Some(ceiling) && 1 <= ceiling <= 100
            },
            InjectorKind::MemoryPressure => {
                &&& interval_ms is None
                &&& match (magnitude, probability_ppm) {
                    (Some(bytes), None) => bytes > 0,
                    (None, Some(fraction)) => 0 < fraction <= PPM,
                    _ => false,
                }
            },
            InjectorKind::DiskSlow => {
                &&& probability_ppm is None
                &&& interval_ms is None
                &&& magnitude matches Some(rate) && rate > 0
            },
            InjectorKind::ProcessKill => {
                &&& probability_ppm is None
                &&& magnitude matches Some(signal) ==> 1 <= signal <= MAX_SIGNAL
            },
        }
    }

    /// The capability a target must have for this kind of fault.
    pub fn capability(self) -> (c: Capability)
        ensures
            c == self.capability_spec(),
    {
        match self {
            InjectorKind::NetworkLatency | InjectorKind::PacketLoss | InjectorKind::TcpReset =>
                Capability::Network,
            InjectorKind::CpuStarvation | InjectorKind::ProcessKill => Capability::Process,
            InjectorKind::MemoryPressure | InjectorKind::DiskSlow => Capability::Resource,
        }
    }

    /// The name a scenario file uses for this kind.
    pub fn name(self) -> (s: &'static str)
        ensures
            s@ == self.name_spec(),
    {
        match self {
            InjectorKind::NetworkLatency => "network_latency",
            InjectorKind::PacketLoss => "packet_loss",
            InjectorKind::TcpReset => "tcp_reset",
            InjectorKind::CpuStarvation => "cpu_starvation",
            InjectorKind::MemoryPressure => "memory_pressure",
            InjectorKind::DiskSlow => "disk_slow",
            InjectorKind::ProcessKill => "process_kill",
        }
    }

    /// Reads a kind from its name.
    pub fn from_name(name: &str) -> (kind: Option<InjectorKind>)
        ensures
            kind == Self::from_name_spec(name@),
    {
        if same_text(name, "network_latency") {
            Some(InjectorKind::NetworkLatency)
        } else if same_text(name, "packet_loss") {
            Some(InjectorKind::PacketLoss)
        } else if same_text(name, "tcp_reset") {
            Some(InjectorKind::TcpReset)
        } else if same_text(name, "cpu_starvation") {
            Some(InjectorKind::CpuStarvation)
        } else if same_text(name, "memory_pressure") {
            Some(InjectorKind::MemoryPressure)
        } else if same_text(name, "disk_slow") {
            Some(InjectorKind::DiskSlow)
        } else if same_text(name, "process_kill") {
            Some(InjectorKind::ProcessKill)
        } else {
            None
        }
    }

    /// Whether this kind accepts the three parameters as given.
    pub fn accepts(
        self,
        magnitude: Option<u64>,
        probability_ppm: Option<u64>,
        interval_ms: Option<u64>,
    ) -> (ok: bool)
        ensures
            ok == self.accepts_spec(magnitude, probability_ppm, interval_ms),
    {
        match self {
            InjectorKind::NetworkLatency => match (magnitude, probability_ppm, interval_ms) {
                (Some(delay), None, Some(jitter)) => jitter <= delay,
                (Some(_), None, None) => true,
                _ => false,
            },
            InjectorKind::PacketLoss => match (magnitude, probability_ppm, interval_ms) {
                (None, Some(p), None) => p <= PPM,
                _ => false,
            },
            InjectorKind::TcpReset => match (magnitude, probability_ppm, interval_ms) {
                (None, None, Some(every)) => every > 0,
                (None, None, None) => true,
                _ => false,
            },
            InjectorKind::CpuStarvation => match (magnitude, probability_ppm, interval_ms) {
                (Some(ceiling), None, None) => 1 <= ceiling && ceiling <= 100,
                _ => false,
            },
            InjectorKind::MemoryPressure => match (magnitude, probability_ppm, interval_ms) {
                (Some(bytes), None, None) => bytes > 0,
                (None, Some(fraction), None) => 0 < fraction && fraction <= PPM,
                _ => false,
            },
            InjectorKind::DiskSlow => match (magnitude, probability_ppm, interval_ms) {
                (Some(rate), None, None) => rate > 0,
                _ => false,
            },
            InjectorKind::ProcessKill => match (magnitude, probability_ppm) {
                (Some(signal), None) => 1 <= signal && signal <= MAX_SIGNAL,
                (None, None) => true,
                _ => false,
            },
        }
    }
}

/// Whether two strings hold the same characters.
pub fn same_text(a: &str, b: &str) -> (same: bool)
    ensures
        same == (a@ == b@),
{
    let x = a.to_owned();
    let y = b.to_owned();
    x == y
}

/// Every kind is read back from its own name.
pub proof fn lemma_name_round_trip(kind: InjectorKind)
    ensures
        InjectorKind::from_name_spec(kind.name_spec()) == Some(kind),
{
    reveal_strlit("network_latency");
    reveal_strlit("packet_loss");
    reveal_strlit("tcp_reset");
    reveal_strlit("cpu_starvation");
    reveal_strlit("memory_pressure");
    reveal_strlit("disk_slow");
    reveal_strlit("process_kill");
    // The seven names differ in length or in their first character.
    assert("network_latency"@[0] == 'n');
    assert("packet_loss"@[0] == 'p');
    assert("tcp_reset"@[0] == 't');
    assert("cpu_starvation"@[0] == 'c');
    assert("memory_pressure"@[0] == 'm');
    assert("disk_slow"@[0] == 'd');
    assert("process_kill"@[1] == 'r');
    assert("packet_loss"@[1] == 'a');
}

/// What a fault is applied to: a selector, and the capability it is expected
/// to offer. The selector is resolved only when the fault is about to start.
#[derive(Debug)]
pub struct Target {
    pub capability: Capability,
    pub selector: String,
}

/// One fault to inject: its kind, its target and its parameters.
#[derive(Debug)]
pub struct Injection {
    pub kind: InjectorKind,
    pub target: Target,
    /// How long to hold the fault, when shorter than what the schedule allows.
    pub duration_ms: Option<u64>,
    pub magnitude: Option<u64>,
    pub probability_ppm: Option<u64>,
    pub interval_ms: Option<u64>,
}

/// A time-bounded stage of a scenario.
#[derive(Debug)]
pub struct Phase {
    pub name: String,
    pub duration_ms: u64,
    pub injections: Vec<Injection>,
    pub mode: SchedulingMode,
}

/// A whole scenario; phases run in the order they are listed.
#[derive(Debug)]
pub struct Scenario {
    pub name: String,
    pub description: Option<String>,
    pub duration_ms: u64,
    pub phases: Vec<Phase>,
}

/// Why a scenario cannot be scheduled.
#[derive(Clone, Copy, Debug, PartialEq, Eq, Structural)]
pub enum SchedulingError {
    /// Two phases share a name; the second of the first such pair is given.
    DuplicatePhaseName { phase: usize },
    /// An injection's parameters are not what its kind accepts.
    UnsupportedParameter { phase: usize, injection: usize },
    /// An injection's target cannot carry its kind of fault.
    WrongCapability { phase: usize, injection: usize },
    /// There are more injections than can be counted.
    TooManyInjections,
}

impl Clone for Target {
    fn clone(&self) -> (copy: Self)
        ensures
            copy == *self,
    {
        Target { capability: self.capability, selector: self.selector.clone() }
    }
}

impl Injection {
    /// Parameters fit the kind, and the target can carry the fault.
    pub open spec fn valid(&self) -> bool {
        &&& self.kind.accepts_spec(self.magnitude, self.probability_ppm, self.interval_ms)
        &&& self.target.capability == self.kind.capability_spec()
    }

    /// Whether the parameters fit the kind and the target can carry the fault.
    pub fn is_valid(&self) -> (ok: bool)
        ensures
            ok == self.valid(),
    {
        self.kind.accepts(self.magnitude, self.probability_ppm, self.interval_ms)
            && self.target.capability == self.kind.capability()
    }
}

impl Clone for Injection {
    fn clone(&self) -> (copy: Self)
        ensures
            copy == *self,
    {
        Injection {
            kind: self.kind,
            target: self.target.clone(),
            duration_ms: self.duration_ms,
            magnitude: self.magnitude,
            probability_ppm: self.probability_ppm,
            interval_ms: self.interval_ms,
        }
    }
}

impl Phase {
    /// Whole seconds of the phase's duration.
    pub fn duration_secs(&self) -> (secs: u64)
        ensures
            secs == self.duration_ms / 1000,
    {
        self.duration_ms / 1000
    }
}

/// How many injections the first `upto` phases hold.
pub open spec fn injections_in(phases: Seq<Phase>, upto: int) -> nat
    decreases upto,
{
    if upto <= 0 {
        0
    } else {
        injections_in(phases, upto - 1) + phases[upto - 1].injections@.len()
    }
}

/// More phases hold no fewer injections.
pub proof fn lemma_injections_grow(phases: Seq<Phase>, i: int, j: int)
    requires
        0 <= i <= j,
    ensures
        injections_in(phases, i) <= injections_in(phases, j),
    decreases j - i,
{
    if i < j {
        lemma_injections_grow(phases, i, j - 1);
    }
}

/// The first error a validation pass meets, going through the phases in
/// order: in each phase first its name against the earlier ones, then its
/// injections in order, parameters before capability. A count of
/// injections that is too high is found last.
pub open spec fn scheduling_error(phases: Seq<Phase>) -> Option<SchedulingError> {
    if first_error(phases, phases.len() as int) is Some {
        first_error(phases, phases.len() as int)
    } else if injections_in(phases, phases.len() as int) > u64::MAX {
        Some(SchedulingError::TooManyInjections)
    } else {
        None
    }
}

/// The first error among the first `upto` phases, the count of injections
/// left aside.
pub open spec fn first_error(phases: Seq<Phase>, upto: int) -> Option<SchedulingError>
    decreases upto,
{
    if upto <= 0 {
        None
    } else if first_error(phases, upto - 1) is Some {
        first_error(phases, upto - 1)
    } else {
        phase_error(phases, upto - 1)
    }
}

/// The first error within phase `k`, earlier phases taken to be sound.
pub open spec fn phase_error(phases: Seq<Phase>, k: int) -> Option<SchedulingError> {
    if name_taken(phases, k, k) {
        Some(SchedulingError::DuplicatePhaseName { phase: k as usize })
    } else {
        injection_error(phases[k].injections@, k, phases[k].injections@.len() as int)
    }
}

/// Whether one of the first `upto` phases bears the name of phase `k`.
pub open spec fn name_taken(phases: Seq<Phase>, k: int, upto: int) -> bool {
    exists|j: int| 0 <= j < upto && j < k && #[trigger] phases[j].name@ == phases[k].name@
}

/// The first error among the first `upto` injections of phase `k`.
pub open spec fn injection_error(injections: Seq<Injection>, k: int, upto: int) -> Option<
    SchedulingError,
>
    decreases upto,
{
    if upto <= 0 {
        None
    } else if injection_error(injections, k, upto - 1) is Some {
        injection_error(injections, k, upto - 1)
    } else {
        let inj = injections[upto - 1];
        if !inj.kind.accepts_spec(inj.magnitude, inj.probability_ppm, inj.interval_ms) {
            Some(
                SchedulingError::UnsupportedParameter {
                    phase: k as usize,
                    injection: (upto - 1) as usize,
                },
            )
        } else if inj.target.capability != inj.kind.capability_spec() {
            Some(
                SchedulingError::WrongCapability {
                    phase: k as usize,
                    injection: (upto - 1) as usize,
                },
            )
        } else {
            None
        }
    }
}

impl Scenario {
    /// Phase names are pairwise distinct, every injection is valid, and the
    /// injections can be counted.
    pub open spec fn valid(&self) -> bool {
        &&& injections_in(self.phases@, self.phases@.len() as int) <= u64::MAX
        &&& forall|i: int, j: int|
            0 <= i < j < self.phases@.len() ==> self.phases@[i].name@ != self.phases@[j].name@
        &&& forall|k: int, i: int|
            0 <= k < self.phases@.len() && 0 <= i < self.phases@[k].injections@.len()
                ==> (#[trigger] self.phases@[k].injections@[i]).valid()
    }

    /// Whole seconds of the scenario's total duration.
    pub fn duration_secs(&self) -> (secs: u64)
        ensures
            secs == self.duration_ms / 1000,
    {
        self.duration_ms / 1000
    }

    /// Checks the scenario, and names the first thing wrong with it.
    pub fn validate(&self) -> (checked: Result<(), SchedulingError>)
        ensures
            checked is Ok <==> self.valid(),
            checked matches Err(e) ==> scheduling_error(self.phases@) == Some(e),
    {
        let mut k: usize = 0;
        let mut count: u64 = 0;
        let mut countable: bool = true;
        while k < self.phases.len()
            invariant
                0 <= k <= self.phases@.len(),
                first_error(self.phases@, k as int) is None,
                countable ==> count == injections_in(self.phases@, k as int),
                !countable ==> injections_in(self.phases@, k as int) > u64::MAX,
                forall|i: int, j: int|
                    0 <= i < j < k ==> self.phases@[i].name@ != self.phases@[j].name@,
                forall|p: int, i: int|
                    0 <= p < k && 0 <= i < self.phases@[p].injections@.len() ==> (
                    #[trigger] self.phases@[p].injections@[i]).valid(),
            decreases self.phases@.len() - k,
        {
            let phase = &self.phases[k];
            let mut j: usize = 0;
            while j < k
                invariant
                    0 <= j <= k < self.phases@.len(),
                    phase == self.phases@[k as int],
                    first_error(self.phases@, k as int) is None,
                    forall|i: int| 0 <= i < j ==> self.phases@[i].name@ != phase.name@,
                decreases k - j,
            {
                if self.phases[j].name == phase.name {
                    assert(name_taken(self.phases@, k as int, k as int));
                    assert(first_error(self.phases@, k as int + 1) == Some(
                        SchedulingError::DuplicatePhaseName { phase: k },
                    ));
                    proof {
                        lemma_first_error_stays(self.phases@, k as int
                            + 1, self.phases@.len() as int);
                    }
                    return Err(SchedulingError::DuplicatePhaseName { phase: k });
                }
                j += 1;
            }
            assert(!name_taken(self.phases@, k as int, k as int));
            let mut i: usize = 0;
            while i < phase.injections.len()
                invariant
                    0 <= i <= phase.injections@.len(),
                    0 <= k < self.phases@.len(),
                    phase == self.phases@[k as int],
                    first_error(self.phases@, k as int) is None,
                    !name_taken(self.phases@, k as int, k as int),
                    injection_error(phase.injections@, k as int, i as int) is None,
                    forall|n: int| 0 <= n < i ==> (#[trigger] phase.injections@[n]).valid(),
                decreases phase.injections@.len() - i,
            {
                let inj = &phase.injections[i];
                if !inj.kind.accepts(inj.magnitude, inj.probability_ppm, inj.interval_ms) {
                    let e = SchedulingError::UnsupportedParameter { phase: k, injection: i };
                    proof {
                        assert(injection_error(phase.injections@, k as int, i as int
                            + 1) == Some(e));
                        lemma_injection_error_stays(
                            phase.injections@,
                            k as int,
                            i as int + 1,
                            phase.injections@.len() as int,
                        );
                        assert(first_error(self.phases@, k as int + 1) == Some(e));
                        lemma_first_error_stays(self.phases@, k as int
                            + 1, self.phases@.len() as int);
                        assert(!self.phases@[k as int].injections@[i as int].valid());
                    }
                    return Err(e);
                }
                if inj.target.capability != inj.kind.capability() {
                    let e = SchedulingError::WrongCapability { phase: k, injection: i };
                    proof {
                        assert(injection_error(phase.injections@, k as int, i as int
                            + 1) == Some(e));
                        lemma_injection_error_stays(
                            phase.injections@,
                            k as int,
                            i as int + 1,
                            phase.injections@.len() as int,
                        );
                        assert(first_error(self.phases@, k as int + 1) == Some(e));
                        lemma_first_error_stays(self.phases@, k as int
                            + 1, self.phases@.len() as int);
                        assert(!self.phases@[k as int].injections@[i as int].valid());
                    }
                    return Err(e);
                }
                i += 1;
            }
            assert(first_error(self.phases@, k as int + 1) is None);
            let held: usize = phase.injections.len();
            if countable && held as u64 <= u64::MAX - count {
                count = count + held as u64;
            } else {
                countable = false;
            }
            k += 1;
        }
        if !countable {
            return Err(SchedulingError::TooManyInjections);
        }
        Ok(())
    }
}

/// Once an error is found among the first `from` phases, looking further
/// does not change it.
pub proof fn lemma_first_error_stays(phases: Seq<Phase>, from: int, to: int)
    requires
        from <= to,
        first_error(phases, from) is Some,
    ensures
        first_error(phases, to) == first_error(phases, from),
    decreases to - from,
{
    if from < to {
        lemma_first_error_stays(phases, from, to - 1);
    }
}

/// Once an error is found among the first `from` injections, looking further
/// does not change it.
pub proof fn lemma_injection_error_stays(injections: Seq<Injection>, k: int, from: int, to: int)
    requires
        from <= to,
        injection_error(injections, k, from) is Some,
    ensures
        injection_error(injections, k, to) == injection_error(injections, k, from),
    decreases to - from,
{
    if from < to {
        lemma_injection_error_stays(injections, k, from, to - 1);
    }
}

} // verus!
