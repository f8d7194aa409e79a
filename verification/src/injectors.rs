//! The injectors: for each kind of fault, what has to be done to the target
//! to apply it.
//!
//! The set of kinds is closed, and one function serves them all. To apply a
//! fault takes two steps with the host's work between them. `prepare`
//! checks the injection, claims the target and says what to do; once that
//! was tried on the host, `complete` either hands out the handle of the live
//! fault or, if the host refused, gives the claim up again, so that a fault
//! that fails to apply leaves nothing behind.

use crate::error::InjectorError;
use crate::handle::{Claim, FaultTable, InjectionHandle};
use crate::scenario::{Injection, InjectorKind};
use crate::target::ResolvedTarget;
use vstd::prelude::*;

verus! {

/// The signal a process-kill injection sends where none is named.
pub const DEFAULT_SIGNAL: u64 = 15;

/// What has to be done to a target to apply a fault.
#[derive(Clone, Copy, Debug, PartialEq, Eq, Structural)]
pub enum Effect {
    /// Delay matching traffic, give or take the jitter.
    DelayTraffic { delay_ms: u64, jitter_ms: u64 },
    /// Drop a share of matching packets, in parts per million.
    DropPackets { loss_ppm: u64 },
    /// Reset matching connections, once or at an interval.
    ResetConnections { every_ms: Option<u64> },
    /// Compete for processor time, leaving the target at most this share.
    StarveCpu { ceiling_percent: u64 },
    /// Hold this many bytes of memory.
    HoldMemory { bytes: u64 },
    /// Hold this share of the memory available, in parts per million.
    HoldMemoryShare { ppm: u64 },
    /// Limit the throughput of a disk.
    ThrottleDisk { bytes_per_sec: u64 },
    /// Send a signal, and start the process again after a delay if one is given.
    KillProcess { signal: u64, restart_after_ms: Option<u64> },
}

/// A fault about to go live: which target, which kind, and what to do.
#[derive(Clone, Copy, Debug, PartialEq, Eq, Structural)]
pub struct ActiveEffect {
    pub target: usize,
    pub kind: InjectorKind,
    pub effect: Effect,
}

impl ActiveEffect {
    /// What the fault lays claim to.
    pub open spec fn claim(self) -> Claim {
        Claim { target: self.target, kind: self.kind }
    }
}

/// What an injection asks to have done, for parameters that its kind accepts.
pub open spec fn effect_of(inj: Injection) -> Effect {
    match inj.kind {
        InjectorKind::NetworkLatency => Effect::DelayTraffic {
            delay_ms: inj.magnitude.unwrap_or(0),
            jitter_ms: inj.interval_ms.unwrap_or(0),
        },
        InjectorKind::PacketLoss => Effect::DropPackets {
            loss_ppm: inj.probability_ppm.unwrap_or(0),
        },
        InjectorKind::TcpReset => Effect::ResetConnections { every_ms: inj.interval_ms },
        InjectorKind::CpuStarvation => Effect::StarveCpu {
            ceiling_percent: inj.magnitude.unwrap_or(0),
        },
        InjectorKind::MemoryPressure => match inj.magnitude {
            Some(bytes) => Effect::HoldMemory { bytes },
            None => Effect::HoldMemoryShare { ppm: inj.probability_ppm.unwrap_or(0) },
        },
        InjectorKind::DiskSlow => Effect::ThrottleDisk {
            bytes_per_sec: inj.magnitude.unwrap_or(0),
        },
        InjectorKind::ProcessKill => Effect::KillProcess {
            signal: inj.magnitude.unwrap_or(DEFAULT_SIGNAL),
            restart_after_ms: inj.interval_ms,
        },
    }
}

/// Why a fault cannot be applied, if it cannot: the target cannot carry the
/// kind; else the parameters are not what the kind accepts; else the target
/// carries a fault of this kind already.
pub open spec fn refusal(table: Set<Claim>, target: ResolvedTarget, inj: Injection) -> Option<
    InjectorError,
> {
    if target.capability != inj.kind.capability_spec() {
        Some(InjectorError::TargetUnavailable)
    } else if !inj.kind.accepts_spec(inj.magnitude, inj.probability_ppm, inj.interval_ms) {
        Some(InjectorError::UnsupportedParameter)
    } else if table.contains(Claim { target: target.id, kind: inj.kind }) {
        Some(InjectorError::AlreadyActive)
    } else {
        None
    }
}

/// The injectors.
#[derive(Clone, Copy, Debug)]
pub struct Injector {}

impl Injector {
    /// What an injection asks to have done, or that its parameters are not
    /// what its kind accepts.
    pub fn effect(inj: &Injection) -> (effect: Result<Effect, InjectorError>)
        ensures
            effect == if inj.kind.accepts_spec(
                inj.magnitude,
                inj.probability_ppm,
                inj.interval_ms,
            ) {
                Ok::<Effect, InjectorError>(effect_of(*inj))
            } else {
                Err::<Effect, InjectorError>(InjectorError::UnsupportedParameter)
            },
    {
        if !inj.kind.accepts(inj.magnitude, inj.probability_ppm, inj.interval_ms) {
            return Err(InjectorError::UnsupportedParameter);
        }
        let zero: u64 = 0;
        Ok(
            match inj.kind {
                InjectorKind::NetworkLatency => Effect::DelayTraffic {
                    delay_ms: inj.magnitude.unwrap_or(zero),
                    jitter_ms: inj.interval_ms.unwrap_or(zero),
                },
                InjectorKind::PacketLoss => Effect::DropPackets {
                    loss_ppm: inj.probability_ppm.unwrap_or(zero),
                },
                InjectorKind::TcpReset => Effect::ResetConnections { every_ms: inj.interval_ms },
                InjectorKind::CpuStarvation => Effect::StarveCpu {
                    ceiling_percent: inj.magnitude.unwrap_or(zero),
                },
                InjectorKind::MemoryPressure => match inj.magnitude {
                    Some(bytes) => Effect::HoldMemory { bytes },
                    None => Effect::HoldMemoryShare { ppm: inj.probability_ppm.unwrap_or(zero) },
                },
                InjectorKind::DiskSlow => Effect::ThrottleDisk {
                    bytes_per_sec: inj.magnitude.unwrap_or(zero),
                },
                InjectorKind::ProcessKill => Effect::KillProcess {
                    signal: inj.magnitude.unwrap_or(DEFAULT_SIGNAL),
                    restart_after_ms: inj.interval_ms,
                },
            },
        )
    }

    /// The first step of applying a fault: checks the injection against the
    /// target and the table, and claims the target. On an error the table is
    /// as it was.
    pub fn prepare(
        table: &mut FaultTable,
        target: &ResolvedTarget,
        inj: &Injection,
    ) -> (prepared: Result<ActiveEffect, InjectorError>)
        ensures
            match refusal(old(table)@, *target, *inj) {
                Some(e) => prepared == Err::<ActiveEffect, InjectorError>(e)
                    && final(table)@ == old(table)@,
                None => prepared == Ok::<ActiveEffect, InjectorError>(
                    ActiveEffect { target: target.id, kind: inj.kind, effect: effect_of(*inj) },
                ) && final(table)@ == old(table)@.insert(
                    Claim { target: target.id, kind: inj.kind },
                ),
            },
    {
        if target.capability != inj.kind.capability() {
            return Err(InjectorError::TargetUnavailable);
        }
        let effect = match Self::effect(inj) {
            Ok(effect) => effect,
            Err(e) => {
                return Err(e);
            },
        };
        let claim = Claim { target: target.id, kind: inj.kind };
        if !table.claim(claim) {
            assert(table@ =~= old(table)@);
            return Err(InjectorError::AlreadyActive);
        }
        Ok(ActiveEffect { target: target.id, kind: inj.kind, effect })
    }

    /// The second step of applying a fault, once the host has been asked to
    /// do what `prepare` said. Where the host did it, the fault is live and
    /// its handle is handed out. Where the host refused, the claim is given
    /// up and there is no handle.
    pub fn complete(
        table: &mut FaultTable,
        prepared: &ActiveEffect,
        performed: Result<(), InjectorError>,
        now_ms: u64,
    ) -> (applied: Result<InjectionHandle, InjectorError>)
        ensures
            match performed {
                Ok(_) => applied == Ok::<InjectionHandle, InjectorError>(
                    InjectionHandle::fresh(prepared.kind, prepared.target, now_ms),
                ) && final(table)@ == old(table)@,
                Err(e) => applied == Err::<InjectionHandle, InjectorError>(e) && final(table)@
                    == old(table)@.remove(prepared.claim()),
            },
    {
        match performed {
            Ok(_) => Ok(InjectionHandle::acquire(prepared.kind, prepared.target, now_ms)),
            Err(e) => {
                table.give_up(Claim { target: prepared.target, kind: prepared.kind });
                Err(e)
            },
        }
    }

    /// The last step of a fault's life, once the host has been asked to take
    /// it back. Where the host did, the claim is given up. Where it could
    /// not, the target may still be degraded, and the claim stays.
    pub fn settle(table: &mut FaultTable, handle: &InjectionHandle, reverted: bool)
        ensures
            final(table)@ == if reverted {
                old(table)@.remove(handle.claim())
            } else {
                old(table)@
            },
    {
        if reverted {
            table.give_up(Claim { target: handle.target, kind: handle.kind });
        }
    }
}

/// A fault that was prepared and then refused by the host leaves the table
/// as it was before: nothing is applied in part.
pub proof fn lemma_failed_apply_leaves_nothing(
    before: Set<Claim>,
    target: ResolvedTarget,
    inj: Injection,
)
    requires
        refusal(before, target, inj) is None,
    ensures
        before.insert(Claim { target: target.id, kind: inj.kind }).remove(
            Claim { target: target.id, kind: inj.kind },
        ) == before,
{
    let claim = Claim { target: target.id, kind: inj.kind };
    assert(before.insert(claim).remove(claim) =~= before);
}

} // verus!
