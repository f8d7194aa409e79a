//! What can go wrong, and on which level.
//!
//! Errors of one injection are recorded in its outcome and go no further.
//! Only a scenario that cannot be scheduled, and a second run on a runner
//! that is busy, reach the caller who started the run.

use crate::scenario::SchedulingError;
use vstd::prelude::*;
use vstd::string::StringExecFns;

verus! {

/// A target could not be had.
#[derive(Clone, Copy, Debug, PartialEq, Eq, Structural)]
pub enum TargetError {
    /// Nothing on the host answers to the selector.
    NotFound,
    /// The target exists but may not be touched.
    PermissionDenied,
}

/// A fault could not be applied.
#[derive(Clone, Copy, Debug, PartialEq, Eq, Structural)]
pub enum InjectorError {
    /// The target cannot carry this kind of fault.
    TargetUnavailable,
    /// The parameters are not what the kind accepts.
    UnsupportedParameter,
    /// The host refused the change.
    PermissionDenied,
    /// The same target already carries a fault of the same kind.
    AlreadyActive,
}

/// Why an injection failed.
#[derive(Clone, Copy, Debug, PartialEq, Eq, Structural)]
pub enum FailureReason {
    Target(TargetError),
    Injector(InjectorError),
    /// Something went wrong while the fault was held; it was reverted.
    Interrupted,
}

/// Everything that can go wrong.
#[derive(Clone, Copy, Debug, PartialEq, Eq, Structural)]
pub enum ChaosError {
    Target(TargetError),
    Injector(InjectorError),
    /// A fault could not be taken back; the host may be left degraded.
    Revert,
    Scheduling(SchedulingError),
    /// A run was started on a runner that is running.
    AlreadyRunning,
}

impl ChaosError {
    /// Whether the error belongs to one injection, and so is recorded and
    /// survived, or to the scenario as a whole.
    pub open spec fn is_local_spec(self) -> bool {
        self is Target || self is Injector || self is Revert
    }

    /// Whether the error belongs to one injection.
    pub fn is_local(self) -> (local: bool)
        ensures
            local == self.is_local_spec(),
    {
        match self {
            ChaosError::Target(_) | ChaosError::Injector(_) | ChaosError::Revert => true,
            ChaosError::Scheduling(_) | ChaosError::AlreadyRunning => false,
        }
    }

    /// The words for the error.
    pub open spec fn message_spec(self) -> Seq<char> {
        match self {
            ChaosError::Target(TargetError::NotFound) => "target not found"@,
            ChaosError::Target(TargetError::PermissionDenied) => "target: permission denied"@,
            ChaosError::Injector(InjectorError::TargetUnavailable) => "target unavailable"@,
            ChaosError::Injector(InjectorError::UnsupportedParameter) => "unsupported parameter"@,
            ChaosError::Injector(InjectorError::PermissionDenied) => "injector: permission denied"@,
            ChaosError::Injector(InjectorError::AlreadyActive) => "fault already active"@,
            ChaosError::Revert => "revert failed"@,
            ChaosError::Scheduling(SchedulingError::DuplicatePhaseName { .. }) =>
                "duplicate phase name"@,
            ChaosError::Scheduling(SchedulingError::UnsupportedParameter { .. }) =>
                "scenario holds an unsupported parameter"@,
            ChaosError::Scheduling(SchedulingError::WrongCapability { .. }) =>
                "scenario aims a fault at a target that cannot carry it"@,
            ChaosError::Scheduling(SchedulingError::TooManyInjections) =>
                "scenario holds too many injections"@,
            ChaosError::AlreadyRunning => "a run is already in progress"@,
        }
    }

    /// The words for the error.
    pub fn message(self) -> (words: String)
        ensures
            words@ == self.message_spec(),
    {
        let words: &'static str = match self {
            ChaosError::Target(TargetError::NotFound) => "target not found",
            ChaosError::Target(TargetError::PermissionDenied) => "target: permission denied",
            ChaosError::Injector(InjectorError::TargetUnavailable) => "target unavailable",
            ChaosError::Injector(InjectorError::UnsupportedParameter) => "unsupported parameter",
            ChaosError::Injector(InjectorError::PermissionDenied) => "injector: permission denied",
            ChaosError::Injector(InjectorError::AlreadyActive) => "fault already active",
            ChaosError::Revert => "revert failed",
            ChaosError::Scheduling(SchedulingError::DuplicatePhaseName { .. }) =>
                "duplicate phase name",
            ChaosError::Scheduling(SchedulingError::UnsupportedParameter { .. }) =>
                "scenario holds an unsupported parameter",
            ChaosError::Scheduling(SchedulingError::WrongCapability { .. }) =>
                "scenario aims a fault at a target that cannot carry it",
            ChaosError::Scheduling(SchedulingError::TooManyInjections) =>
                "scenario holds too many injections",
            ChaosError::AlreadyRunning => "a run is already in progress",
        };
        String::from_str(words)
    }
}

} // verus!
