//! The executor: the life of one injection, from the first look at its
//! target to the moment its fault has been taken back.
//!
//! The executor does not touch the host. It is told what happened, one
//! event at a time, and answers with the next thing to do: apply an effect,
//! wait, revert, or finish with an outcome. Whoever drives it performs the
//! actions and reports back.
//!
//! The fault's handle never leaves the executor. Once a fault is live,
//! every way forward leads through exactly one revert: when the hold is
//! over, when a stop is asked for, and when something goes wrong in between.

use crate::error::{FailureReason, InjectorError, TargetError};
use crate::handle::{Claim, FaultTable, InjectionHandle, RevertAction};
use crate::injectors::{effect_of, refusal, ActiveEffect, Injector};
use crate::scenario::Injection;
use crate::target::{resolved, Inventory, ResolvedTarget};
use vstd::prelude::*;

verus! {

/// The longest wait between two looks at the stop signal, in milliseconds.
pub const POLL_MS: u64 = 100;

/// Why a fault is taken back.
#[derive(Clone, Copy, Debug, PartialEq, Eq, Structural)]
pub enum RevertCause {
    /// The hold is over.
    Expired,
    /// A stop was asked for.
    Cancelled,
    /// Something went wrong while the fault was held.
    Faulted,
}

/// How one injection ended.
#[derive(Clone, Copy, Debug, PartialEq, Eq, Structural)]
pub enum InjectionOutcome {
    /// The fault was held to the end and taken back.
    Completed { held_ms: u64 },
    /// The fault was taken back early because a stop was asked for.
    Cancelled { held_ms: u64 },
    /// No fault was applied, or one was and had to be taken back for a
    /// failure.
    Failed { reason: FailureReason },
    /// The fault could not be taken back: the host may be left degraded.
    RevertFailed,
}

impl InjectionOutcome {
    /// Whether the injection counts as a success: its fault was applied
    /// and taken back, at the end of its hold or on a stop.
    pub open spec fn succeeded_spec(self) -> bool {
        self is Completed || self is Cancelled
    }

    /// Whether the injection counts as a success.
    pub fn succeeded(self) -> (ok: bool)
        ensures
            ok == self.succeeded_spec(),
    {
        match self {
            InjectionOutcome::Completed { .. } | InjectionOutcome::Cancelled { .. } => true,
            _ => false,
        }
    }
}

/// Where an injection stands.
#[derive(Clone, Copy, Debug, PartialEq, Eq, Structural)]
pub enum ExecutorState {
    /// Nothing has happened yet.
    Ready,
    /// The target is claimed and the host has been asked to apply the fault.
    Applying { effect: ActiveEffect },
    /// The fault is live and is held until a time.
    Holding { handle: InjectionHandle, until_ms: u64 },
    /// The host has been asked to take the fault back.
    Reverting { handle: InjectionHandle, cause: RevertCause, held_ms: u64 },
    /// The injection is over.
    Done { outcome: InjectionOutcome },
}

/// What the executor is told.
#[derive(Clone, Copy, Debug)]
pub enum ExecutorEvent {
    /// Begin.
    Start,
    /// The host was asked to apply the fault, and did, or refused.
    Applied { refused: Option<InjectorError>, now_ms: u64 },
    /// Time has passed; a stop may have been asked for.
    Tick { now_ms: u64, stop: bool },
    /// Something went wrong while the fault was held.
    Fault { now_ms: u64 },
    /// The host was asked to take the fault back, and did, or could not.
    Reverted { ok: bool },
}

/// What the executor wants done next.
#[derive(Clone, Copy, Debug, PartialEq, Eq, Structural)]
pub enum ExecutorAction {
    /// Apply the effect, and report with `Applied`.
    Apply { effect: ActiveEffect },
    /// Wait at most this long, and report with `Tick`.
    Wait { ms: u64 },
    /// Take the fault back, and report with `Reverted`.
    Revert { action: RevertAction },
    /// Record the outcome; the injection is over.
    Finish { outcome: InjectionOutcome },
    /// The event does not belong to the state the injection is in.
    Ignore,
}

/// A state, the action that led to it, and the table of faults beside them.
pub struct Step {
    pub state: ExecutorState,
    pub action: ExecutorAction,
    pub table: Set<Claim>,
}

/// The smaller of two.
pub open spec fn least(a: u64, b: u64) -> u64 {
    if a <= b {
        a
    } else {
        b
    }
}

/// The end of a hold that begins now, no later than the clock can tell.
pub open spec fn hold_end(now_ms: u64, hold_ms: u64) -> u64 {
    if now_ms + hold_ms <= u64::MAX {
        (now_ms + hold_ms) as u64
    } else {
        u64::MAX
    }
}

/// The outcome of an injection whose fault was taken back.
pub open spec fn outcome_after(cause: RevertCause, held_ms: u64) -> InjectionOutcome {
    match cause {
        RevertCause::Expired => InjectionOutcome::Completed { held_ms },
        RevertCause::Cancelled => InjectionOutcome::Cancelled { held_ms },
        RevertCause::Faulted => InjectionOutcome::Failed { reason: FailureReason::Interrupted },
    }
}

/// What follows an event, for an injection to be held for `hold_ms` whose
/// target resolves to `found`.
///
/// 1. On `Start`: a target that is not found, or a fault that is refused,
///    ends the injection as failed; no fault was applied and the table is
///    as it was. Otherwise the target is claimed and the effect is to be
///    applied.
/// 2. On `Applied`: where the host refused, the claim is given up and the
///    injection has failed. Where it did not, the fault is live until the
///    hold is over, and the stop signal is to be looked at after a short wait.
/// 3. On `Tick` while the fault is live: once the hold is over or a stop
///    is asked for, the fault is to be taken back at once; else the wait
///    goes on. On `Fault` it is taken back at once as well.
/// 4. On `Reverted`: where the host took the fault back, the claim is
///    given up and the outcome follows from why it was taken back. Where it
///    could not, the outcome is `RevertFailed` and the claim stays.
///
/// An event that does not belong to the state changes nothing: a stop
/// cannot interrupt a revert, and nothing revives an injection that is over.
pub open spec fn next(
    state: ExecutorState,
    inj: Injection,
    hold_ms: u64,
    found: Result<ResolvedTarget, TargetError>,
    table: Set<Claim>,
    event: ExecutorEvent,
) -> Step {
    match (state, event) {
        (ExecutorState::Ready, ExecutorEvent::Start) => match found {
            Err(e) => ended(InjectionOutcome::Failed { reason: FailureReason::Target(e) }, table),
            Ok(target) => match refusal(table, target, inj) {
                Some(e) => ended(
                    InjectionOutcome::Failed { reason: FailureReason::Injector(e) },
                    table,
                ),
                None => {
                    let effect = ActiveEffect {
                        target: target.id,
                        kind: inj.kind,
                        effect: effect_of(inj),
                    };
                    Step {
                        state: ExecutorState::Applying { effect },
                        action: ExecutorAction::Apply { effect },
                        table: table.insert(effect.claim()),
                    }
                },
            },
        },
        (ExecutorState::Applying { effect }, ExecutorEvent::Applied { refused, now_ms }) => match refused {
            Some(e) => ended(
                InjectionOutcome::Failed { reason: FailureReason::Injector(e) },
                table.remove(effect.claim()),
            ),
            None => Step {
                state: ExecutorState::Holding {
                    handle: InjectionHandle::fresh(effect.kind, effect.target, now_ms),
                    until_ms: hold_end(now_ms, hold_ms),
                },
                action: ExecutorAction::Wait { ms: least(hold_ms, POLL_MS) },
                table,
            },
        },
        (ExecutorState::Holding { handle, until_ms }, ExecutorEvent::Tick { now_ms, stop }) => if now_ms
            >= until_ms || stop {
            Step {
                state: ExecutorState::Reverting {
                    handle: handle.spent(),
                    cause: if now_ms >= until_ms {
                        RevertCause::Expired
                    } else {
                        RevertCause::Cancelled
                    },
                    held_ms: handle.held_spec(now_ms),
                },
                action: ExecutorAction::Revert { action: handle.action() },
                table,
            }
        } else {
            Step {
                state,
                action: ExecutorAction::Wait { ms: least((until_ms - now_ms) as u64, POLL_MS) },
                table,
            }
        },
        (ExecutorState::Holding { handle, until_ms }, ExecutorEvent::Fault { now_ms }) => Step {
            state: ExecutorState::Reverting {
                handle: handle.spent(),
                cause: RevertCause::Faulted,
                held_ms: handle.held_spec(now_ms),
            },
            action: ExecutorAction::Revert { action: handle.action() },
            table,
        },
        (ExecutorState::Reverting { handle, cause, held_ms }, ExecutorEvent::Reverted { ok }) => if ok {
            ended(outcome_after(cause, held_ms), table.remove(handle.claim()))
        } else {
            ended(InjectionOutcome::RevertFailed, table)
        },
        _ => Step { state, action: ExecutorAction::Ignore, table },
    }
}

/// What follows when the owner of an injection gives it up at a time:
/// a fault that is held is to be taken back at once, as on a stop; in every
/// other state nothing changes and nothing is to be done.
pub open spec fn abandoned(state: ExecutorState, now_ms: u64) -> (ExecutorState, ExecutorAction) {
    match state {
        ExecutorState::Holding { handle, until_ms } => (
            ExecutorState::Reverting {
                handle: handle.spent(),
                cause: RevertCause::Cancelled,
                held_ms: handle.held_spec(now_ms),
            },
            ExecutorAction::Revert { action: handle.action() },
        ),
        _ => (state, ExecutorAction::Ignore),
    }
}

/// What the owner of an injection does with it: tell it of an event, or
/// give it up.
pub enum Move {
    Tell { event: ExecutorEvent },
    GiveUp { now_ms: u64 },
}

/// What follows a move.
pub open spec fn moved(
    state: ExecutorState,
    inj: Injection,
    hold_ms: u64,
    found: Result<ResolvedTarget, TargetError>,
    table: Set<Claim>,
    m: Move,
) -> Step {
    match m {
        Move::Tell { event } => next(state, inj, hold_ms, found, table, event),
        Move::GiveUp { now_ms } => Step {
            state: abandoned(state, now_ms).0,
            action: abandoned(state, now_ms).1,
            table,
        },
    }
}

/// The step that ends an injection with an outcome.
pub open spec fn ended(outcome: InjectionOutcome, table: Set<Claim>) -> Step {
    Step {
        state: ExecutorState::Done { outcome },
        action: ExecutorAction::Finish { outcome },
        table,
    }
}

/// The executor of one injection.
pub struct Executor {
    injection: Injection,
    hold_ms: u64,
    state: ExecutorState,
}

impl Executor {
    /// A fault that is held has its revert action still; one that is being
    /// taken back has given it out.
    #[verifier::type_invariant]
    spec fn handle_in_step(&self) -> bool {
        match self.state {
            ExecutorState::Holding { handle, .. } => !handle.reverted,
            ExecutorState::Reverting { handle, .. } => handle.reverted,
            _ => true,
        }
    }

    /// The injection that is run.
    pub closed spec fn injection(&self) -> Injection {
        self.injection
    }

    /// How long the fault is to be held.
    pub closed spec fn hold(&self) -> u64 {
        self.hold_ms
    }

    /// Where the injection stands.
    pub closed spec fn state(&self) -> ExecutorState {
        self.state
    }

    /// An executor for one injection, to be held for `hold_ms`.
    pub fn new(injection: Injection, hold_ms: u64) -> (executor: Self)
        ensures
            executor.injection() == injection,
            executor.hold() == hold_ms,
            executor.state() == ExecutorState::Ready,
    {
        Executor { injection, hold_ms, state: ExecutorState::Ready }
    }

    /// Where the injection stands.
    pub fn current(&self) -> (state: ExecutorState)
        ensures
            state == self.state(),
    {
        self.state
    }

    /// The outcome, once the injection is over.
    pub fn outcome(&self) -> (outcome: Option<InjectionOutcome>)
        ensures
            outcome == match self.state() {
                ExecutorState::Done { outcome } => Some(outcome),
                _ => None,
            },
    {
        match self.state {
            ExecutorState::Done { outcome } => Some(outcome),
            _ => None,
        }
    }

    /// Whether a fault of this injection is live: applied, and not yet
    /// known to have been taken back.
    pub fn has_live_fault(&self) -> (live: bool)
        ensures
            live == (self.state() is Holding || self.state() is Reverting),
    {
        match self.state {
            ExecutorState::Holding { .. } | ExecutorState::Reverting { .. } => true,
            _ => false,
        }
    }

    /// Takes one event and says what to do next. The injection and its
    /// hold stay as they are; state, action and table are those of `next`.
    pub fn step(
        &mut self,
        inventory: &Inventory,
        table: &mut FaultTable,
        event: ExecutorEvent,
    ) -> (action: ExecutorAction)
        ensures
            final(self).injection() == old(self).injection(),
            final(self).hold() == old(self).hold(),
            final(self).state() == next(
                old(self).state(),
                old(self).injection(),
                old(self).hold(),
                resolved(inventory.entries@, old(self).injection().target),
                old(table)@,
                event,
            ).state,
            action == next(
                old(self).state(),
                old(self).injection(),
                old(self).hold(),
                resolved(inventory.entries@, old(self).injection().target),
                old(table)@,
                event,
            ).action,
            final(table)@ == next(
                old(self).state(),
                old(self).injection(),
                old(self).hold(),
                resolved(inventory.entries@, old(self).injection().target),
                old(table)@,
                event,
            ).table,
    {
        proof {
            use_type_invariant(&*self);
        }
        let state = self.state;
        match (state, event) {
            (ExecutorState::Ready, ExecutorEvent::Start) => {
                let target = match inventory.resolve(&self.injection.target) {
                    Ok(target) => target,
                    Err(e) => {
                        return self.finish(
                            InjectionOutcome::Failed { reason: FailureReason::Target(e) },
                        );
                    },
                };
                match Injector::prepare(table, &target, &self.injection) {
                    Ok(effect) => {
                        self.state = ExecutorState::Applying { effect };
                        ExecutorAction::Apply { effect }
                    },
                    Err(e) => self.finish(
                        InjectionOutcome::Failed { reason: FailureReason::Injector(e) },
                    ),
                }
            },
            (ExecutorState::Applying { effect }, ExecutorEvent::Applied { refused, now_ms }) => {
                let performed: Result<(), InjectorError> = match refused {
                    Some(e) => Err(e),
                    None => Ok(()),
                };
                match Injector::complete(table, &effect, performed, now_ms) {
                    Ok(handle) => {
                        let until_ms: u64 = if self.hold_ms > u64::MAX - now_ms {
                            u64::MAX
                        } else {
                            now_ms + self.hold_ms
                        };
                        self.state = ExecutorState::Holding { handle, until_ms };
                        ExecutorAction::Wait { ms: smaller(self.hold_ms, POLL_MS) }
                    },
                    Err(e) => self.finish(
                        InjectionOutcome::Failed { reason: FailureReason::Injector(e) },
                    ),
                }
            },
            (ExecutorState::Holding { handle, until_ms }, ExecutorEvent::Tick { now_ms, stop }) => {
                if now_ms >= until_ms || stop {
                    let cause = if now_ms >= until_ms {
                        RevertCause::Expired
                    } else {
                        RevertCause::Cancelled
                    };
                    self.revert(handle, cause, now_ms)
                } else {
                    ExecutorAction::Wait { ms: smaller(until_ms - now_ms, POLL_MS) }
                }
            },
            (ExecutorState::Holding { handle, until_ms }, ExecutorEvent::Fault { now_ms }) => {
                self.revert(handle, RevertCause::Faulted, now_ms)
            },
            (ExecutorState::Reverting { handle, cause, held_ms }, ExecutorEvent::Reverted { ok }) => {
                Injector::settle(table, &handle, ok);
                if ok {
                    let outcome = match cause {
                        RevertCause::Expired => InjectionOutcome::Completed { held_ms },
                        RevertCause::Cancelled => InjectionOutcome::Cancelled { held_ms },
                        RevertCause::Faulted => InjectionOutcome::Failed {
                            reason: FailureReason::Interrupted,
                        },
                    };
                    self.finish(outcome)
                } else {
                    self.finish(InjectionOutcome::RevertFailed)
                }
            },
            _ => ExecutorAction::Ignore,
        }
    }

    /// For the owner that is torn down while the fault is live: whatever
    /// the state, says what is left to undo. While the fault is held this
    /// is its revert action, and the injection goes on as cancelled. In
    /// every other state there is nothing to undo: no fault is live, or its
    /// revert was given out before. State and action are those of
    /// `abandoned`.
    pub fn abandon(&mut self, now_ms: u64) -> (left: Option<RevertAction>)
        ensures
            final(self).injection() == old(self).injection(),
            final(self).hold() == old(self).hold(),
            final(self).state() == abandoned(old(self).state(), now_ms).0,
            left == match abandoned(old(self).state(), now_ms).1 {
                ExecutorAction::Revert { action } => Some(action),
                _ => None,
            },
    {
        proof {
            use_type_invariant(&*self);
        }
        match self.state {
            ExecutorState::Holding { handle, until_ms } => {
                match self.revert(handle, RevertCause::Cancelled, now_ms) {
                    ExecutorAction::Revert { action } => Some(action),
                    _ => None,
                }
            },
            _ => None,
        }
    }

    fn finish(&mut self, outcome: InjectionOutcome) -> (action: ExecutorAction)
        ensures
            final(self).injection() == old(self).injection(),
            final(self).hold() == old(self).hold(),
            final(self).state() == (ExecutorState::Done { outcome }),
            action == (ExecutorAction::Finish { outcome }),
    {
        self.state = ExecutorState::Done { outcome };
        ExecutorAction::Finish { outcome }
    }

    fn revert(
        &mut self,
        handle: InjectionHandle,
        cause: RevertCause,
        now_ms: u64,
    ) -> (action: ExecutorAction)
        requires
            !handle.reverted,
        ensures
            final(self).injection() == old(self).injection(),
            final(self).hold() == old(self).hold(),
            final(self).state() == (ExecutorState::Reverting {
                handle: handle.spent(),
                cause,
                held_ms: handle.held_spec(now_ms),
            }),
            action == (ExecutorAction::Revert { action: handle.action() }),
    {
        let mut handle = handle;
        let held_ms = handle.held_ms(now_ms);
        match handle.release() {
            Some(action) => {
                self.state = ExecutorState::Reverting { handle, cause, held_ms };
                ExecutorAction::Revert { action }
            },
            None => ExecutorAction::Ignore,
        }
    }
}

fn smaller(a: u64, b: u64) -> (m: u64)
    ensures
        m == least(a, b),
{
    if a <= b {
        a
    } else {
        b
    }
}

/// Where a sequence of moves has led, and what happened on the way.
pub struct Trace {
    pub state: ExecutorState,
    pub table: Set<Claim>,
    /// How often a fault went live.
    pub applied: nat,
    /// How often a revert was asked for.
    pub reverts: nat,
}

/// Where a sequence of moves leads from the start, whatever the moves
/// are and in whatever order they come.
pub open spec fn trace(
    inj: Injection,
    hold_ms: u64,
    found: Result<ResolvedTarget, TargetError>,
    table: Set<Claim>,
    moves: Seq<Move>,
) -> Trace
    decreases moves.len(),
{
    if moves.len() == 0 {
        Trace { state: ExecutorState::Ready, table, applied: 0, reverts: 0 }
    } else {
        let before = trace(inj, hold_ms, found, table, moves.drop_last());
        let step = moved(before.state, inj, hold_ms, found, before.table, moves.last());
        Trace {
            state: step.state,
            table: step.table,
            applied: before.applied + if before.state is Applying && step.state is Holding {
                1nat
            } else {
                0nat
            },
            reverts: before.reverts + if step.action is Revert {
                1nat
            } else {
                0nat
            },
        }
    }
}

/// What an injection lays claim to once its target is found.
pub open spec fn claim_of(inj: Injection, found: Result<ResolvedTarget, TargetError>) -> Claim {
    Claim { target: found->Ok_0.id, kind: inj.kind }
}

/// What holds after every sequence of moves.
pub open spec fn in_order(
    t: Trace,
    inj: Injection,
    found: Result<ResolvedTarget, TargetError>,
    table: Set<Claim>,
) -> bool {
    let claim = claim_of(inj, found);
    match t.state {
        ExecutorState::Ready => t.applied == 0 && t.reverts == 0 && t.table == table,
        ExecutorState::Applying { effect } => {
            &&& t.applied == 0 && t.reverts == 0
            &&& found is Ok && effect.claim() == claim
            &&& !table.contains(claim) && t.table == table.insert(claim)
        },
        ExecutorState::Holding { handle, .. } => {
            &&& t.applied == 1 && t.reverts == 0
            &&& found is Ok && handle.claim() == claim && !handle.reverted
            &&& !table.contains(claim) && t.table == table.insert(claim)
        },
        ExecutorState::Reverting { handle, .. } => {
            &&& t.applied == 1 && t.reverts == 1
            &&& found is Ok && handle.claim() == claim && handle.reverted
            &&& !table.contains(claim) && t.table == table.insert(claim)
        },
        ExecutorState::Done { outcome } => {
            &&& t.applied <= 1 && t.reverts == t.applied
            &&& if outcome is RevertFailed {
                found is Ok && !table.contains(claim) && t.table == table.insert(claim)
            } else {
                t.table == table
            }
            &&& outcome.succeeded_spec() ==> t.applied == 1
        },
    }
}

proof fn lemma_in_order(
    inj: Injection,
    hold_ms: u64,
    found: Result<ResolvedTarget, TargetError>,
    table: Set<Claim>,
    moves: Seq<Move>,
)
    ensures
        in_order(trace(inj, hold_ms, found, table, moves), inj, found, table),
    decreases moves.len(),
{
    if moves.len() > 0 {
        lemma_in_order(inj, hold_ms, found, table, moves.drop_last());
        let before = trace(inj, hold_ms, found, table, moves.drop_last());
        let claim = claim_of(inj, found);
        if !table.contains(claim) {
            assert(table.insert(claim).remove(claim) =~= table);
        }
    }
}

/// A fault that went live is taken back exactly once, whatever happens:
/// the hold runs out, a stop is asked for, something fails, the owner
/// gives the injection up, events come twice or out of turn. After any
/// sequence of moves at most one fault went live and no more reverts were
/// asked for than faults went live, whether by a step or by giving up; while
/// the fault is held none was asked for yet; and once the injection is over
/// there were as many reverts as live faults.
pub proof fn lemma_revert_exactly_once(
    inj: Injection,
    hold_ms: u64,
    found: Result<ResolvedTarget, TargetError>,
    table: Set<Claim>,
    moves: Seq<Move>,
)
    ensures
        ({
            let t = trace(inj, hold_ms, found, table, moves);
            &&& t.applied <= 1
            &&& t.reverts <= t.applied
            &&& t.state is Holding ==> t.applied == 1 && t.reverts == 0
            &&& t.state is Reverting ==> t.applied == 1 && t.reverts == 1
            &&& t.state is Done ==> t.reverts == t.applied
            &&& t.state matches ExecutorState::Done { outcome } ==> (outcome.succeeded_spec()
                ==> t.reverts == 1)
        }),
{
    lemma_in_order(inj, hold_ms, found, table, moves);
}

/// An injection that is over has left the table of faults as it found it,
/// unless its fault could not be taken back; and one that failed before its
/// fault went live has never had a revert asked for.
pub proof fn lemma_no_fault_left_behind(
    inj: Injection,
    hold_ms: u64,
    found: Result<ResolvedTarget, TargetError>,
    table: Set<Claim>,
    moves: Seq<Move>,
)
    ensures
        ({
            let t = trace(inj, hold_ms, found, table, moves);
            &&& t.state matches ExecutorState::Done { outcome } ==> (!(outcome is RevertFailed)
                ==> t.table == table)
            &&& t.state is Ready ==> t.table == table
            &&& t.applied == 0 ==> t.reverts == 0
        }),
{
    lemma_in_order(inj, hold_ms, found, table, moves);
}

/// While a fault is held, a stop leads to its revert at once, and so do
/// the end of the hold, a failure, and giving the injection up: nothing
/// leaves a held fault behind without a revert but a tick before the end
/// with no stop asked for.
pub proof fn lemma_stop_reverts_at_once(
    handle: InjectionHandle,
    until_ms: u64,
    inj: Injection,
    hold_ms: u64,
    found: Result<ResolvedTarget, TargetError>,
    table: Set<Claim>,
    now_ms: u64,
)
    ensures
        next(
            ExecutorState::Holding { handle, until_ms },
            inj,
            hold_ms,
            found,
            table,
            ExecutorEvent::Tick { now_ms, stop: true },
        ).action == (ExecutorAction::Revert { action: handle.action() }),
        next(
            ExecutorState::Holding { handle, until_ms },
            inj,
            hold_ms,
            found,
            table,
            ExecutorEvent::Fault { now_ms },
        ).action == (ExecutorAction::Revert { action: handle.action() }),
        now_ms >= until_ms ==> next(
            ExecutorState::Holding { handle, until_ms },
            inj,
            hold_ms,
            found,
            table,
            ExecutorEvent::Tick { now_ms, stop: false },
        ).action == (ExecutorAction::Revert { action: handle.action() }),
        abandoned(ExecutorState::Holding { handle, until_ms }, now_ms).1 == (ExecutorAction::Revert {
            action: handle.action(),
        }),
{
}

} // verus!
