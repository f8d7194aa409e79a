//! Live faults: the handle that stands for one, and the table of those
//! that are held.
//!
//! A handle gives out its revert action once, however often it is asked.
//! The table says which targets carry which kind of fault, so that no target
//! is given the same kind twice.

use crate::scenario::InjectorKind;
use vstd::prelude::*;

verus! {

/// A target and a kind of fault: what one live fault lays claim to.
#[derive(Clone, Copy, Debug, PartialEq, Eq, Structural)]
pub struct Claim {
    pub target: usize,
    pub kind: InjectorKind,
}

/// What has to be undone to take a fault back.
#[derive(Clone, Copy, Debug, PartialEq, Eq, Structural)]
pub struct RevertAction {
    pub target: usize,
    pub kind: InjectorKind,
}

/// One live fault.
#[derive(Clone, Copy, Debug, PartialEq, Eq, Structural)]
pub struct InjectionHandle {
    pub kind: InjectorKind,
    pub target: usize,
    /// When the fault was applied, on the caller's clock, in milliseconds.
    pub acquired_at_ms: u64,
    /// Whether the revert action has been given out.
    pub reverted: bool,
}

impl InjectionHandle {
    /// The handle of a fault applied just now.
    pub open spec fn fresh(kind: InjectorKind, target: usize, now_ms: u64) -> InjectionHandle {
        InjectionHandle { kind, target, acquired_at_ms: now_ms, reverted: false }
    }

    /// The revert action that the handle holds.
    pub open spec fn action(self) -> RevertAction {
        RevertAction { target: self.target, kind: self.kind }
    }

    /// What the fault lays claim to.
    pub open spec fn claim(self) -> Claim {
        Claim { target: self.target, kind: self.kind }
    }

    /// The handle after its revert action was given out.
    pub open spec fn spent(self) -> InjectionHandle {
        InjectionHandle { reverted: true, ..self }
    }

    /// The handle of a fault applied just now.
    pub fn acquire(kind: InjectorKind, target: usize, now_ms: u64) -> (handle: Self)
        ensures
            handle == Self::fresh(kind, target, now_ms),
    {
        InjectionHandle { kind, target, acquired_at_ms: now_ms, reverted: false }
    }

    /// Gives out the revert action: the first time it is asked for, and
    /// never again.
    pub fn release(&mut self) -> (action: Option<RevertAction>)
        ensures
            *final(self) == old(self).spent(),
            action == if old(self).reverted {
                None
            } else {
                Some(old(self).action())
            },
    {
        if self.reverted {
            None
        } else {
            self.reverted = true;
            Some(RevertAction { target: self.target, kind: self.kind })
        }
    }

    /// How long the fault has been held at a time; nothing if the clock
    /// ran backwards.
    pub open spec fn held_spec(self, now_ms: u64) -> u64 {
        if now_ms >= self.acquired_at_ms {
            (now_ms - self.acquired_at_ms) as u64
        } else {
            0
        }
    }

    /// How long the fault has been held at a time.
    pub fn held_ms(&self, now_ms: u64) -> (ms: u64)
        ensures
            ms == self.held_spec(now_ms),
    {
        if now_ms >= self.acquired_at_ms {
            now_ms - self.acquired_at_ms
        } else {
            0
        }
    }
}

/// The faults that are held: no claim occurs twice.
pub struct FaultTable {
    claims: Vec<Claim>,
}

impl View for FaultTable {
    type V = Set<Claim>;

    closed spec fn view(&self) -> Set<Claim> {
        self.claims@.to_set()
    }
}

impl FaultTable {
    #[verifier::type_invariant]
    spec fn no_claim_twice(&self) -> bool {
        self.claims@.no_duplicates()
    }

    /// How many faults are held.
    pub closed spec fn count(&self) -> nat {
        self.claims@.len()
    }

    /// A table with no fault held.
    pub fn new() -> (table: Self)
        ensures
            table@ == Set::<Claim>::empty(),
            table.count() == 0,
    {
        let table = FaultTable { claims: Vec::new() };
        assert(table.claims@.to_set() =~= Set::<Claim>::empty());
        table
    }

    /// How many faults are held.
    pub fn live_count(&self) -> (n: usize)
        ensures
            n == self.count(),
            n == 0 <==> self@ == Set::<Claim>::empty(),
    {
        proof {
            if self.claims@.len() == 0 {
                assert(self.claims@.to_set() =~= Set::<Claim>::empty());
            } else {
                assert(self.claims@.to_set().contains(self.claims@[0]));
            }
        }
        self.claims.len()
    }

    /// Whether a claim is held.
    pub fn holds(&self, claim: Claim) -> (held: bool)
        ensures
            held == self@.contains(claim),
    {
        let mut i: usize = 0;
        while i < self.claims.len()
            invariant
                0 <= i <= self.claims@.len(),
                forall|j: int| 0 <= j < i ==> self.claims@[j] != claim,
            decreases self.claims@.len() - i,
        {
            if self.claims[i] == claim {
                assert(self.claims@.contains(claim));
                return true;
            }
            i += 1;
        }
        assert(!self.claims@.contains(claim));
        false
    }

    /// Lays a claim, unless it is held already; says whether it was laid.
    pub fn claim(&mut self, claim: Claim) -> (laid: bool)
        ensures
            laid == !old(self)@.contains(claim),
            final(self)@ == old(self)@.insert(claim),
            final(self).count() == old(self).count() + if laid {
                1nat
            } else {
                0nat
            },
    {
        proof {
            use_type_invariant(&*self);
        }
        if self.holds(claim) {
            assert(self@.insert(claim) =~= self@);
            return false;
        }
        let ghost before = self.claims@;
        let mut claims = copy_claims(&self.claims);
        claims.push(claim);
        proof {
            assert(claims@ =~= before.push(claim));
            assert(claims@.no_duplicates());
        }
        *self = FaultTable { claims };
        proof {
            assert(self.claims@.to_set() =~= before.to_set().insert(claim)) by {
                assert forall|c: Claim| self.claims@.to_set().contains(c) == before.to_set().insert(
                    claim,
                ).contains(c) by {
                    if before.contains(c) {
                        let w = choose|w: int| 0 <= w < before.len() && before[w] == c;
                        assert(self.claims@[w] == c);
                    }
                    if c == claim {
                        assert(self.claims@[before.len() as int] == c);
                    }
                }
            }
        }
        true
    }

    /// Gives a claim up; says whether it was held.
    pub fn give_up(&mut self, claim: Claim) -> (held: bool)
        ensures
            held == old(self)@.contains(claim),
            final(self)@ == old(self)@.remove(claim),
            final(self).count() == old(self).count() - if held {
                1nat
            } else {
                0nat
            },
    {
        proof {
            use_type_invariant(&*self);
        }
        let ghost before = self.claims@;
        let mut i: usize = 0;
        while i < self.claims.len()
            invariant
                0 <= i <= self.claims@.len(),
                self.claims@ == before,
                old(self).claims@ == before,
                before.no_duplicates(),
                forall|j: int| 0 <= j < i ==> before[j] != claim,
            decreases self.claims@.len() - i,
        {
            if self.claims[i] == claim {
                let mut claims = copy_claims(&self.claims);
                claims.remove(i);
                proof {
                    let after = claims@;
                    assert(after =~= before.remove(i as int));
                    assert(after.no_duplicates()) by {
                        assert forall|a: int, b: int|
                            0 <= a < after.len() && 0 <= b < after.len() && a != b implies after[a]
                            != after[b] by {
                            let a0 = if a < i {
                                a
                            } else {
                                a + 1
                            };
                            let b0 = if b < i {
                                b
                            } else {
                                b + 1
                            };
                            assert(after[a] == before[a0]);
                            assert(after[b] == before[b0]);
                        }
                    }
                    assert(after.to_set() =~= before.to_set().remove(claim)) by {
                        assert forall|c: Claim| after.to_set().contains(c) == before.to_set().remove(
                            claim,
                        ).contains(c) by {
                            if after.contains(c) {
                                let w = choose|w: int| 0 <= w < after.len() && after[w] == c;
                                let w0 = if w < i {
                                    w
                                } else {
                                    w + 1
                                };
                                assert(before[w0] == c);
                                assert(w0 != i);
                            }
                            if before.contains(c) && c != claim {
                                let w = choose|w: int| 0 <= w < before.len() && before[w] == c;
                                let w1 = if w < i {
                                    w
                                } else {
                                    w - 1
                                };
                                assert(after[w1] == c);
                            }
                        }
                    }
                }
                assert(before.contains(claim));
                *self = FaultTable { claims };
                return true;
            }
            i += 1;
        }
        proof {
            assert(!before.contains(claim));
            assert(before.to_set().remove(claim) =~= before.to_set());
        }
        false
    }
}

fn copy_claims(claims: &Vec<Claim>) -> (copy: Vec<Claim>)
    ensures
        copy@ == claims@,
{
    let mut copy: Vec<Claim> = Vec::new();
    let mut i: usize = 0;
    while i < claims.len()
        invariant
            0 <= i <= claims@.len(),
            copy@ == claims@.take(i as int),
        decreases claims@.len() - i,
    {
        copy.push(claims[i]);
        assert(claims@.take(i as int).push(claims@[i as int]) =~= claims@.take(i + 1));
        i += 1;
    }
    assert(claims@.take(claims@.len() as int) =~= claims@);
    copy
}

} // verus!
