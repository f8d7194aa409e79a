//! Targets, and how a selector finds one.
//!
//! What exists on the host is listed in an inventory. To resolve a target is
//! to look it up there; nothing is changed by it, so resolving twice gives
//! the same answer, and a target keeps its identity while the inventory
//! grows.

use crate::error::TargetError;
use crate::scenario::{same_text, Capability, Target};
use vstd::prelude::*;

verus! {

/// A target that was found: its place in the inventory, which is its
/// identity, and what it can have done to it.
#[derive(Clone, Copy, Debug, PartialEq, Eq, Structural)]
pub struct ResolvedTarget {
    pub id: usize,
    pub capability: Capability,
}

/// What exists on the host.
#[derive(Debug)]
pub struct Inventory {
    pub entries: Vec<Target>,
}

/// Whether an entry answers to what is wanted: same capability, same selector.
pub open spec fn answers(entry: Target, wanted: Target) -> bool {
    entry.capability == wanted.capability && entry.selector@ == wanted.selector@
}

/// The place of the first entry from `from` on that answers, if any does.
pub open spec fn find_from(entries: Seq<Target>, wanted: Target, from: int) -> Option<int>
    decreases entries.len() - from,
{
    if from < 0 || from >= entries.len() {
        None
    } else if answers(entries[from], wanted) {
        Some(from)
    } else {
        find_from(entries, wanted, from + 1)
    }
}

/// What resolving a target in an inventory gives.
pub open spec fn resolved(entries: Seq<Target>, wanted: Target) -> Result<
    ResolvedTarget,
    TargetError,
> {
    match find_from(entries, wanted, 0) {
        Some(at) => Ok(ResolvedTarget { id: at as usize, capability: wanted.capability }),
        None => Err(TargetError::NotFound),
    }
}

/// What `find_from` finds is the first entry that answers, and it finds
/// nothing only where no entry answers.
pub proof fn lemma_find_is_first(entries: Seq<Target>, wanted: Target, from: int)
    requires
        0 <= from <= entries.len(),
    ensures
        match find_from(entries, wanted, from) {
            Some(at) => from <= at < entries.len() && answers(entries[at], wanted) && forall|
                j: int,
            | from <= j < at ==> !answers(#[trigger] entries[j], wanted),
            None => forall|j: int|
                from <= j < entries.len() ==> !answers(#[trigger] entries[j], wanted),
        },
    decreases entries.len() - from,
{
    if from < entries.len() && !answers(entries[from], wanted) {
        lemma_find_is_first(entries, wanted, from + 1);
    }
}

/// A target that is found keeps its identity when the inventory grows.
pub proof fn lemma_identity_is_stable(entries: Seq<Target>, more: Seq<Target>, wanted: Target)
    requires
        resolved(entries, wanted) is Ok,
    ensures
        resolved(entries + more, wanted) == resolved(entries, wanted),
{
    lemma_find_is_first(entries, wanted, 0);
    lemma_find_is_first(entries + more, wanted, 0);
    let at = find_from(entries, wanted, 0)->0;
    assert((entries + more)[at] == entries[at]);
    match find_from(entries + more, wanted, 0) {
        Some(other) => {
            if other < at {
                assert((entries + more)[other] == entries[other]);
            }
        },
        None => {},
    }
}

impl Inventory {
    /// An inventory with nothing in it.
    pub fn new() -> (inventory: Self)
        ensures
            inventory.entries@.len() == 0,
    {
        Inventory { entries: Vec::new() }
    }

    /// Lists one more target, at the end.
    pub fn add(&mut self, target: Target)
        ensures
            final(self).entries@ == old(self).entries@.push(target),
    {
        self.entries.push(target);
    }

    /// Looks a target up. Nothing is changed; the answer depends on the
    /// inventory and the target alone.
    pub fn resolve(&self, target: &Target) -> (found: Result<ResolvedTarget, TargetError>)
        ensures
            found == resolved(self.entries@, *target),
    {
        let mut i: usize = 0;
        while i < self.entries.len()
            invariant
                0 <= i <= self.entries@.len(),
                find_from(self.entries@, *target, 0) == find_from(self.entries@, *target, i as int),
            decreases self.entries@.len() - i,
        {
            let entry = &self.entries[i];
            if entry.capability == target.capability && same_text(
                entry.selector.as_str(),
                target.selector.as_str(),
            ) {
                return Ok(ResolvedTarget { id: i, capability: target.capability });
            }
            i += 1;
        }
        Err(TargetError::NotFound)
    }
}

} // verus!
