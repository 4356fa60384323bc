use vstd::prelude::*;
use std::collections::HashMap;
use vstd::std_specs::hash::group_hash_axioms;

verus! {

broadcast use group_hash_axioms;

/// What dropping a handle asks of the engine.
#[derive(PartialEq, Eq, Structural, Debug, Clone, Copy)]
pub enum Release {
    /// The handle's reference goes back to the engine.
    Free,
    /// The handle was made during finalizer dispatch: the engine already
    /// owns the teardown of that reference, so nothing is released.
    Suppressed,
    /// No live handle holds a reference to that value: releasing would free
    /// a reference twice, so nothing is released.
    Untracked,
}

/// The number of references that live handles hold to the value `id`.
pub open spec fn held(m: Map<u64, u64>, id: u64) -> nat {
    if m.contains_key(id) {
        m[id] as nat
    } else {
        0
    }
}

/// The ledger after one more handle takes a reference to `id`.
pub open spec fn after_acquire(m: Map<u64, u64>, id: u64) -> Map<u64, u64> {
    m.insert(id, (held(m, id) + 1) as u64)
}

pub open spec fn spec_release_action(m: Map<u64, u64>, id: u64, finalizing: bool) -> Release {
    if finalizing {
        Release::Suppressed
    } else if held(m, id) == 0 {
        Release::Untracked
    } else {
        Release::Free
    }
}

/// The ledger after a handle to `id` is dropped.
pub open spec fn after_release(m: Map<u64, u64>, id: u64, finalizing: bool) -> Map<u64, u64> {
    if spec_release_action(m, id, finalizing) != Release::Free {
        m
    } else if held(m, id) == 1 {
        m.remove(id)
    } else {
        m.insert(id, (held(m, id) - 1) as u64)
    }
}

/// The references that host handles hold, per engine value. Every live
/// handle that was not made during finalizer dispatch holds exactly one
/// reference: making or cloning a handle acquires one, dropping it releases
/// one.
pub struct RefLedger {
    counts: HashMap<u64, u64>,
}

impl View for RefLedger {
    type V = Map<u64, u64>;

    closed spec fn view(&self) -> Map<u64, u64> {
        self.counts@
    }
}

impl RefLedger {
    /// Values with no reference held have no entry.
    pub open spec fn wf(&self) -> bool {
        forall|id: u64| #[trigger] self@.contains_key(id) ==> self@[id] > 0
    }

    pub fn new() -> (r: RefLedger)
        ensures
            r@ == Map::<u64, u64>::empty(),
            r.wf(),
    {
        RefLedger { counts: HashMap::new() }
    }

    /// The number of references that live handles hold to `id`.
    pub fn held(&self, id: u64) -> (r: u64)
        ensures
            r as nat == held(self@, id),
    {
        match self.counts.get(&id) {
            Some(c) => *c,
            None => 0,
        }
    }

    /// Records that a new handle, or a clone, holds a reference to `id`.
    /// Returns `false`, with the ledger unchanged, when the count is at its
    /// largest value.
    pub fn acquire(&mut self, id: u64) -> (r: bool)
        requires
            old(self).wf(),
        ensures
            final(self).wf(),
            r <==> held(old(self)@, id) < u64::MAX,
            r ==> final(self)@ == after_acquire(old(self)@, id),
            !r ==> final(self)@ == old(self)@,
    {
        let c = self.held(id);
        if c == u64::MAX {
            return false;
        }
        self.counts.insert(id, c + 1);
        true
    }

    /// Records that a handle to `id` was dropped, and says whether its
    /// reference goes back to the engine. A handle made during finalizer
    /// dispatch releases nothing.
    pub fn release(&mut self, id: u64, finalizing: bool) -> (r: Release)
        requires
            old(self).wf(),
        ensures
            final(self).wf(),
            r == spec_release_action(old(self)@, id, finalizing),
            final(self)@ == after_release(old(self)@, id, finalizing),
    {
        if finalizing {
            return Release::Suppressed;
        }
        let c = self.held(id);
        if c == 0 {
            return Release::Untracked;
        }
        if c == 1 {
            self.counts.remove(&id);
        } else {
            self.counts.insert(id, c - 1);
        }
        Release::Free
    }
}

/// Cloning a live handle and then dropping either copy leaves the other one
/// holding its reference: the count is back where it was, and dropping the
/// remaining copy later releases to the engine rather than being refused.
pub proof fn lemma_clone_then_drop(m: Map<u64, u64>, id: u64)
    requires
        held(m, id) >= 1,
        held(m, id) < u64::MAX,
    ensures
        spec_release_action(after_acquire(m, id), id, false) == Release::Free,
        held(after_release(after_acquire(m, id), id, false), id) == held(m, id),
        held(after_release(after_acquire(m, id), id, false), id) >= 1,
        spec_release_action(after_release(after_acquire(m, id), id, false), id, false)
            == Release::Free,
{
}

/// Dropping a handle made during finalizer dispatch changes nothing and
/// releases nothing.
pub proof fn lemma_finalizing_release_suppressed(m: Map<u64, u64>, id: u64)
    ensures
        spec_release_action(m, id, true) == Release::Suppressed,
        after_release(m, id, true) == m,
{
}

} // verus!
