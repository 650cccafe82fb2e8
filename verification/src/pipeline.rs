//! The fixed, ordered collection of draw strategies and the policy that
//! selects the active one.

use vstd::prelude::*;
use vstd::arithmetic::div_mod::{
    lemma_add_mod_noop,
    lemma_add_mod_noop_right,
    lemma_mod_add_multiples_vanish,
    lemma_mod_bound,
    lemma_small_mod,
};

verus! {

/// How a pipeline dispatches its geometry. This is a first-class property of
/// each entry, so draw dispatch is decided by the tag, never by comparing
/// positions in the collection.
#[derive(Clone, Copy, PartialEq, Eq, Structural, Debug)]
pub enum PipelineKind {
    /// No vertex buffer: three implicit vertices supplied by the invocation id.
    NonIndexed,
    /// Binds the geometry store's vertex and index buffers and draws every index.
    IndexedMesh,
}

/// How a press of the selection key changes the active pipeline.
#[derive(Clone, Copy, PartialEq, Eq, Structural, Debug)]
pub enum SelectPolicy {
    /// Each press advances the active pipeline by one, wrapping around.
    Toggle,
    /// The alternate pipeline is active while the key is held; releasing it
    /// returns to the first.
    Hold,
}

/// The index one cycle step leads to.
pub open spec fn next_index(i: int, count: int) -> int {
    (i + 1) % count
}

/// The index `n` cycle steps from `i` lead to.
pub open spec fn cycled(i: int, n: nat, count: int) -> int
    decreases n,
{
    if n == 0 {
        i
    } else {
        cycled(next_index(i, count), (n - 1) as nat, count)
    }
}

/// `n` cycle steps from a valid index land on `(i + n) mod count`.
pub proof fn lemma_cycled_formula(i: int, n: nat, count: int)
    requires
        0 < count,
        0 <= i < count,
    ensures
        cycled(i, n, count) == (i + n) % count,
    decreases n,
{
    if n == 0 {
        lemma_small_mod(i as nat, count as nat);
    } else {
        lemma_mod_bound(i + 1, count);
        lemma_cycled_formula(next_index(i, count), (n - 1) as nat, count);
        lemma_add_mod_noop(i + 1, n - 1, count);
        lemma_add_mod_noop_right((i + 1) % count, n - 1, count);
    }
}

/// Cycling as many times as there are pipelines returns to the original
/// active index.
pub proof fn lemma_cycle_full_round(i: int, count: int)
    requires
        0 < count,
        0 <= i < count,
    ensures
        cycled(i, count as nat, count) == i,
{
    lemma_cycled_formula(i, count as nat, count);
    lemma_mod_add_multiples_vanish(i, count);
    lemma_small_mod(i as nat, count as nat);
}

/// Starting from the first pipeline, `n` cycle steps land on `n mod count`.
pub proof fn lemma_cycle_from_zero(n: nat, count: int)
    requires
        0 < count,
    ensures
        cycled(0, n, count) == (n as int) % count,
{
    lemma_cycled_formula(0, n, count);
}

/// The ordered pipelines, exactly one of which is active, and the selection
/// policy for the cycling key.
pub struct PipelineSet {
    pub kinds: Vec<PipelineKind>,
    pub active: usize,
    pub policy: SelectPolicy,
}

impl PipelineSet {
    /// The collection is never empty and the active index stays in range.
    pub open spec fn wf(self) -> bool {
        0 < self.kinds@.len() && (self.active as int) < self.kinds@.len()
    }

    /// The fixed set: a flat single-color triangle, a per-vertex-color
    /// triangle (both bufferless), then the indexed mesh pipeline. The last
    /// one starts active.
    pub fn new(policy: SelectPolicy) -> (s: PipelineSet)
        ensures
            s.kinds@.len() == 3,
            s.kinds@[0] == PipelineKind::NonIndexed,
            s.kinds@[1] == PipelineKind::NonIndexed,
            s.kinds@[2] == PipelineKind::IndexedMesh,
            s.active == 2,
            s.policy == policy,
            s.wf(),
    {
        let mut kinds: Vec<PipelineKind> = Vec::new();
        kinds.push(PipelineKind::NonIndexed);
        kinds.push(PipelineKind::NonIndexed);
        kinds.push(PipelineKind::IndexedMesh);
        PipelineSet { kinds, active: 2, policy }
    }

    pub fn pipeline_count(&self) -> (n: usize)
        ensures
            n == self.kinds@.len(),
    {
        self.kinds.len()
    }

    pub fn active_index(&self) -> (i: usize)
        ensures
            i == self.active,
    {
        self.active
    }

    /// The dispatch tag of the active pipeline.
    pub fn active_kind(&self) -> (k: PipelineKind)
        requires
            self.wf(),
        ensures
            k == self.kinds@[self.active as int],
    {
        self.kinds[self.active]
    }

    /// Set the active index; the index space is identified with
    /// `index mod pipeline_count`, so no selection can go out of range.
    pub fn select(&mut self, index: usize)
        requires
            old(self).wf(),
        ensures
            final(self).active as int == (index as int) % (old(self).kinds@.len() as int),
            final(self).kinds == old(self).kinds,
            final(self).policy == old(self).policy,
            final(self).wf(),
    {
        let count = self.kinds.len();
        self.active = index % count;
        proof {
            lemma_mod_bound(index as int, count as int);
        }
    }

    /// Advance the active index by one, wrapping around.
    pub fn cycle_next(&mut self)
        requires
            old(self).wf(),
        ensures
            final(self).active as int == next_index(
                old(self).active as int,
                old(self).kinds@.len() as int,
            ),
            final(self).kinds == old(self).kinds,
            final(self).policy == old(self).policy,
            final(self).wf(),
    {
        let count = self.kinds.len();
        self.active = (self.active + 1) % count;
        proof {
            lemma_mod_bound(old(self).active as int + 1, count as int);
        }
    }

    /// React to a press of the selection key: under `Toggle` advance by one;
    /// under `Hold` switch to the alternate pipeline.
    pub fn on_select_press(&mut self)
        requires
            old(self).wf(),
        ensures
            old(self).policy == SelectPolicy::Toggle ==> final(self).active as int == next_index(
                old(self).active as int,
                old(self).kinds@.len() as int,
            ),
            old(self).policy == SelectPolicy::Hold ==> final(self).active as int == 1int % (
            old(self).kinds@.len() as int),
            final(self).kinds == old(self).kinds,
            final(self).policy == old(self).policy,
            final(self).wf(),
    {
        match self.policy {
            SelectPolicy::Toggle => self.cycle_next(),
            SelectPolicy::Hold => self.select(1),
        }
    }

    /// React to a release of the selection key: under `Hold` return to the
    /// first pipeline and report the event handled; under `Toggle` a release
    /// means nothing.
    pub fn on_select_release(&mut self) -> (handled: bool)
        requires
            old(self).wf(),
        ensures
            old(self).policy == SelectPolicy::Toggle ==> *final(self) == *old(self) && !handled,
            old(self).policy == SelectPolicy::Hold ==> final(self).active == 0 && handled,
            final(self).kinds == old(self).kinds,
            final(self).policy == old(self).policy,
            final(self).wf(),
    {
        match self.policy {
            SelectPolicy::Toggle => false,
            SelectPolicy::Hold => {
                self.select(0);
                true
            },
        }
    }
}

} // verus!
