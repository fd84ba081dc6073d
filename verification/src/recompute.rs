//! Recomputation bookkeeping.
//!
//! The reference orbit and the series coefficients are recomputed when the
//! viewport changes, never per frame.  Because a recomputation may run off
//! the frame path, a finished result can be stale: committing an orbit
//! computed for an older viewport to a newer one silently corrupts the
//! perturbation basis.  This component decides, from plain generation
//! counters, when a recomputation is due and whether a finished result may
//! still be applied (cancellation on supersession); the caller performs the
//! actual work and hands back the generation it computed for.

use vstd::prelude::*;

verus! {

/// The recomputation ledger: which viewport generation is current, and which
/// generation the results applied so far were computed for.
pub struct RecomputeState {
    pub viewport_generation: u64,
    pub results_generation: Option<u64>,
}

impl RecomputeState {
    /// A fresh ledger: the initial viewport, no results yet.
    pub fn new() -> (r: Self)
        ensures
            r.viewport_generation == 0,
            r.results_generation is None,
    {
        RecomputeState { viewport_generation: 0, results_generation: None }
    }

    /// The viewport changed (center or zoom edited): a new generation begins,
    /// and whatever is in flight for an older one is thereby superseded.
    pub fn viewport_changed(&mut self)
        requires
            old(self).viewport_generation < u64::MAX,
        ensures
            final(self).viewport_generation == old(self).viewport_generation + 1,
            final(self).results_generation == old(self).results_generation,
    {
        self.viewport_generation = self.viewport_generation + 1;
    }

    /// Whether the engines must run: no results yet, or the applied results
    /// are not the current viewport's (on-change recomputation, not
    /// per-frame).
    pub fn needs_recompute(&self) -> (r: bool)
        ensures
            r == match self.results_generation {
                Some(g) => g != self.viewport_generation,
                None => true,
            },
    {
        match self.results_generation {
            Some(g) => g != self.viewport_generation,
            None => true,
        }
    }

    /// Offers a finished result, computed for generation `computed_for`.  It
    /// is applied — and recorded — exactly when that generation is still the
    /// current one; a superseded result is discarded and the ledger is left
    /// as it was, so a stale orbit is never committed to a newer viewport.
    pub fn try_commit(&mut self, computed_for: u64) -> (applied: bool)
        ensures
            applied == (computed_for == old(self).viewport_generation),
            final(self).viewport_generation == old(self).viewport_generation,
            final(self).results_generation == if applied {
                Some(computed_for)
            } else {
                old(self).results_generation
            },
            applied ==> final(self).results_generation == Some(final(self).viewport_generation),
    {
        if computed_for == self.viewport_generation {
            self.results_generation = Some(computed_for);
            true
        } else {
            false
        }
    }
}

} // verus!
