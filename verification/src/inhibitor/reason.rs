//! What an inhibitor blocks, and how strongly.

use vstd::prelude::*;

verus! {

#[derive(Debug, Clone, Copy, PartialEq, Eq, Structural)]
pub enum InhibitWhat {
    Suspend,
    Shutdown,
    Idle,
    All,
}

impl InhibitWhat {
    /// Does an inhibitor requesting `self` block an action of kind `target`?
    pub open spec fn covers_spec(self, target: InhibitWhat) -> bool {
        self == InhibitWhat::All || self == target
    }

    /// Does an inhibitor requesting `self` block an action of kind `target`?
    /// `All` blocks every kind; any other blocks its own kind only.
    pub fn covers(&self, target: InhibitWhat) -> (r: bool)
        ensures
            r == self.covers_spec(target),
    {
        *self == InhibitWhat::All || *self == target
    }
}

#[derive(Debug, Clone, Copy, PartialEq, Eq, Structural)]
pub enum InhibitMode {
    /// Refuse the action outright while the inhibitor is held.
    Block,
    /// Give the holder a grace period to save state, then proceed anyway.
    /// Treated like `Block` for now; tracked separately so the wire format
    /// does not change when the grace period lands.
    Delay,
}

/// An inhibitor blocks actions of its own kind; an `All` inhibitor blocks
/// actions of every kind; an inhibitor of any other kind blocks no action of
/// a different kind.
pub proof fn lemma_covers_own_kind_and_all(w: InhibitWhat, target: InhibitWhat)
    ensures
        w.covers_spec(w),
        InhibitWhat::All.covers_spec(target),
        w != InhibitWhat::All && w != target ==> !w.covers_spec(target),
{
}

} // verus!
