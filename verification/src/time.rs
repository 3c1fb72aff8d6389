//! Slots and epochs, the two units in which consensus time is counted.

use vstd::prelude::*;

verus! {

/// A slot number.
#[derive(Clone, Copy, Debug, PartialEq, Eq, PartialOrd, Ord, Hash, Structural)]
pub struct Slot(pub u64);

/// An epoch number.
#[derive(Clone, Copy, Debug, PartialEq, Eq, PartialOrd, Ord, Hash, Structural)]
pub struct Epoch(pub u64);

impl Slot {
    /// The epoch that holds this slot, as a mathematical value.
    pub open spec fn spec_epoch(self, slots_per_epoch: u64) -> Epoch {
        Epoch(self.0 / slots_per_epoch)
    }

    /// The epoch that holds this slot.
    pub fn epoch(self, slots_per_epoch: u64) -> (epoch: Epoch)
        requires
            slots_per_epoch > 0,
        ensures
            epoch == self.spec_epoch(slots_per_epoch),
    {
        Epoch(self.0 / slots_per_epoch)
    }
}

/// An epoch together with the root of the block at its boundary. The finalized
/// checkpoint names the block that is taken as irreversible.
#[derive(Clone, Copy, Debug, PartialEq, Eq)]
pub struct Checkpoint {
    pub epoch: Epoch,
    pub root: crate::hash::Hash256,
}

} // verus!
