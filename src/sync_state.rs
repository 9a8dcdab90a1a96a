//! Resending the cached state to the chip.
use vstd::prelude::*;

verus! {

/// Rewrites the cached configuration, polarity and output registers of all
/// banks to the chip, so that a chip that was power-cycled matches the cache
/// again.
pub trait SyncState {
    type Error: core::fmt::Debug;

    fn sync_state(&self) -> Result<(), Self::Error>;
}

} // verus!
