//! Registry for architectures that have nothing to track.
use vstd::prelude::*;

verus! {

/// An empty registry.
pub struct ExtIntRegistry {}

impl ExtIntRegistry {
    /// Returns the registry.
    pub fn new() -> (r: Self)
        ensures
            r == (ExtIntRegistry {}),
    {
        Self {}
    }
}

} // verus!
