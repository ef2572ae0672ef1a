//! A trivial hasher stub for tests that need a fixed, predictable hash
//! state.

use vstd::prelude::*;

verus! {

/// A hasher that ignores everything written to it and reports the seed it
/// was built with.
///
/// Feeding it data never changes its state, so two hashing runs differ
/// exactly when their seeds differ.  Tests use it to pin hash-sensitive
/// behaviour down to chosen values.
pub struct NopHash(pub u64);

impl NopHash {
    /// Absorb bytes: a no-op by design.
    pub fn write(&mut self, _bytes: &[u8])
        ensures
            *final(self) == *old(self),
    {
    }

    /// The hash state: always the seed this value was built with.
    pub fn finish(&self) -> (h: u64)
        ensures
            h == self.0,
    {
        self.0
    }
}

} // verus!
