//! Per-sample effect stages share one capability: process one sample,
//! return one sample.

use vstd::prelude::*;

verus! {

/// A per-sample effect stage in the fixed effect chain.
pub trait Effect {
    /// Internal invariant the stage maintains across clocks.
    spec fn inv(&self) -> bool;

    /// Process one sample and return the processed sample.
    fn clock(&mut self, sample: i16) -> (r: i16)
        requires
            old(self).inv(),
        ensures
            final(self).inv(),
    ;
}

} // verus!
