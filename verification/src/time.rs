//! Time units.

use vstd::prelude::*;

verus! {

/// A frequency in hertz.
#[derive(Clone, Copy, Debug)]
pub struct Hertz(pub u32);

/// Extension trait that adds convenience to the `u32` type.
pub trait U32Ext {
    /// The number that `hz` wraps.
    spec fn count(&self) -> u32;

    /// Wraps the number in `Hertz`.
    fn hz(self) -> (out: Hertz)
        ensures
            out.0 == self.count(),
    ;
}

impl U32Ext for u32 {
    open spec fn count(&self) -> u32 {
        *self
    }

    fn hz(self) -> (out: Hertz) {
        Hertz(self)
    }
}

} // verus!
