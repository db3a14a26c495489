//! The UART connection kind.
use vstd::prelude::*;

verus! {

/// A UART connection; it holds no state of its own.
pub struct UART {}

impl UART {
    pub fn new() -> Self {
        UART {  }
    }

    /// The frame a UART connection sends when nothing is queued: four zero
    /// bytes.
    pub fn send(&self) -> (r: Vec<u8>)
        ensures
            r@ == seq![0u8, 0u8, 0u8, 0u8],
    {
        let r: Vec<u8> = vec![0, 0, 0, 0];
        assert(r@ =~= seq![0u8, 0u8, 0u8, 0u8]);
        r
    }
}

} // verus!
