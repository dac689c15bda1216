//! The demo counter exposed by the binding surface as a smoke test.
//!
//! Rather than an unguarded process-wide value, it is an explicit value
//! the host owns and threads through its calls.
use vstd::prelude::*;

verus! {

/// A counter whose read-out is the square of the stored value.
#[derive(Clone, Copy, PartialEq, Eq, Structural, Debug)]
pub struct DemoCounter {
    pub n: u32,
}

impl DemoCounter {
    /// A fresh counter, holding the historical initial value.
    pub fn new() -> (r: DemoCounter)
        ensures
            r.n == 5,
    {
        DemoCounter { n: 5 }
    }

    /// Stores a new value.
    pub fn set(&mut self, value: u32)
        ensures
            final(self).n == value,
    {
        self.n = value;
    }

    /// Reads the stored value squared.
    pub fn get(&self) -> (r: u32)
        requires
            self.n <= 0xFFFF,
        ensures
            r == self.n * self.n,
    {
        proof {
            assert(self.n * self.n <= 0xFFFF * 0xFFFF) by (nonlinear_arith)
                requires
                    self.n <= 0xFFFF,
            ;
        }
        self.n * self.n
    }
}

} // verus!
