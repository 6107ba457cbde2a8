use vstd::prelude::*;

verus! {

/// A floating-point parameter, held as the bit pattern of an IEEE-754
/// double. The library stores, copies and compares such values; it never
/// computes with them.
#[derive(Debug, Copy, PartialEq, Eq, Structural)]
pub struct FloatBits {
    /// The IEEE-754 binary64 encoding of the value.
    pub bits: u64,
}

impl Clone for FloatBits {
    fn clone(&self) -> (r: Self)
        ensures
            r == *self,
    {
        FloatBits { bits: self.bits }
    }
}

} // verus!
