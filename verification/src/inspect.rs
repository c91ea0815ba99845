//! Inspection helper: a wrapper that splits a value into its bit fields.

use vstd::prelude::*;

verus! {

/// A value whose bit layout is to be taken apart.
pub struct Bytefield<T>(pub T);

impl Bytefield<u64> {
    /// Splits a 64-bit floating-point bit pattern into its sign,
    /// exponent and mantissa fields.
    pub fn decompose(&self) -> (r: (u64, u64, u64))
        ensures
            r.0 == (self.0 >> 63u64) & 0x1u64,
            r.1 == (self.0 >> 52u64) & 0x07ffu64,
            r.2 == self.0 & 0xf_ffff_ffff_ffffu64,
    {
        let bits = self.0;
        let sign = (bits >> 63u64) & 0x1u64;
        let exponent = (bits >> 52u64) & 0x07ffu64;
        let mantissa = bits & 0xf_ffff_ffff_ffffu64;

        (sign, exponent, mantissa)
    }
}

} // verus!
