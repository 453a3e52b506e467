//! A 256-bit unsigned integer, wide enough for on-chain quantities that
//! exceed the 128-bit machine range: the maximum-result-count parameter and
//! the fee-growth accumulator fields.

use vstd::prelude::*;

verus! {

/// A 256-bit unsigned integer held as two 128-bit halves.
#[derive(Debug, Clone, Copy, PartialEq, Eq, Structural)]
pub struct U256 {
    /// The low 128 bits of the value.
    pub lo: u128,
    /// The high 128 bits of the value.
    pub hi: u128,
}

impl U256 {
    /// The mathematical value: `hi * 2^128 + lo`.
    pub open spec fn as_nat(&self) -> nat {
        (self.hi as nat) * 0x100000000000000000000000000000000 + (self.lo as nat)
    }

    /// Builds the value from its two 128-bit halves.
    pub fn new(lo: u128, hi: u128) -> (r: U256)
        ensures
            r.lo == lo,
            r.hi == hi,
    {
        U256 { lo, hi }
    }

    /// Embeds a 128-bit value.
    pub fn from_u128(v: u128) -> (r: U256)
        ensures
            r.lo == v,
            r.hi == 0,
            r.as_nat() == v,
    {
        U256 { lo: v, hi: 0 }
    }

    /// Embeds a 64-bit value.
    pub fn from_u64(v: u64) -> (r: U256)
        ensures
            r.lo == v,
            r.hi == 0,
            r.as_nat() == v,
    {
        U256 { lo: v as u128, hi: 0 }
    }
}

} // verus!
