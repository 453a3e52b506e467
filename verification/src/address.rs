//! Fixed-width 20-byte account identifiers.
//!
//! The all-zero value is a sentinel: it marks an invalid pool address, and,
//! as a contract-address override, it asks for the default lens contract.

use vstd::prelude::*;

verus! {

broadcast use vstd::array::group_array_axioms;

/// A fixed-width 20-byte account identifier.
#[derive(Debug, Clone, Copy)]
pub struct Address {
    /// The 20 bytes of the identifier, most significant first.
    pub bytes: [u8; 20],
}

/// Holds when every byte of the address is zero: the reserved sentinel value.
pub open spec fn is_zero_address(s: Seq<u8>) -> bool {
    forall|i: int| 0 <= i < s.len() ==> s[i] == 0
}

/// The bytes of the default deployed lens contract address.
pub open spec fn uni_obrv_bytes() -> Seq<u8> {
    seq![
        0x4du8, 0x2c, 0x0a, 0x1d, 0x2d, 0x37, 0x25, 0x61, 0x8c, 0x67, 0x99, 0xb3, 0xde, 0x9f,
        0xdd, 0xef, 0x1d, 0x41, 0x18, 0xb5,
    ]
}

impl View for Address {
    type V = Seq<u8>;

    open spec fn view(&self) -> Seq<u8> {
        self.bytes@
    }
}

impl Address {
    /// Builds an address from its 20 bytes.
    pub fn new(bytes: [u8; 20]) -> (r: Address)
        ensures
            r@ == bytes@,
    {
        Address { bytes }
    }

    /// The all-zero sentinel address.
    pub fn zero() -> (r: Address)
        ensures
            is_zero_address(r@),
            r@.len() == 20,
    {
        Address { bytes: [0u8; 20] }
    }

    /// The 20 bytes of the address.
    pub fn to_bytes(&self) -> (r: [u8; 20])
        ensures
            r@ == self@,
    {
        self.bytes
    }

    /// Tests whether this address is the all-zero sentinel.
    pub fn is_zero(&self) -> (r: bool)
        ensures
            r == is_zero_address(self@),
    {
        let mut i: usize = 0;
        while i < 20
            invariant
                0 <= i <= 20,
                forall|j: int| 0 <= j < i ==> self@[j] == 0,
            decreases 20 - i,
        {
            if self.bytes[i] != 0 {
                return false;
            }
            i = i + 1;
        }
        true
    }
}

/// The address of the default deployed lens contract, used when the caller
/// supplies the zero sentinel as the contract override.
pub fn uni_obrv() -> (r: Address)
    ensures
        r@ == uni_obrv_bytes(),
{
    let bytes: [u8; 20] = [
        0x4d, 0x2c, 0x0a, 0x1d, 0x2d, 0x37, 0x25, 0x61, 0x8c, 0x67, 0x99, 0xb3, 0xde, 0x9f, 0xdd,
        0xef, 0x1d, 0x41, 0x18, 0xb5,
    ];
    let r = Address { bytes };
    proof {
        assert(r@ =~= uni_obrv_bytes());
    }
    r
}

/// The default lens contract address is not the zero sentinel, so resolving
/// it as an override keeps it unchanged.
pub proof fn lemma_uni_obrv_nonzero()
    ensures
        !is_zero_address(uni_obrv_bytes()),
{
    assert(uni_obrv_bytes()[0] == 0x4du8);
}

} // verus!
