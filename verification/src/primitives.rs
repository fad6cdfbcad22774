//! Plain-value forms of the chain primitives that the adapters project:
//! 160-bit addresses, 256-bit hashes and 256-bit unsigned integers.

use vstd::prelude::*;

verus! {

/// A 160-bit account address, held as its 20 big-endian bytes.
#[derive(Clone, Copy, Debug, PartialEq, Eq, Hash)]
pub struct Address {
    pub bytes: [u8; 20],
}

/// A 256-bit hash or opaque word, held as its 32 big-endian bytes.
#[derive(Clone, Copy, Debug, PartialEq, Eq, Hash)]
pub struct B256 {
    pub bytes: [u8; 32],
}

/// A 256-bit unsigned integer, held as four 64-bit limbs, least
/// significant first.
#[derive(Clone, Copy, Debug, PartialEq, Eq, Hash)]
pub struct U256 {
    pub limbs: [u64; 4],
}

impl U256 {
    /// The mathematical value of the four limbs.
    pub open spec fn as_nat(self) -> nat {
        self.limbs[0] as nat
            + self.limbs[1] as nat * 0x1_0000_0000_0000_0000
            + self.limbs[2] as nat * 0x1_0000_0000_0000_0000_0000_0000_0000_0000
            + self.limbs[3] as nat
                * 0x1_0000_0000_0000_0000_0000_0000_0000_0000_0000_0000_0000_0000
    }

    /// Widens a 64-bit value; the widening is lossless.
    pub fn from_u64(v: u64) -> (r: U256)
        ensures
            r.as_nat() == v,
    {
        U256 { limbs: [v, 0, 0, 0] }
    }
}

} // verus!
