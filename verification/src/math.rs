//! Products of two weights, which need up to 256 bits.

use cosmwasm_std::Uint128;
use vstd::prelude::*;

verus! {

/// Two to the power 128.
pub open spec fn pow2_128() -> int {
    0x1_0000_0000_0000_0000_0000_0000_0000_0000int
}

/// A natural number below two to the power 256, as its high and low halves.
#[derive(Clone, Copy, Debug, PartialEq, Eq, Structural)]
pub struct Wide {
    pub hi: u128,
    pub lo: u128,
}

impl Wide {
    /// The number that the two halves stand for.
    pub open spec fn value(self) -> int {
        self.hi * pow2_128() + self.lo
    }

    /// The product of two 128-bit numbers.
    pub fn product(a: u128, b: u128) -> (r: Wide)
        ensures
            r.value() == a * b,
    {
        let (hi, lo) = full_mul(a, b);
        Wide { hi, lo }
    }

    /// Whether this number is strictly below `other`.
    pub fn lt(&self, other: &Wide) -> (r: bool)
        ensures
            r == (self.value() < other.value()),
    {
        self.hi < other.hi || (self.hi == other.hi && self.lo < other.lo)
    }

    /// This number plus `n`, or `None` where the sum needs more than 256
    /// bits.
    pub fn checked_add_small(&self, n: u128) -> (r: Option<Wide>)
        ensures
            match r {
                Some(w) => w.value() == self.value() + n,
                None => self.value() + n >= pow2_128() * pow2_128(),
            },
    {
        if self.lo <= u128::MAX - n {
            Some(Wide { hi: self.hi, lo: self.lo + n })
        } else if self.hi < u128::MAX {
            Some(Wide { hi: self.hi + 1, lo: self.lo - (u128::MAX - n) - 1 })
        } else {
            None
        }
    }
}

/// Calls `cosmwasm_std::Uint128::full_mul`, which multiplies two 128-bit
/// numbers into a `Uint256` without loss, and hands back that product's
/// big-endian bytes as a high and a low half. Trusted: the two halves
/// together are the exact product.
#[verifier::external_body]
fn full_mul(a: u128, b: u128) -> (r: (u128, u128))
    ensures
        r.0 * pow2_128() + r.1 == a * b,
{
    let bytes = Uint128::new(a).full_mul(b).to_be_bytes();
    let mut hi = [0u8; 16];
    let mut lo = [0u8; 16];
    hi.copy_from_slice(&bytes[..16]);
    lo.copy_from_slice(&bytes[16..]);
    (u128::from_be_bytes(hi), u128::from_be_bytes(lo))
}

} // verus!
