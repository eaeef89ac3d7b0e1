//! A 192-bit unsigned integer for intermediate products.
//!
//! The accumulator formula multiplies three 64-bit quantities before it
//! divides. `Wide` carries such a product without loss. Subtraction,
//! multiplication and division are done by `spl_math::uint::U192`; the
//! conversions from and to the machine integers are proved here.

use spl_math::uint::U192;
use vstd::prelude::*;

verus! {

/// Two to the power 64.
pub open spec fn pow2_64() -> nat {
    0x1_0000_0000_0000_0000nat
}

/// Two to the power 128.
pub open spec fn pow2_128() -> nat {
    0x1_0000_0000_0000_0000_0000_0000_0000_0000nat
}

/// Two to the power 192: one more than the largest `Wide`.
pub open spec fn pow2_192() -> nat {
    0x1_0000_0000_0000_0000_0000_0000_0000_0000_0000_0000_0000_0000nat
}

/// A 192-bit unsigned integer as three 64-bit limbs, least significant first.
#[derive(Clone, Copy, Debug)]
pub struct Wide {
    pub lo: u64,
    pub mid: u64,
    pub hi: u64,
}

impl Wide {
    /// The number that the three limbs stand for.
    pub open spec fn value(self) -> nat {
        self.lo as nat + self.mid as nat * pow2_64() + self.hi as nat * pow2_128()
    }

    /// Widens a 64-bit integer.
    pub fn from_u64(v: u64) -> (w: Wide)
        ensures
            w.value() == v,
    {
        Wide { lo: v, mid: 0, hi: 0 }
    }

    /// Widens a 128-bit integer.
    pub fn from_u128(v: u128) -> (w: Wide)
        ensures
            w.value() == v,
    {
        let low: u128 = v % 0x1_0000_0000_0000_0000u128;
        let high: u128 = v / 0x1_0000_0000_0000_0000u128;
        Wide { lo: low as u64, mid: high as u64, hi: 0 }
    }

    /// Narrows to 128 bits: `None` exactly when the value does not fit.
    pub fn to_u128(self) -> (r: Option<u128>)
        ensures
            match r {
                Some(v) => v == self.value(),
                None => self.value() >= pow2_128(),
            },
    {
        if self.hi != 0 {
            None
        } else {
            let high: u128 = self.mid as u128;
            let low: u128 = self.lo as u128;
            Some(high * 0x1_0000_0000_0000_0000u128 + low)
        }
    }

    /// Difference of two wide integers: `None` exactly when `other` is the larger.
    ///
    /// Calls `U192::checked_sub`, which subtracts limb by limb with borrow and
    /// gives `None` when the last borrow is set. The contract claims that the
    /// result is the mathematical difference whenever that is not negative.
    #[verifier::external_body]
    pub(crate) fn checked_sub(self, other: Wide) -> (r: Option<Wide>)
        ensures
            match r {
                Some(w) => w.value() == self.value() - other.value(),
                None => self.value() < other.value(),
            },
    {
        match U192([self.lo, self.mid, self.hi]).checked_sub(U192([other.lo, other.mid, other.hi])) {
            Some(d) => Some(Wide { lo: d.0[0], mid: d.0[1], hi: d.0[2] }),
            None => None,
        }
    }

    /// Product of two wide integers: `None` exactly when it needs more than 192 bits.
    ///
    /// Calls `U192::checked_mul`, which multiplies limb by limb and gives
    /// `None` when any part of the product falls beyond the third limb. The
    /// contract claims that the result is the mathematical product whenever
    /// that is below two to the power 192.
    #[verifier::external_body]
    pub(crate) fn checked_mul(self, other: Wide) -> (r: Option<Wide>)
        ensures
            match r {
                Some(w) => w.value() == self.value() * other.value(),
                None => self.value() * other.value() >= pow2_192(),
            },
    {
        match U192([self.lo, self.mid, self.hi]).checked_mul(U192([other.lo, other.mid, other.hi])) {
            Some(p) => Some(Wide { lo: p.0[0], mid: p.0[1], hi: p.0[2] }),
            None => None,
        }
    }

    /// Quotient of two wide integers, rounded down: `None` exactly when the
    /// divisor is zero.
    ///
    /// Calls `U192::checked_div`, which tests the divisor for zero and
    /// otherwise divides. The contract claims that the result is the floor of
    /// the mathematical quotient.
    #[verifier::external_body]
    pub(crate) fn checked_div(self, other: Wide) -> (r: Option<Wide>)
        ensures
            match r {
                Some(w) => other.value() != 0 && w.value() == self.value() / other.value(),
                None => other.value() == 0,
            },
    {
        match U192([self.lo, self.mid, self.hi]).checked_div(U192([other.lo, other.mid, other.hi])) {
            Some(q) => Some(Wide { lo: q.0[0], mid: q.0[1], hi: q.0[2] }),
            None => None,
        }
    }
}

} // verus!
