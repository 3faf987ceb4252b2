//! Fixed-point decimal amounts.
//!
//! An amount is an integer mantissa together with a decimal scale: the value
//! denoted is `mantissa / 10^scale`. This mirrors the 96-bit-mantissa decimal
//! representation that the service's wire format uses, so every amount that
//! can arrive over the wire can be held exactly, and multiplying a unit price
//! by an order quantity never overflows the 128-bit mantissa kept here.

use vstd::prelude::*;

verus! {

/// Largest admissible magnitude of a well-formed mantissa (2^96), the bound
/// of the wire format's decimal representation.
pub const MANTISSA_LIMIT: i128 = 0x1_0000_0000_0000_0000_0000_0000;

/// Largest admissible decimal scale of the wire format.
pub const MAX_SCALE: u32 = 28;

/// A fixed-point decimal amount: `mantissa / 10^scale`.
#[derive(Clone, Copy, Debug, PartialEq, Eq, Structural)]
pub struct Money {
    pub mantissa: i128,
    pub scale: u32,
}

impl Money {
    /// A representable amount: the scale is within the wire format's range
    /// and the mantissa within its 96-bit magnitude bound.
    pub open spec fn is_well_formed(self) -> bool {
        &&& self.scale <= MAX_SCALE
        &&& -MANTISSA_LIMIT < self.mantissa < MANTISSA_LIMIT
    }

    /// A unit price admissible for an order: representable and strictly
    /// positive.
    pub open spec fn is_valid_price(self) -> bool {
        &&& self.is_well_formed()
        &&& self.mantissa > 0
    }

    pub fn new(mantissa: i128, scale: u32) -> (m: Money)
        ensures
            m == (Money { mantissa, scale }),
    {
        Money { mantissa, scale }
    }

    /// Whether this amount is admissible as a unit price.
    pub fn check_valid_price(&self) -> (b: bool)
        ensures
            b == self.is_valid_price(),
    {
        self.scale <= MAX_SCALE && 0 < self.mantissa && self.mantissa < MANTISSA_LIMIT
    }

    /// The total amount of `qty` items priced at `self` each: the mantissa is
    /// scaled, the scale unchanged.
    pub open spec fn spec_times_quantity(self, qty: int) -> Money {
        Money { mantissa: (self.mantissa * qty) as i128, scale: self.scale }
    }

    /// Multiply a unit price by an order quantity. Prices are bounded by the
    /// wire format's 96-bit mantissa and quantities by 32 bits, so the
    /// product always fits the 128-bit mantissa kept here.
    pub fn times_quantity(&self, qty: i32) -> (total: Money)
        requires
            self.is_valid_price(),
            qty >= 1,
        ensures
            total == self.spec_times_quantity(qty as int),
            total.mantissa == self.mantissa * qty,
    {
        proof {
            assert(self.mantissa * qty < MANTISSA_LIMIT * 0x8000_0000) by (nonlinear_arith)
                requires
                    0 < self.mantissa < MANTISSA_LIMIT,
                    1 <= qty < 0x8000_0000,
            ;
            assert(self.mantissa * qty >= self.mantissa) by (nonlinear_arith)
                requires
                    self.mantissa > 0,
                    qty >= 1,
            ;
        }
        Money { mantissa: self.mantissa * (qty as i128), scale: self.scale }
    }
}

} // verus!
