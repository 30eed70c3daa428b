//! Monetary amounts: a decimal number held as a signed mantissa and a scale,
//! the value being `mantissa / 10^scale`. Arithmetic is done by `rust_decimal`.

use rust_decimal::Decimal;
use vstd::prelude::*;

verus! {

/// Largest mantissa magnitude that a decimal can hold (96 bits).
pub const MAX_MANTISSA: i128 = 79228162514264337593543950335;

/// Largest number of digits after the decimal point.
pub const MAX_SCALE: u32 = 28;

/// A decimal amount, `mantissa / 10^scale`.
#[derive(Clone, Copy, Debug, PartialEq, Eq, Structural)]
pub struct Amount {
    pub mantissa: i128,
    pub scale: u32,
}

/// What `Decimal::checked_add` returns on two decimals given by their parts.
pub uninterp spec fn decimal_sum(a: (i128, u32), b: (i128, u32)) -> Option<(i128, u32)>;

/// What `Decimal::checked_sub` returns on two decimals given by their parts.
pub uninterp spec fn decimal_difference(a: (i128, u32), b: (i128, u32)) -> Option<(i128, u32)>;

impl Amount {
    /// The amount fits in a decimal: a 96-bit mantissa and at most 28 fraction digits.
    pub open spec fn wf(self) -> bool {
        &&& self.scale <= MAX_SCALE
        &&& -MAX_MANTISSA <= self.mantissa <= MAX_MANTISSA
    }

    pub open spec fn parts(self) -> (i128, u32) {
        (self.mantissa, self.scale)
    }

    pub open spec fn from_parts(p: (i128, u32)) -> Amount {
        Amount { mantissa: p.0, scale: p.1 }
    }

    /// `num / 10^scale`.
    pub fn new(num: i64, scale: u32) -> (r: Amount)
        requires
            scale <= MAX_SCALE,
        ensures
            r.mantissa == num as i128,
            r.scale == scale,
            r.wf(),
    {
        Amount { mantissa: num as i128, scale }
    }

    pub fn zero() -> (r: Amount)
        ensures
            r.mantissa == 0,
            r.scale == 0,
            r.wf(),
    {
        Amount { mantissa: 0, scale: 0 }
    }
}

/// The amount that an outside result in parts stands for.
pub open spec fn amount_of(r: Option<(i128, u32)>) -> Option<Amount> {
    match r {
        Some(p) => Some(Amount::from_parts(p)),
        None => None,
    }
}

/// The sum of two amounts, `None` where it overflows.
pub open spec fn sum_of(a: Amount, b: Amount) -> Option<Amount> {
    amount_of(decimal_sum(a.parts(), b.parts()))
}

/// The difference of two amounts, `None` where it overflows.
pub open spec fn difference_of(a: Amount, b: Amount) -> Option<Amount> {
    amount_of(decimal_difference(a.parts(), b.parts()))
}

/// Relies on `Decimal::from_i128_with_scale` (exact on a 96-bit mantissa and a
/// scale of at most 28), on `Decimal::checked_add` (`None` on overflow), and on
/// `mantissa` and `scale`, which read the parts of any decimal back; a
/// decimal's mantissa has 96 bits and its scale is at most 28.
#[verifier::external_body]
pub(crate) fn checked_add(a: Amount, b: Amount) -> (r: Option<Amount>)
    requires
        a.wf(),
        b.wf(),
    ensures
        r == amount_of(decimal_sum(a.parts(), b.parts())),
        r matches Some(x) ==> x.wf(),
{
    let x = Decimal::from_i128_with_scale(a.mantissa, a.scale);
    let y = Decimal::from_i128_with_scale(b.mantissa, b.scale);
    match x.checked_add(y) {
        Some(d) => Some(Amount { mantissa: d.mantissa(), scale: d.scale() }),
        None => None,
    }
}

/// Relies on `Decimal::from_i128_with_scale` (exact on a 96-bit mantissa and a
/// scale of at most 28), on `Decimal::checked_sub` (`None` on overflow), and on
/// `mantissa` and `scale`, which read the parts of any decimal back; a
/// decimal's mantissa has 96 bits and its scale is at most 28.
#[verifier::external_body]
pub(crate) fn checked_sub(a: Amount, b: Amount) -> (r: Option<Amount>)
    requires
        a.wf(),
        b.wf(),
    ensures
        r == amount_of(decimal_difference(a.parts(), b.parts())),
        r matches Some(x) ==> x.wf(),
{
    let x = Decimal::from_i128_with_scale(a.mantissa, a.scale);
    let y = Decimal::from_i128_with_scale(b.mantissa, b.scale);
    match x.checked_sub(y) {
        Some(d) => Some(Amount { mantissa: d.mantissa(), scale: d.scale() }),
        None => None,
    }
}

} // verus!
