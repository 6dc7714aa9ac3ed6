//! Fixed-point decimal prices and their conversion to on-chain integers.

use rust_decimal::prelude::ToPrimitive;
use vstd::prelude::*;

verus! {

/// Largest magnitude of a decimal mantissa (96 bits).
pub const MAX_MANTISSA: i128 = 0xFFFF_FFFF_FFFF_FFFF_FFFF_FFFF;

/// Largest number of fractional digits of a decimal.
pub const MAX_SCALE: u32 = 28;

/// A decimal number `mantissa / 10^scale`, as stored in the price table.
#[derive(Clone, Copy, Debug, PartialEq, Eq)]
pub struct DecimalValue {
    pub mantissa: i128,
    pub scale: u32,
}

pub open spec fn pow10(n: nat) -> nat
    decreases n,
{
    if n == 0 {
        1
    } else {
        10 * pow10((n - 1) as nat)
    }
}

/// `m / 10^s` truncated toward zero, when it is a non-negative value that fits in `u64`.
pub open spec fn truncated_u64(m: int, s: nat) -> Option<u64> {
    if m < 0 {
        None
    } else if m / (pow10(s) as int) <= u64::MAX as int {
        Some((m / (pow10(s) as int)) as u64)
    } else {
        None
    }
}

impl DecimalValue {
    /// The value lies in the range of a 96-bit decimal with at most 28 fractional digits.
    pub open spec fn wf(&self) -> bool {
        -MAX_MANTISSA <= self.mantissa <= MAX_MANTISSA && self.scale <= MAX_SCALE
    }

    /// The integer price of this decimal: its integer part, when non-negative and within `u64`.
    pub open spec fn price_u64(&self) -> Option<u64> {
        if self.wf() {
            truncated_u64(self.mantissa as int, self.scale as nat)
        } else {
            None
        }
    }

    /// Converts to an unsigned integer by truncating the fractional digits.
    pub fn to_u64(&self) -> (r: Option<u64>)
        ensures
            r == self.price_u64(),
    {
        if -MAX_MANTISSA <= self.mantissa && self.mantissa <= MAX_MANTISSA && self.scale <= MAX_SCALE {
            decimal_to_u64(self.mantissa, self.scale)
        } else {
            None
        }
    }
}

/// Relies on `rust_decimal::Decimal::from_i128_with_scale` (panics only outside the
/// range required here) and `ToPrimitive::to_u64` on `Decimal`: `None` for a negative
/// value, else the value truncated toward zero when it fits in `u64`.
#[verifier::external_body]
fn decimal_to_u64(mantissa: i128, scale: u32) -> (r: Option<u64>)
    requires
        -MAX_MANTISSA <= mantissa <= MAX_MANTISSA,
        scale <= MAX_SCALE,
    ensures
        r == truncated_u64(mantissa as int, scale as nat),
{
    rust_decimal::Decimal::from_i128_with_scale(mantissa, scale).to_u64()
}

/// Conversion truncates and never rounds: the integer price `p` of a non-negative
/// decimal `v` satisfies `p <= v < p + 1`.
pub proof fn lemma_conversion_truncates(d: DecimalValue)
    requires
        d.price_u64() is Some,
    ensures
        d.mantissa >= 0,
        (d.price_u64()->0 as int) * (pow10(d.scale as nat) as int) <= d.mantissa as int,
        (d.mantissa as int) < (d.price_u64()->0 as int + 1) * (pow10(d.scale as nat) as int),
{
    lemma_pow10_positive(d.scale as nat);
    let p = pow10(d.scale as nat) as int;
    let m = d.mantissa as int;
    assert(p * (m / p) <= m && m < p * (m / p) + p) by (nonlinear_arith)
        requires
            p > 0,
            m >= 0,
    ;
    assert((m / p) * p <= m && m < (m / p + 1) * p) by (nonlinear_arith)
        requires
            p * (m / p) <= m && m < p * (m / p) + p,
    ;
}

pub proof fn lemma_pow10_positive(n: nat)
    ensures
        pow10(n) > 0,
    decreases n,
{
    if n > 0 {
        lemma_pow10_positive((n - 1) as nat);
    }
}

} // verus!
