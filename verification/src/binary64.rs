//! IEEE-754 binary64 values held by their bit patterns.
//!
//! The library classifies and orders floating-point inputs without doing
//! floating-point arithmetic: a value is carried as its 64-bit pattern
//! (`f64::to_bits`), and these functions read sign, exponent and magnitude
//! from the pattern.
use vstd::prelude::*;
use vstd::arithmetic::power2::pow2;

verus! {

/// Bit pattern of `+0.0`.
pub const POSITIVE_ZERO_BITS: u64 = 0;

/// Bit pattern of `1.0`.
pub const ONE_BITS: u64 = 0x3ff0_0000_0000_0000;

/// Bit pattern of `360.0`.
pub const THREE_SIXTY_BITS: u64 = 0x4076_8000_0000_0000;

/// Biased exponent field.
pub open spec fn exponent_field(bits: u64) -> int {
    (bits as int / 0x10_0000_0000_0000) % 0x800
}

/// Finite: neither an infinity nor a NaN (the exponent field is not all ones).
pub open spec fn is_finite(bits: u64) -> bool {
    exponent_field(bits) != 0x7ff
}

/// The sign bit is set.
pub open spec fn sign_bit(bits: u64) -> bool {
    bits >= 0x8000_0000_0000_0000
}

/// The pattern without its sign bit.
pub open spec fn magnitude(bits: u64) -> int {
    bits as int % 0x8000_0000_0000_0000
}

/// `+0.0` or `-0.0`.
pub open spec fn is_zero(bits: u64) -> bool {
    magnitude(bits) == 0
}

/// A finite value strictly below zero.
pub open spec fn is_below_zero(bits: u64) -> bool {
    is_finite(bits) && sign_bit(bits) && !is_zero(bits)
}

/// The same value with `-0.0` written as `+0.0`.
pub open spec fn canonical_zero(bits: u64) -> u64 {
    if is_zero(bits) {
        POSITIVE_ZERO_BITS
    } else {
        bits
    }
}

/// Whether the pattern is finite.
pub fn bits_is_finite(bits: u64) -> (finite: bool)
    ensures
        finite == is_finite(bits),
{
    (bits / 0x10_0000_0000_0000) % 0x800 != 0x7ff
}

/// Whether the pattern is `+0.0` or `-0.0`.
pub fn bits_is_zero(bits: u64) -> (zero: bool)
    ensures
        zero == is_zero(bits),
{
    bits % 0x8000_0000_0000_0000 == 0
}

/// Whether the pattern has its sign bit set.
pub fn bits_sign(bits: u64) -> (negative: bool)
    ensures
        negative == sign_bit(bits),
{
    bits >= 0x8000_0000_0000_0000
}

/// The pattern with `-0.0` replaced by `+0.0`.
pub fn bits_canonical_zero(bits: u64) -> (canonical: u64)
    ensures
        canonical == canonical_zero(bits),
{
    if bits_is_zero(bits) {
        POSITIVE_ZERO_BITS
    } else {
        bits
    }
}

/// `2^52`, the weight of the implicit leading significand bit.
pub open spec fn hidden_bit() -> int {
    0x10_0000_0000_0000
}

/// The pattern is a positive normal binary64 value not above `1.0` that is
/// the binary64 value nearest to the rational `p / q`, ties going to the even
/// significand.
///
/// With biased exponent `e` and full significand `m` the value is
/// `m / 2^(1075 - e)`, and `d / (q·2^(1075 - e))` is its signed distance from
/// `p / q`. It is nearest when that distance is at most half a unit in the
/// last place, and, at the bottom of a binade (`m = 2^52`) approached from
/// above, at most a quarter, since the values just below are twice as dense.
pub open spec fn is_nearest_to_quotient(bits: u64, p: int, q: int) -> bool {
    let e = bits as int / hidden_bit();
    let m = hidden_bit() + bits as int % hidden_bit();
    let d = m * q - p * pow2((1075 - e) as nat);
    &&& 1 <= e <= 1023
    &&& d >= 0 ==> 2 * d <= q && (2 * d == q ==> m % 2 == 0) && (m == hidden_bit() && d > 0 ==> 4
        * d <= q)
    &&& d < 0 ==> -2 * d <= q && (-2 * d == q ==> m % 2 == 0)
}

} // verus!
