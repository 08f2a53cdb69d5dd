//! Decimal numbers of any size, computed by the `bigdecimal` crate.
//!
//! Amounts of money are `bigdecimal::BigDecimal` values. This crate never
//! looks inside one: it hands amounts to bigdecimal's arithmetic and
//! formatting and names what comes back.

use vstd::prelude::*;
use bigdecimal::BigDecimal;

verus! {

/// `bigdecimal::BigDecimal`, a decimal number of any size and precision.
#[verifier::external_type_specification]
#[verifier::external_body]
pub struct ExBigDecimal(BigDecimal);

/// The decimal that bigdecimal builds from an integer and a scale: the
/// integer divided by ten to the power of the scale.
pub uninterp spec fn scaled_decimal(unscaled: int, scale: int) -> BigDecimal;

/// Whether a decimal is zero.
pub uninterp spec fn decimal_is_zero(value: BigDecimal) -> bool;

/// The scale of a decimal: the number of its digits that stand after the
/// decimal point, which is negative where the digits end before it.
pub uninterp spec fn decimal_scale(value: BigDecimal) -> int;

/// What bigdecimal's `+` returns for a decimal and a reference to another.
pub uninterp spec fn decimal_sum(a: BigDecimal, b: BigDecimal) -> BigDecimal;

/// What bigdecimal's `*` returns for a decimal and a reference to another.
pub uninterp spec fn decimal_product(a: BigDecimal, b: BigDecimal) -> BigDecimal;

/// What bigdecimal's `/` returns for a reference to a decimal and a
/// divisor other than zero.
pub uninterp spec fn decimal_quotient(a: BigDecimal, b: BigDecimal) -> BigDecimal;

/// What bigdecimal's `Display` writes for a decimal when asked for two
/// digits after the decimal point.
pub uninterp spec fn two_decimals(value: BigDecimal) -> Seq<char>;

/// The largest scale, to either side of zero, of the amounts that this
/// crate computes with. bigdecimal keeps a scale as an `i64` and computes
/// with scales in `i64`; between amounts whose scales stay this far from
/// the ends of `i64`, no sum or difference of scales leaves its range.
pub const MAX_SCALE: i64 = 0x2000_0000_0000_0000;

/// Whether the scale of an amount is small enough for this crate to
/// compute with the amount.
pub open spec fn computable(value: BigDecimal) -> bool {
    -MAX_SCALE <= decimal_scale(value) <= MAX_SCALE
}

/// `BigDecimal::from((i64, i64))`: the decimal with the given digits and
/// scale, which is zero exactly when the digits are.
#[verifier::external_body]
pub(crate) fn decimal_from_scaled(unscaled: i64, scale: i64) -> (value: BigDecimal)
    ensures
        value == scaled_decimal(unscaled as int, scale as int),
        decimal_is_zero(value) <==> unscaled == 0,
        decimal_scale(value) == scale,
{
    BigDecimal::from((unscaled, scale))
}

/// `BigDecimal::fractional_digit_count`: the scale of the decimal.
#[verifier::external_body]
pub(crate) fn decimal_scale_of(value: &BigDecimal) -> (scale: i64)
    ensures
        scale == decimal_scale(*value),
{
    value.fractional_digit_count()
}

/// Tells whether the scale of an amount is small enough for this crate to
/// compute with the amount.
pub fn is_computable(value: &BigDecimal) -> (fits: bool)
    ensures
        fits == computable(*value),
{
    let scale = decimal_scale_of(value);
    -MAX_SCALE <= scale && scale <= MAX_SCALE
}

/// `BigDecimal + &BigDecimal`, which brings the two decimals to the larger
/// of their scales and adds their digits: the sum has that scale. It takes
/// one scale from the other as `i64`, so their difference is kept within
/// its range.
#[verifier::external_body]
pub(crate) fn decimal_add(a: BigDecimal, b: &BigDecimal) -> (sum: BigDecimal)
    requires
        -0x4000_0000_0000_0000 <= decimal_scale(a) - decimal_scale(*b) <= 0x4000_0000_0000_0000,
    ensures
        sum == decimal_sum(a, *b),
        decimal_scale(sum) == if decimal_scale(a) >= decimal_scale(*b) {
            decimal_scale(a)
        } else {
            decimal_scale(*b)
        },
{
    a + b
}

/// `BigDecimal * &BigDecimal`, which adds the two scales as `i64`: their
/// sum has to be within the range of `i64`.
#[verifier::external_body]
pub(crate) fn decimal_multiply(a: BigDecimal, b: &BigDecimal) -> (product: BigDecimal)
    requires
        i64::MIN <= decimal_scale(a) + decimal_scale(*b) <= i64::MAX,
    ensures
        product == decimal_product(a, *b),
{
    a * b
}

/// `&BigDecimal / BigDecimal`, which panics when the divisor is zero. It
/// takes the scale of the divisor from that of the dividend as `i64`, and
/// then counts the scale up by one for each digit that it adds to the
/// quotient or puts before the dividend: the difference is kept so far
/// from the ends of `i64` that no quotient has digits enough to reach
/// them.
#[verifier::external_body]
pub(crate) fn decimal_divide(a: &BigDecimal, b: BigDecimal) -> (quotient: BigDecimal)
    requires
        !decimal_is_zero(b),
        -0x4000_0000_0000_0000 <= decimal_scale(*a) - decimal_scale(b) <= 0x4000_0000_0000_0000,
    ensures
        quotient == decimal_quotient(*a, b),
{
    a / b
}

/// `Display` of `BigDecimal` with a precision of two.
#[verifier::external_body]
pub(crate) fn decimal_two_places(value: &BigDecimal) -> (text: String)
    ensures
        text@ == two_decimals(*value),
{
    format!("{:.2}", value)
}

} // verus!
