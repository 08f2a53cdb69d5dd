//! Fixed-point lengths.
//!
//! Every position, extent and size in this crate is an `i64` that counts
//! thousandths of a unit: millimetres for positions and extents on the page,
//! points for font sizes and stroke widths. Positions that would leave the
//! range of `i64` stop at its ends, so that laying out never fails.

use vstd::prelude::*;

verus! {

/// Number of fixed-point steps in one whole unit.
pub const PER_UNIT: i64 = 1000;

/// The value of the `i64` range nearest to `v`.
pub open spec fn clamp(v: int) -> int {
    if v < i64::MIN {
        i64::MIN as int
    } else if v > i64::MAX {
        i64::MAX as int
    } else {
        v
    }
}

/// Half of `v`, rounded towards zero.
pub open spec fn half(v: int) -> int {
    if v >= 0 {
        v / 2
    } else {
        -((-v) / 2)
    }
}

/// The length of `n` whole units.
pub fn whole(n: i32) -> (r: i64)
    ensures
        r == n * PER_UNIT,
{
    (n as i64) * PER_UNIT
}

/// Half of a length, rounded towards zero.
pub fn halve(v: i64) -> (r: i64)
    ensures
        r == half(v as int),
{
    v / 2
}

/// Brings a wide intermediate result back into the range of positions.
pub fn narrow(v: i128) -> (r: i64)
    ensures
        r == clamp(v as int),
{
    if v < i64::MIN as i128 {
        i64::MIN
    } else if v > i64::MAX as i128 {
        i64::MAX
    } else {
        v as i64
    }
}

/// The position that lies `lead` and then `count` steps of length `step`
/// below `top`.
pub(crate) fn lowered(top: i64, lead: i128, step: i64, count: usize) -> (r: i64)
    requires
        -0x2_0000_0000_0000_0000 <= lead <= 0x2_0000_0000_0000_0000,
    ensures
        r == clamp(top - lead - count * step),
{
    assert(-0x8000_0000_0000_0000_0000_0000_0000_0000 < count * step
        < 0x8000_0000_0000_0000_0000_0000_0000_0000) by (nonlinear_arith)
        requires
            0 <= count <= 0xffff_ffff_ffff_ffff,
            -0x8000_0000_0000_0000 <= step < 0x8000_0000_0000_0000,
    ;
    let fall: i128 = (count as i128) * (step as i128);
    let from: i128 = (top as i128) - lead;
    if fall > from - (i64::MIN as i128) {
        i64::MIN
    } else if fall < from - (i64::MAX as i128) {
        i64::MAX
    } else {
        (from - fall) as i64
    }
}

/// The position that lies `by` to the right of `left`.
pub(crate) fn advanced(left: i64, by: i128) -> (r: i64)
    requires
        -0x7fff_ffff_ffff_ffff_8000_0000_0000_0000 <= by,
        by <= 0x7fff_ffff_ffff_ffff_8000_0000_0000_0000,
    ensures
        r == clamp(left + by),
{
    narrow((left as i128) + by)
}

} // verus!
