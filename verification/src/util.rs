//! Range clamping, the one rule every parameter setter applies.

use vstd::prelude::*;

verus! {

/// What clamping means: the nearest point of `[lo, hi]`.
pub open spec fn clamp_spec(value: int, lo: int, hi: int) -> int {
    if value < lo {
        lo
    } else if value > hi {
        hi
    } else {
        value
    }
}

/// Clamp `value` to `[lo, hi]`.
///
/// The result always lies in `[lo, hi]`, and a value already inside the
/// range comes back unchanged.
pub fn clamp_i64(value: i64, lo: i64, hi: i64) -> (r: i64)
    requires
        lo <= hi,
    ensures
        r == clamp_spec(value as int, lo as int, hi as int),
        lo <= r <= hi,
        lo <= value <= hi ==> r == value,
{
    if value < lo {
        lo
    } else if value > hi {
        hi
    } else {
        value
    }
}

} // verus!
