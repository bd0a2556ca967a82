//! Signed fixed-point numbers with 24 fractional bits.

use vstd::prelude::*;

verus! {

/// The raw value that stands for the number one.
pub const ONE: i64 = 0x100_0000;

/// The raw value that stands for one half.
pub const HALF: i64 = 0x80_0000;

/// Raw values of at most this size can be added up, four at a time, without
/// leaving the range of `i64`.
pub const LIMIT: i64 = 0x1000_0000_0000_0000;

/// The whole part of the raw value `v`, rounded toward zero.
pub open spec fn whole_part(v: int) -> int {
    if v >= 0 {
        v / (ONE as int)
    } else {
        -((-v) / (ONE as int))
    }
}

/// The whole part of the raw value `v` as a screen coordinate: rounded toward
/// zero and held to the range of `i32`.
pub open spec fn truncated(v: int) -> int {
    if whole_part(v) < i32::MIN as int {
        i32::MIN as int
    } else if whole_part(v) > i32::MAX as int {
        i32::MAX as int
    } else {
        whole_part(v)
    }
}

/// The number `raw / 2^24`.
#[derive(Clone, Copy, Debug, PartialEq, Eq, Structural)]
pub struct Fixed {
    pub raw: i64,
}

impl View for Fixed {
    type V = int;

    /// The number counted in units of 2^-24.
    open spec fn view(&self) -> int {
        self.raw as int
    }
}

impl Fixed {
    /// The number is small enough to be added to.
    pub open spec fn in_range(self) -> bool {
        -LIMIT <= self@ <= LIMIT
    }

    /// The number of `raw` units of 2^-24.
    pub fn from_raw(raw: i64) -> (r: Fixed)
        ensures
            r@ == raw,
    {
        Fixed { raw }
    }

    /// The whole number `n`.
    pub fn from_int(n: i32) -> (r: Fixed)
        ensures
            r@ == n * ONE,
            r.in_range(),
    {
        Fixed { raw: (n as i64) * ONE }
    }

    /// Exactly half of the whole number `n`.
    pub fn half_of(n: i32) -> (r: Fixed)
        ensures
            r@ == n * HALF,
            r.in_range(),
    {
        Fixed { raw: (n as i64) * HALF }
    }

    /// The whole part as a screen coordinate.
    pub fn trunc(self) -> (r: i32)
        ensures
            r == truncated(self@),
    {
        let whole: i64 = self.raw / ONE;
        if whole < i32::MIN as i64 {
            i32::MIN
        } else if whole > i32::MAX as i64 {
            i32::MAX
        } else {
            whole as i32
        }
    }
}

/// Rounding toward zero keeps the sign and drops less than one.
pub proof fn lemma_whole_part_bounds(v: int)
    ensures
        v >= 0 ==> whole_part(v) * ONE <= v < whole_part(v) * ONE + ONE,
        v <= 0 ==> whole_part(v) * ONE - ONE < v <= whole_part(v) * ONE,
{
}

} // verus!
