//! The fixed-point and time units shared by the whole crate.

use vstd::prelude::*;

verus! {

/// The level that stands for 1.0: levels are counted in steps of 1/65536.
pub const UNITY: u32 = 65536;

/// Nanoseconds in one second.
pub const NANOS_PER_SEC: u64 = 1_000_000_000;

/// The smaller of a level and [`UNITY`]: levels above full scale count as
/// full scale wherever they are read.
pub open spec fn clamp_level(level: int) -> int {
    if level > UNITY as int {
        UNITY as int
    } else if level < 0 {
        0
    } else {
        level
    }
}

/// The sum of two times, saturating at the largest time.
pub open spec fn time_add(a: int, b: int) -> int {
    if a + b > u64::MAX as int {
        u64::MAX as int
    } else {
        a + b
    }
}

/// A product of two bounded factors is bounded by the product of the
/// bounds.
pub proof fn lemma_mul_bound(a: int, b: int, a_max: int, b_max: int)
    requires
        0 <= a <= a_max,
        0 <= b <= b_max,
    ensures
        0 <= a * b <= a_max * b_max,
{
    assert(0 <= a * b <= a_max * b_max) by (nonlinear_arith)
        requires
            0 <= a <= a_max,
            0 <= b <= b_max,
    ;
}

} // verus!
