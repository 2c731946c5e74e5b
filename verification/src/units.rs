//! The fixed-point unit system and saturation to the machine range.

use vstd::prelude::*;

verus! {

/// Microseconds in a second; frame times are given in microseconds.
pub const MICROS_PER_SECOND: u32 = 1_000_000;

/// Velocity steps in one world unit per second.
pub const VELOCITY_SCALE: i64 = 100_000_000;

/// Position steps in one world unit: a velocity step times a microsecond.
pub const POSITION_SCALE: i64 = 100_000_000_000_000;

/// The value of `i64` nearest to `v`.
pub open spec fn saturate(v: int) -> i64 {
    if v < i64::MIN {
        i64::MIN
    } else if v > i64::MAX {
        i64::MAX
    } else {
        v as i64
    }
}

/// Brings a wide intermediate result back into `i64`, stopping at the ends
/// of the range.
pub fn saturate_i128(v: i128) -> (r: i64)
    ensures
        r == saturate(v as int),
{
    if v < i64::MIN as i128 {
        i64::MIN
    } else if v > i64::MAX as i128 {
        i64::MAX
    } else {
        v as i64
    }
}

/// The position scale is the product of the other two, which is what makes
/// `velocity * time` a position without any division.
pub proof fn lemma_scales_agree()
    ensures
        POSITION_SCALE == VELOCITY_SCALE * MICROS_PER_SECOND,
{
}

} // verus!
