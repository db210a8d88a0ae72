//! What happens to one coordinate of the sprite where it meets an edge.
use vstd::prelude::*;

verus! {

/// The single-step correction of the wrapping policy: a candidate below `min`
/// lands at `max - val`, one above `max` lands at `min + (val - max)`, and one
/// in between stays. It is exact for unit steps and is no modulo.
pub open spec fn wrap_into(min: int, max: int, val: int) -> int {
    if val < min {
        max - val
    } else if val > max {
        min + (val - max)
    } else {
        val
    }
}

/// The boundary test of the reflecting policy on one axis: the sprite stands
/// at or before the origin, or its far edge lies past the extent.
pub open spec fn crosses(position: int, size: int, extent: int) -> bool {
    position <= 0 || position + size > extent
}

/// The velocity component that the reflecting policy applies this tick: the
/// old one, inverted where the boundary test fails.
pub open spec fn turned(velocity: int, position: int, size: int, extent: int) -> int {
    if crosses(position, size, extent) {
        -velocity
    } else {
        velocity
    }
}

/// Brings a candidate coordinate back after a step over an edge.
pub fn apply_bounds(min: i64, max: i64, val: i64) -> (res: i64)
    requires
        i64::MIN <= wrap_into(min as int, max as int, val as int) <= i64::MAX,
    ensures
        res == wrap_into(min as int, max as int, val as int),
{
    if val < min {
        (max as i128 - val as i128) as i64
    } else if val > max {
        (min as i128 + (val as i128 - max as i128)) as i64
    } else {
        val
    }
}

/// Whether the reflecting policy inverts the velocity on this axis.
pub fn hits_bounds(position: i64, size: i16, extent: u32) -> (res: bool)
    requires
        i64::MIN <= position + size <= i64::MAX,
    ensures
        res == crosses(position as int, size as int, extent as int),
{
    position <= 0 || position + size as i64 > extent as i64
}

} // verus!
