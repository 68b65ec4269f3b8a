//! Euclidean distance between two points, compared without a square root.
use vstd::prelude::*;

use crate::domain::Coords;

verus! {

/// The square of the Euclidean distance from `a` to `b`, in squared
/// coordinate units.
pub open spec fn squared_distance(a: Coords, b: Coords) -> int {
    let dx = b.x - a.x;
    let dy = b.y - a.y;
    let dz = b.z - a.z;
    dx * dx + dy * dy + dz * dz
}

fn square_of_difference(from: i32, to: i32) -> (r: u128)
    ensures
        r == (to - from) * (to - from),
        r < 0x1_0000_0000_0000_0000u128,
{
    let d: i64 = to as i64 - from as i64;
    let m: u64 = if d < 0 { (-d) as u64 } else { d as u64 };
    assert(m * m == (to - from) * (to - from)) by (nonlinear_arith)
        requires m == d || m == -d, d == to - from;
    assert(m * m < 0x1_0000_0000_0000_0000) by (nonlinear_arith)
        requires m < 0x1_0000_0000;
    (m as u128) * (m as u128)
}

/// The squared distance between two points: exact, with no rounding.
pub fn distance_squared(a: &Coords, b: &Coords) -> (r: u128)
    ensures
        r == squared_distance(*a, *b),
{
    square_of_difference(a.x, b.x) + square_of_difference(a.y, b.y) + square_of_difference(a.z, b.z)
}

/// Whether `b` lies at most `limit` coordinate units from `a`; a negative
/// limit admits no point.
pub open spec fn within_distance(a: Coords, b: Coords, limit: i64) -> bool {
    limit >= 0 && squared_distance(a, b) <= limit * limit
}

pub fn is_within_distance(a: &Coords, b: &Coords, limit: i64) -> (r: bool)
    ensures
        r == within_distance(*a, *b, limit),
{
    if limit < 0 {
        return false;
    }
    let l: u128 = limit as u128;
    assert(l * l < 0x1_0000_0000_0000_0000_0000_0000_0000_0000) by (nonlinear_arith)
        requires l < 0x1_0000_0000_0000_0000;
    distance_squared(a, b) <= l * l
}

} // verus!
