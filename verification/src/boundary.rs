//! The reflecting walls.
//!
//! The world is the square of half-extent `1` around the origin. A fly of
//! visual radius `radius`, drawn at scale `scale`, keeps its centre at least
//! `radius * scale` away from each wall, so each of its coordinates lives in
//! `[-half_extent, half_extent]`. Both axes follow the same rule,
//! independently of each other.

use vstd::prelude::*;
use crate::units::ONE;

verus! {

/// One step of one coordinate between two reflecting walls at `-half_extent`
/// and `half_extent`: the new coordinate, then the new velocity.
///
/// The velocity is added to the coordinate. A coordinate that reaches or
/// passes a wall is put on that wall and the velocity changes sign; its
/// magnitude never changes.
pub open spec fn reflected(coordinate: int, velocity: int, half_extent: int) -> (int, int) {
    let next = coordinate + velocity;
    if next <= -half_extent {
        (-half_extent, -velocity)
    } else if next >= half_extent {
        (half_extent, -velocity)
    } else {
        (next, velocity)
    }
}

/// Whether a step from `coordinate` with `velocity` touches a wall.
pub open spec fn hits_wall(coordinate: int, velocity: int, half_extent: int) -> bool {
    coordinate + velocity <= -half_extent || coordinate + velocity >= half_extent
}

/// The distance from the origin to the walls for a fly of the given visual
/// radius drawn at the given scale: `1 - radius * scale`, the product rounded
/// down to a whole number of units.
pub open spec fn half_extent_of(radius: int, scale: int) -> int {
    ONE - (radius * scale) / (ONE as int)
}

/// Wherever a coordinate starts and however fast it moves, one step leaves it
/// between the walls; the velocity is reversed exactly when the step touched a
/// wall, and is unchanged otherwise.
pub proof fn lemma_reflection_stays_inside(coordinate: int, velocity: int, half_extent: int)
    requires
        half_extent >= 0,
    ensures
        -half_extent <= reflected(coordinate, velocity, half_extent).0 <= half_extent,
        hits_wall(coordinate, velocity, half_extent) ==> reflected(
            coordinate,
            velocity,
            half_extent,
        ).1 == -velocity,
        !hits_wall(coordinate, velocity, half_extent) ==> reflected(
            coordinate,
            velocity,
            half_extent,
        ) == (coordinate + velocity, velocity),
{
}

/// Moves one coordinate by one step between the walls and returns the new
/// coordinate and the new velocity.
pub fn reflect(coordinate: i64, velocity: i64, half_extent: i64) -> (next: (i64, i64))
    requires
        velocity > i64::MIN,
        half_extent > i64::MIN,
    ensures
        (next.0 as int, next.1 as int) == reflected(
            coordinate as int,
            velocity as int,
            half_extent as int,
        ),
        half_extent >= 0 ==> -half_extent <= next.0 <= half_extent,
        next.1 == velocity || next.1 == -velocity,
        next.1 > i64::MIN,
{
    let moved: i128 = coordinate as i128 + velocity as i128;
    if moved <= -(half_extent as i128) {
        (-half_extent, -velocity)
    } else if moved >= half_extent as i128 {
        (half_extent, -velocity)
    } else {
        (moved as i64, velocity)
    }
}

/// Computes [`half_extent_of`] for a non-negative radius and scale.
pub fn half_extent(radius: i64, scale: i64) -> (extent: i64)
    requires
        radius >= 0,
        scale >= 0,
        half_extent_of(radius as int, scale as int) >= 0,
    ensures
        extent == half_extent_of(radius as int, scale as int),
        0 <= extent <= ONE,
{
    proof {
        lemma_product_bounds(radius as int, scale as int);
    }
    let margin: i128 = (radius as i128 * scale as i128) / (ONE as i128);
    (ONE as i128 - margin) as i64
}

/// The product of two non-negative 64-bit numbers is non-negative and fits in
/// 128 bits.
pub proof fn lemma_product_bounds(a: int, b: int)
    by (nonlinear_arith)
    requires
        0 <= a <= i64::MAX,
        0 <= b <= i64::MAX,
    ensures
        0 <= a * b <= i64::MAX * i64::MAX,
{
}

} // verus!
