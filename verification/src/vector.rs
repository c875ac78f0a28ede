//! Points and displacements of the plane.

use vstd::prelude::*;

verus! {

/// A point of the plane with unbounded integer coordinates: what a
/// [`Vector2`] stands for in contracts.
pub struct Point {
    pub x: int,
    pub y: int,
}

impl Point {
    /// The square of the Euclidean distance between two points.
    pub open spec fn distance_squared(self, other: Point) -> int {
        (self.x - other.x) * (self.x - other.x) + (self.y - other.y) * (self.y - other.y)
    }

    /// Whether the Euclidean distance between the two points is at most
    /// `radius`. A distance is never negative, so nothing lies within a
    /// negative radius.
    pub open spec fn within(self, other: Point, radius: int) -> bool {
        radius >= 0 && self.distance_squared(other) <= radius * radius
    }

    /// The component-wise sum.
    pub open spec fn plus(self, other: Point) -> Point {
        Point { x: self.x + other.x, y: self.y + other.y }
    }
}

/// A point or displacement with fixed-point coordinates.
#[derive(Clone, Copy, PartialEq, Eq, Structural, Debug)]
pub struct Vector2 {
    pub x: i64,
    pub y: i64,
}

impl View for Vector2 {
    type V = Point;

    open spec fn view(&self) -> Point {
        Point { x: self.x as int, y: self.y as int }
    }
}

/// The square of a number of magnitude at most `bound` is at most the square
/// of `bound`.
proof fn lemma_square_bounded(a: int, bound: int)
    by (nonlinear_arith)
    requires
        -bound <= a <= bound,
    ensures
        0 <= a * a <= bound * bound,
{
}

/// The square of a number of magnitude above `bound` is above the square of
/// `bound`.
proof fn lemma_square_exceeds(a: int, bound: int)
    by (nonlinear_arith)
    requires
        0 <= bound,
        a > bound || a < -bound,
    ensures
        a * a > bound * bound,
{
}

/// Squares are not negative.
proof fn lemma_square_nonnegative(a: int)
    by (nonlinear_arith)
    ensures
        a * a >= 0,
{
}

impl Vector2 {
    pub fn new(x: i64, y: i64) -> (v: Vector2)
        ensures
            v.x == x,
            v.y == y,
    {
        Vector2 { x, y }
    }

    /// The component-wise sum, or `None` when a coordinate of it does not fit.
    pub fn checked_add(self, other: Vector2) -> (sum: Option<Vector2>)
        ensures
            match sum {
                Some(v) => v@ == self@.plus(other@),
                None => !(i64::MIN <= self.x + other.x <= i64::MAX)
                    || !(i64::MIN <= self.y + other.y <= i64::MAX),
            },
    {
        match (self.x.checked_add(other.x), self.y.checked_add(other.y)) {
            (Some(x), Some(y)) => Some(Vector2 { x, y }),
            _ => None,
        }
    }

    /// Whether `other` lies at a Euclidean distance of at most `radius`.
    pub fn within(&self, other: &Vector2, radius: i64) -> (near: bool)
        ensures
            near == self@.within(other@, radius as int),
    {
        if radius < 0 {
            return false;
        }
        let r: i128 = radius as i128;
        let dx: i128 = self.x as i128 - other.x as i128;
        let dy: i128 = self.y as i128 - other.y as i128;
        proof {
            lemma_square_nonnegative(dx as int);
            lemma_square_nonnegative(dy as int);
        }
        if dx > r || dx < -r {
            proof {
                lemma_square_exceeds(dx as int, r as int);
            }
            return false;
        }
        if dy > r || dy < -r {
            proof {
                lemma_square_exceeds(dy as int, r as int);
            }
            return false;
        }
        proof {
            lemma_square_bounded(dx as int, r as int);
            lemma_square_bounded(dy as int, r as int);
            lemma_square_bounded(r as int, 0x7fff_ffff_ffff_ffff);
        }
        dx * dx + dy * dy <= r * r
    }
}

} // verus!
