//! Integer points and offsets on the board.

use vstd::prelude::*;

verus! {

/// A position or an offset, counted in whole squares. `x` grows to the right
/// and `y` grows downwards.
#[derive(Clone, Copy, Debug, PartialEq, Eq, Structural)]
pub struct Point {
    pub x: i32,
    pub y: i32,
}

impl Point {
    /// The sum of two points as a pair of mathematical integers.
    pub open spec fn spec_plus(self, by: Point) -> (int, int) {
        (self.x + by.x, self.y + by.y)
    }

    /// Both coordinates of `self + by` are representable.
    pub open spec fn can_add(self, by: Point) -> bool {
        &&& i32::MIN <= self.x + by.x <= i32::MAX
        &&& i32::MIN <= self.y + by.y <= i32::MAX
    }

    /// Creates a point from its coordinates.
    pub fn new(x: i32, y: i32) -> (point: Point)
        ensures
            point == (Point { x, y }),
    {
        Point { x, y }
    }

    /// Adds `by` to this point, coordinate by coordinate.
    pub fn plus(self, by: Point) -> (sum: Point)
        requires
            self.can_add(by),
        ensures
            (sum.x as int, sum.y as int) == self.spec_plus(by),
    {
        ivec2_add(self, by)
    }
}

/// Adds two points with glam's `IVec2` addition (`impl Add<IVec2> for IVec2`).
///
/// Trusted: glam adds the `x` fields and the `y` fields with `i32` addition,
/// which overflows only outside the range that is required here.
#[verifier::external_body]
fn ivec2_add(a: Point, b: Point) -> (sum: Point)
    requires
        i32::MIN <= a.x + b.x <= i32::MAX,
        i32::MIN <= a.y + b.y <= i32::MAX,
    ensures
        sum.x == a.x + b.x,
        sum.y == a.y + b.y,
{
    let sum = glam::IVec2::new(a.x, a.y) + glam::IVec2::new(b.x, b.y);
    Point { x: sum.x, y: sum.y }
}

} // verus!
