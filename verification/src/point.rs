use vstd::prelude::*;

verus! {

/// Number of fixed-point units in one spatial unit: a coordinate of
/// `10_000_000` means `1.0`.
pub const SCALE: i64 = 10_000_000;

/// A three-component vector with fixed-point coordinates. Pure data: a point
/// has no identity beyond its three components.
#[derive(Clone, Copy, PartialEq, Eq, Structural, Debug)]
pub struct Point3 {
    pub x: i64,
    pub y: i64,
    pub z: i64,
}

impl Point3 {
    pub fn new(x: i64, y: i64, z: i64) -> (p: Point3)
        ensures
            p == (Point3 { x, y, z }),
    {
        Point3 { x, y, z }
    }

    pub fn origin() -> (p: Point3)
        ensures
            p == (Point3 { x: 0i64, y: 0i64, z: 0i64 }),
    {
        Point3 { x: 0, y: 0, z: 0 }
    }
}

} // verus!
