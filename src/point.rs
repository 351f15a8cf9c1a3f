use vstd::prelude::*;

use crate::coords::{fits_i64, zero_coords, Coords};
use crate::vector::Vector3;

verus! {

/// A position in 3D space with integer coordinates.
///
/// Positions are not added to each other: a point moves by a vector, and the
/// difference of two points is a vector.
#[derive(Clone, Copy, Debug, PartialEq, Eq, Structural)]
pub struct Point3 {
    x: i64,
    y: i64,
    z: i64,
}

impl View for Point3 {
    type V = Coords;

    closed spec fn view(&self) -> Coords {
        Coords { x: self.x as int, y: self.y as int, z: self.z as int }
    }
}

impl Point3 {
    pub fn new(x: i64, y: i64, z: i64) -> (r: Point3)
        ensures
            r@ == (Coords { x: x as int, y: y as int, z: z as int }),
    {
        Point3 { x, y, z }
    }

    /// The origin of the coordinate system.
    pub fn origin() -> (r: Point3)
        ensures
            r@ == zero_coords(),
    {
        Point3 { x: 0, y: 0, z: 0 }
    }

    pub fn x(&self) -> (r: i64)
        ensures
            r == self@.x,
    {
        self.x
    }

    pub fn y(&self) -> (r: i64)
        ensures
            r == self@.y,
    {
        self.y
    }

    pub fn z(&self) -> (r: i64)
        ensures
            r == self@.z,
    {
        self.z
    }

    /// The point reached from `self` by the displacement `v`.
    pub fn add_vector(&self, v: &Vector3) -> (r: Point3)
        requires
            fits_i64(self@.plus(v@)),
        ensures
            r@ == self@.plus(v@),
    {
        Point3 { x: self.x + v.x(), y: self.y + v.y(), z: self.z + v.z() }
    }

    /// The displacement that leads from `o` to `self`.
    pub fn sub_point(&self, o: &Point3) -> (r: Vector3)
        requires
            fits_i64(self@.minus(o@)),
        ensures
            r@ == self@.minus(o@),
    {
        Vector3::new(self.x - o.x, self.y - o.y, self.z - o.z)
    }
}

} // verus!
