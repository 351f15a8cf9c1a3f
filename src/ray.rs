use vstd::prelude::*;

use crate::coords::{fits_i64, Coords};
use crate::point::Point3;
use crate::vector::Vector3;

verus! {

/// The ways in which geometry can be degenerate.
#[derive(Clone, Copy, Debug, PartialEq, Eq, Structural)]
pub enum GeometryError {
    /// A ray was given the zero vector as its direction.
    ZeroDirection,
}

/// The parametrised line `P(t) = origin + t * direction`.
///
/// A ray holds its own copies of its origin and direction.
#[derive(Clone, Copy, Debug, PartialEq, Eq, Structural)]
pub struct Ray {
    origin: Point3,
    direction: Vector3,
}

impl Ray {
    pub closed spec fn origin_spec(&self) -> Coords {
        self.origin@
    }

    pub closed spec fn direction_spec(&self) -> Coords {
        self.direction@
    }

    /// The point of the ray at parameter `t`, in the model.
    pub open spec fn at_spec(&self, t: int) -> Coords {
        self.origin_spec().plus(self.direction_spec().times(t))
    }

    /// A ray from `origin` along `direction`. No check is made on the
    /// direction: see `try_new` for the constructor that rejects a zero one.
    pub fn new(origin: Point3, direction: Vector3) -> (r: Ray)
        ensures
            r.origin_spec() == origin@,
            r.direction_spec() == direction@,
    {
        Ray { origin, direction }
    }

    /// A ray from `origin` along `direction`, refused when the direction is
    /// the zero vector.
    pub fn try_new(origin: Point3, direction: Vector3) -> (r: Result<Ray, GeometryError>)
        ensures
            direction@.is_zero() <==> r == Err::<Ray, GeometryError>(GeometryError::ZeroDirection),
            r matches Ok(ray) ==> ray.origin_spec() == origin@ && ray.direction_spec()
                == direction@,
    {
        if direction.is_zero() {
            Err(GeometryError::ZeroDirection)
        } else {
            Ok(Ray { origin, direction })
        }
    }

    pub fn origin(&self) -> (r: Point3)
        ensures
            r@ == self.origin_spec(),
    {
        self.origin
    }

    pub fn direction(&self) -> (r: Vector3)
        ensures
            r@ == self.direction_spec(),
    {
        self.direction
    }

    /// The point `origin + t * direction`, for any `t`, negative ones included.
    pub fn at(&self, t: i64) -> (r: Point3)
        requires
            fits_i64(self.at_spec(t as int)),
        ensures
            r@ == self.at_spec(t as int),
    {
        let o = self.origin;
        let d = self.direction;
        let x = Ray::offset(o.x(), d.x(), t);
        let y = Ray::offset(o.y(), d.y(), t);
        let z = Ray::offset(o.z(), d.z(), t);
        Point3::new(x, y, z)
    }

    /// One coordinate of `origin + t * direction`, computed without an
    /// intermediate overflow.
    fn offset(o: i64, d: i64, t: i64) -> (r: i64)
        requires
            i64::MIN <= o + d * t <= i64::MAX,
        ensures
            r == o + d * t,
    {
        assert(-0x4000_0000_0000_0000_0000_0000_0000_0000 < d * t <= 0x4000_0000_0000_0000_0000_0000_0000_0000)
            by (nonlinear_arith)
            requires
                i64::MIN <= d <= i64::MAX,
                i64::MIN <= t <= i64::MAX,
        ;
        (o as i128 + d as i128 * t as i128) as i64
    }
}

} // verus!
