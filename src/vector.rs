use vstd::prelude::*;

use vstd::arithmetic::mul::lemma_mul_is_distributive_add;

use crate::coords::{fits_i64, zero_coords, Coords};

verus! {

/// A displacement in 3D space with integer components.
///
/// A value type: it is built once from three components and never changed.
#[derive(Clone, Copy, Debug, PartialEq, Eq, Structural)]
pub struct Vector3 {
    x: i64,
    y: i64,
    z: i64,
}

impl View for Vector3 {
    type V = Coords;

    closed spec fn view(&self) -> Coords {
        Coords { x: self.x as int, y: self.y as int, z: self.z as int }
    }
}

/// A product of two `i64` values lies within half the range of an `i128`.
proof fn lemma_i64_product_bounds(a: i64, b: i64)
    ensures
        -0x4000_0000_0000_0000_0000_0000_0000_0000 < a * b <= 0x4000_0000_0000_0000_0000_0000_0000_0000,
{
    assert(-0x4000_0000_0000_0000_0000_0000_0000_0000 < a * b <= 0x4000_0000_0000_0000_0000_0000_0000_0000)
        by (nonlinear_arith)
        requires
            i64::MIN <= a <= i64::MAX,
            i64::MIN <= b <= i64::MAX,
    ;
}

impl Vector3 {
    pub fn new(x: i64, y: i64, z: i64) -> (r: Vector3)
        ensures
            r@ == (Coords { x: x as int, y: y as int, z: z as int }),
    {
        Vector3 { x, y, z }
    }

    pub fn zero() -> (r: Vector3)
        ensures
            r@ == zero_coords(),
    {
        Vector3 { x: 0, y: 0, z: 0 }
    }

    pub fn x(&self) -> (r: i64)
        ensures
            r == self@.x,
    {
        self.x
    }

    pub fn y(&self) -> (r: i64)
        ensures
            r == self@.y,
    {
        self.y
    }

    pub fn z(&self) -> (r: i64)
        ensures
            r == self@.z,
    {
        self.z
    }

    /// Whether every component is zero.
    pub fn is_zero(&self) -> (r: bool)
        ensures
            r == self@.is_zero(),
    {
        self.x == 0 && self.y == 0 && self.z == 0
    }

    /// Component-wise sum.
    pub fn add(&self, o: &Vector3) -> (r: Vector3)
        requires
            fits_i64(self@.plus(o@)),
        ensures
            r@ == self@.plus(o@),
    {
        Vector3 { x: self.x + o.x, y: self.y + o.y, z: self.z + o.z }
    }

    /// Component-wise difference.
    pub fn sub(&self, o: &Vector3) -> (r: Vector3)
        requires
            fits_i64(self@.minus(o@)),
        ensures
            r@ == self@.minus(o@),
    {
        Vector3 { x: self.x - o.x, y: self.y - o.y, z: self.z - o.z }
    }

    /// The opposite vector.
    pub fn neg(&self) -> (r: Vector3)
        requires
            fits_i64(self@.negated()),
        ensures
            r@ == self@.negated(),
    {
        Vector3 { x: -self.x, y: -self.y, z: -self.z }
    }

    /// Every component multiplied by the scalar `t`.
    pub fn scale(&self, t: i64) -> (r: Vector3)
        requires
            fits_i64(self@.times(t as int)),
        ensures
            r@ == self@.times(t as int),
    {
        Vector3 { x: self.x * t, y: self.y * t, z: self.z * t }
    }

    /// The inner product.
    pub fn dot(&self, o: &Vector3) -> (r: i128)
        requires
            i128::MIN <= self@.dot(o@) <= i128::MAX,
        ensures
            r == self@.dot(o@),
    {
        proof {
            lemma_i64_product_bounds(self.x, o.x);
            lemma_i64_product_bounds(self.y, o.y);
            lemma_i64_product_bounds(self.z, o.z);
        }
        let px = self.x as i128 * o.x as i128;
        let py = self.y as i128 * o.y as i128;
        let pz = self.z as i128 * o.z as i128;
        // Two terms of opposite sign are summed first, so that no partial sum
        // leaves the range that the full sum lies in.
        if (px >= 0) != (py >= 0) {
            (px + py) + pz
        } else if (px >= 0) != (pz >= 0) {
            (px + pz) + py
        } else {
            (px + py) + pz
        }
    }

    /// The squared Euclidean length, `dot(v, v)`.
    pub fn length_squared(&self) -> (r: i128)
        requires
            self@.dot(self@) <= i128::MAX,
        ensures
            r == self@.dot(self@),
    {
        proof {
            lemma_length_squared_zero_iff(*self);
        }
        self.dot(self)
    }

    /// The cross product.
    pub fn cross(&self, o: &Vector3) -> (r: Vector3)
        requires
            fits_i64(self@.cross(o@)),
        ensures
            r@ == self@.cross(o@),
    {
        proof {
            lemma_i64_product_bounds(self.y, o.z);
            lemma_i64_product_bounds(self.z, o.y);
            lemma_i64_product_bounds(self.z, o.x);
            lemma_i64_product_bounds(self.x, o.z);
            lemma_i64_product_bounds(self.x, o.y);
            lemma_i64_product_bounds(self.y, o.x);
        }
        let x = self.y as i128 * o.z as i128 - self.z as i128 * o.y as i128;
        let y = self.z as i128 * o.x as i128 - self.x as i128 * o.z as i128;
        let z = self.x as i128 * o.y as i128 - self.y as i128 * o.x as i128;
        Vector3 { x: x as i64, y: y as i64, z: z as i64 }
    }
}

/// Addition of vectors is commutative, and subtracting `b` undoes adding `b`.
pub proof fn lemma_add_commutes_and_sub_inverts(a: Vector3, b: Vector3)
    ensures
        a@.plus(b@) == b@.plus(a@),
        a@.plus(b@).minus(b@) == a@,
{
}

/// Scaling the first argument of a dot product scales the product:
/// `dot(scale(a, t), b) == t * dot(a, b)`.
pub proof fn lemma_dot_scale_left(a: Vector3, b: Vector3, t: i64)
    ensures
        a@.times(t as int).dot(b@) == t * a@.dot(b@),
{
    let (ax, ay, az) = (a@.x, a@.y, a@.z);
    let (bx, by, bz) = (b@.x, b@.y, b@.z);
    let s = t as int;
    assert((ax * s) * bx == s * (ax * bx)) by (nonlinear_arith);
    assert((ay * s) * by == s * (ay * by)) by (nonlinear_arith);
    assert((az * s) * bz == s * (az * bz)) by (nonlinear_arith);
    lemma_mul_is_distributive_add(s, ax * bx, ay * by);
    lemma_mul_is_distributive_add(s, ax * bx + ay * by, az * bz);
}

/// The cross product is anti-commutative, `cross(a, b) == -cross(b, a)`, and
/// the cross product of a vector with itself is the zero vector.
pub proof fn lemma_cross_anticommutes(a: Vector3, b: Vector3)
    ensures
        a@.cross(b@) == b@.cross(a@).negated(),
        a@.cross(a@) == zero_coords(),
{
    let (ax, ay, az) = (a@.x, a@.y, a@.z);
    let (bx, by, bz) = (b@.x, b@.y, b@.z);
    assert(ay * bz - az * by == -(by * az - bz * ay)) by (nonlinear_arith);
    assert(az * bx - ax * bz == -(bz * ax - bx * az)) by (nonlinear_arith);
    assert(ax * by - ay * bx == -(bx * ay - by * ax)) by (nonlinear_arith);
    assert(ay * az - az * ay == 0) by (nonlinear_arith);
    assert(az * ax - ax * az == 0) by (nonlinear_arith);
    assert(ax * ay - ay * ax == 0) by (nonlinear_arith);
}

/// The squared length of a vector is never negative, and it is zero exactly
/// for the zero vector.
pub proof fn lemma_length_squared_zero_iff(v: Vector3)
    ensures
        v@.dot(v@) >= 0,
        v@.dot(v@) == 0 <==> v@.is_zero(),
{
    let (x, y, z) = (v@.x, v@.y, v@.z);
    assert(x * x >= 0 && y * y >= 0 && z * z >= 0) by (nonlinear_arith);
    assert(x * x == 0 ==> x == 0) by (nonlinear_arith);
    assert(y * y == 0 ==> y == 0) by (nonlinear_arith);
    assert(z * z == 0 ==> z == 0) by (nonlinear_arith);
}

/// The cross product of two parallel vectors is the zero vector: `cross(a, t * a)`
/// vanishes for every scalar `t`, `t == 0` included.
pub proof fn lemma_cross_parallel(a: Vector3, t: i64)
    ensures
        a@.cross(a@.times(t as int)) == zero_coords(),
        a@.times(t as int).cross(a@) == zero_coords(),
{
    let (x, y, z) = (a@.x, a@.y, a@.z);
    let s = t as int;
    assert(y * (z * s) - z * (y * s) == 0) by (nonlinear_arith);
    assert(z * (x * s) - x * (z * s) == 0) by (nonlinear_arith);
    assert(x * (y * s) - y * (x * s) == 0) by (nonlinear_arith);
    assert((y * s) * z - (z * s) * y == 0) by (nonlinear_arith);
    assert((z * s) * x - (x * s) * z == 0) by (nonlinear_arith);
    assert((x * s) * y - (y * s) * x == 0) by (nonlinear_arith);
}

} // verus!
