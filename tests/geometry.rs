use raytrace::point::Point3;
use raytrace::ray::{GeometryError, Ray};
use raytrace::vector::Vector3;

fn components(v: Vector3) -> (i64, i64, i64) {
    (v.x(), v.y(), v.z())
}

fn coordinates(p: Point3) -> (i64, i64, i64) {
    (p.x(), p.y(), p.z())
}

#[test]
fn add_is_commutative_and_sub_undoes_it() {
    let a = Vector3::new(1, -2, 30);
    let b = Vector3::new(-7, 5, 11);
    assert_eq!(a.add(&b), b.add(&a));
    assert_eq!(components(a.add(&b)), (-6, 3, 41));
    assert_eq!(a.add(&b).sub(&b), a);
}

#[test]
fn sub_is_component_wise() {
    let a = Vector3::new(4, 5, 6);
    let b = Vector3::new(1, 7, -2);
    assert_eq!(components(a.sub(&b)), (3, -2, 8));
}

#[test]
fn dot_is_bilinear_in_scale() {
    let a = Vector3::new(1, 2, 3);
    let b = Vector3::new(4, -5, 6);
    assert_eq!(a.dot(&b), 12);
    assert_eq!(a.scale(-3).dot(&b), -3 * a.dot(&b));
    assert_eq!(a.scale(0).dot(&b), 0);
}

#[test]
fn dot_at_the_extremes_of_i64() {
    let big = Vector3::new(i64::MAX, i64::MAX, 0);
    let r = (i64::MAX as i128) * (i64::MAX as i128) * 2;
    assert_eq!(big.dot(&big), r);
    assert_eq!(big.length_squared(), r);
    let mixed = Vector3::new(i64::MIN, i64::MIN, i64::MAX);
    let other = Vector3::new(i64::MIN, i64::MAX, i64::MAX);
    let expected = (i64::MIN as i128) * (i64::MIN as i128)
        + (i64::MIN as i128) * (i64::MAX as i128)
        + (i64::MAX as i128) * (i64::MAX as i128);
    assert_eq!(mixed.dot(&other), expected);
}

#[test]
fn scale_and_neg() {
    let v = Vector3::new(1, -2, 3);
    assert_eq!(components(v.scale(4)), (4, -8, 12));
    assert_eq!(components(v.neg()), (-1, 2, -3));
}

#[test]
fn cross_is_anticommutative() {
    let a = Vector3::new(1, 2, 3);
    let b = Vector3::new(4, 5, 6);
    assert_eq!(components(a.cross(&b)), (-3, 6, -3));
    assert_eq!(a.cross(&b), b.cross(&a).neg());
    assert!(a.cross(&a).is_zero());
}

#[test]
fn cross_of_unit_axes() {
    let x = Vector3::new(1, 0, 0);
    let y = Vector3::new(0, 1, 0);
    assert_eq!(components(x.cross(&y)), (0, 0, 1));
    let parallel = x.scale(-5);
    assert_eq!(x.cross(&parallel), Vector3::zero());
    assert!(x.cross(&Vector3::zero()).is_zero());
}

#[test]
fn length_squared_of_a_vector() {
    assert_eq!(Vector3::new(2, 3, 6).length_squared(), 49);
    assert_eq!(Vector3::zero().length_squared(), 0);
    assert!(Vector3::zero().is_zero());
    assert!(!Vector3::new(0, 0, -1).is_zero());
}

#[test]
fn points_move_by_vectors() {
    let p = Point3::new(1, 2, 3);
    let q = Point3::new(-4, 0, 10);
    let v = p.sub_point(&q);
    assert_eq!(components(v), (5, 2, -7));
    assert_eq!(q.add_vector(&v), p);
    assert_eq!(coordinates(Point3::origin()), (0, 0, 0));
}

#[test]
fn ray_along_x_axis() {
    let ray = Ray::new(Point3::new(0, 0, 0), Vector3::new(1, 0, 0));
    assert_eq!(coordinates(ray.at(0)), (0, 0, 0));
    assert_eq!(coordinates(ray.at(2)), (2, 0, 0));
    assert_eq!(coordinates(ray.at(-1)), (-1, 0, 0));
}

#[test]
fn ray_along_z_axis() {
    let ray = Ray::new(Point3::new(1, 2, 3), Vector3::new(0, 0, 1));
    assert_eq!(coordinates(ray.at(5)), (1, 2, 8));
    assert_eq!(ray.origin(), Point3::new(1, 2, 3));
    assert_eq!(ray.direction(), Vector3::new(0, 0, 1));
}

#[test]
fn ray_at_without_intermediate_overflow() {
    let ray = Ray::new(Point3::new(i64::MAX, 0, 0), Vector3::new(-1, 0, 0));
    assert_eq!(coordinates(ray.at(i64::MAX)), (0, 0, 0));
    let back = Ray::new(Point3::new(i64::MIN + 2, 0, 0), Vector3::new(2, 0, 0));
    assert_eq!(coordinates(back.at(i64::MAX / 2)).0, i64::MIN + 2 + 2 * (i64::MAX / 2));
}

#[test]
fn validating_constructor_rejects_zero_direction() {
    let o = Point3::new(1, 1, 1);
    assert_eq!(Ray::try_new(o, Vector3::zero()), Err(GeometryError::ZeroDirection));
    let ray = Ray::try_new(o, Vector3::new(0, -3, 0)).unwrap();
    assert_eq!(ray, Ray::new(o, Vector3::new(0, -3, 0)));
    assert_eq!(coordinates(ray.at(2)), (1, -5, 1));
}
