use curveray::fx::{Fx, SCALE};
use curveray::vec3::Vec3;

fn fx(i: i32) -> Fx {
    Fx::from_int(i)
}

fn v(x: i32, y: i32, z: i32) -> Vec3 {
    Vec3::new(fx(x), fx(y), fx(z))
}

fn raws(a: Vec3) -> (i64, i64, i64) {
    (a.x.raw(), a.y.raw(), a.z.raw())
}

#[test]
fn add_sub_scale() {
    assert_eq!(raws(v(1, 2, 3).add(v(4, 5, 6))), (5 * SCALE, 7 * SCALE, 9 * SCALE));
    assert_eq!(raws(v(4, 5, 6).sub(v(1, 2, 3))), (3 * SCALE, 3 * SCALE, 3 * SCALE));
    assert_eq!(raws(v(1, -2, 3).scale(fx(2))), (2 * SCALE, -4 * SCALE, 6 * SCALE));
    assert_eq!(raws(v(2, 4, 6).div_s(fx(2))), (SCALE, 2 * SCALE, 3 * SCALE));
}

#[test]
fn dot_and_cross() {
    assert_eq!(v(1, 2, 3).dot(v(4, 5, 6)).raw(), 32 * SCALE);
    assert_eq!(raws(v(1, 0, 0).cross(v(0, 1, 0))), (0, 0, SCALE));
    assert_eq!(raws(v(0, 1, 0).cross(v(1, 0, 0))), (0, 0, -SCALE));
}

#[test]
fn magnitude_and_normalize() {
    assert_eq!(v(3, 4, 0).magnitude().raw(), 5 * SCALE);
    let n = v(3, 4, 0).normalize();
    assert_eq!(raws(n), (3 * SCALE / 5, 4 * SCALE / 5, 0));
    assert_eq!(raws(Vec3::zero().normalize()), (0, 0, 0));
}

#[test]
fn lerp_endpoints() {
    let a = v(1, 2, 3);
    let b = v(7, -2, 5);
    assert_eq!(raws(a.lerp(b, Fx::zero())), raws(a));
    assert_eq!(raws(a.lerp(b, Fx::one())), raws(b));
    assert_eq!(raws(a.lerp(b, Fx::half())), (4 * SCALE, 0, 4 * SCALE));
}

#[test]
fn abs_step_upowf() {
    assert_eq!(raws(v(-1, 2, -3).abs()), (SCALE, 2 * SCALE, 3 * SCALE));
    assert_eq!(raws(v(-1, 0, 2).step(Fx::zero())), (0, SCALE, SCALE));
    assert_eq!(raws(v(4, -4, 0).upowf(Fx::half())), (2 * SCALE, -2 * SCALE, 0));
}

#[test]
fn mul_div_elementwise() {
    assert_eq!(raws(v(2, 3, 4).mul_ew(v(5, 6, 7))), (10 * SCALE, 18 * SCALE, 28 * SCALE));
    assert_eq!(raws(v(10, 18, 28).div_ew(v(5, 6, 7))), (2 * SCALE, 3 * SCALE, 4 * SCALE));
}

#[test]
fn vectors_relation_midpoint() {
    let v1 = v(0, 0, 0);
    let v2 = v(2, 2, 2);
    let p = v(1, 1, 1);
    assert_eq!(p.get_vectors_relation(v1, v2).raw(), 32768);
}

#[test]
fn vectors_relation_skips_flat_axes() {
    // The segment moves only in x; the other two ratios are left out.
    let v1 = v(0, 1, 1);
    let v2 = v(4, 1, 1);
    let p = v(1, 1, 1);
    assert_eq!(p.get_vectors_relation(v1, v2).raw(), SCALE / 4);
}

#[test]
fn eq_v_compares_all_components() {
    assert!(v(1, 2, 3).eq_v(v(1, 2, 3)));
    assert!(!v(1, 2, 3).eq_v(v(1, 2, 4)));
}
