use curveray::curve_triangle::{CurveTriangle, IntersectionError};
use curveray::fx::{Fx, SCALE};
use curveray::ray::Ray;
use curveray::triangle::Triangle;
use curveray::vec3::Vec3;

fn fx(i: i32) -> Fx {
    Fx::from_int(i)
}

fn v(x: i32, y: i32, z: i32) -> Vec3 {
    Vec3::new(fx(x), fx(y), fx(z))
}

fn octant_patch() -> CurveTriangle {
    CurveTriangle::new(
        Triangle::new([v(1, 0, 0), v(0, 1, 0), v(0, 0, 1)]),
        [Vec3::zero(), Vec3::zero(), Vec3::zero()],
        [fx(2), fx(2), fx(2)],
    )
}

#[test]
fn intersect_through_the_middle_of_the_patch() {
    let ct = octant_patch();
    let dir = v(-1, -1, -1).normalize();
    let ray = Ray { origin: v(2, 2, 2), direction: dir };
    match ct.intersect(&ray) {
        Ok((t, b)) => {
            // |(2,2,2)| - 1 = 2.4641, raw 161491; the eight bisection
            // steps leave a coarse bracket.
            assert!((t.raw() - 161491).abs() < 3000, "t {}", t.raw());
            let third: i64 = 21845;
            assert!((b.x.raw() - third).abs() < 2000, "bary {:?}", b.x.raw());
            assert!((b.y.raw() - third).abs() < 2000);
            assert!((b.z.raw() - third).abs() < 2000);
        },
        Err(_) => panic!("central ray must hit the patch"),
    }
}

#[test]
fn intersect_through_a_corner_vertex() {
    let ct = octant_patch();
    let ray = Ray { origin: v(2, 0, 0), direction: v(-1, 0, 0) };
    match ct.intersect(&ray) {
        Ok((t, _b)) => {
            // The corner (1,0,0) lies at distance 1.
            assert!((t.raw() - SCALE).abs() < 2000, "t {}", t.raw());
        },
        Err(e) => panic!("corner ray must hit, got {:?}", e),
    }
}

#[test]
fn intersect_behind_ray_when_patch_is_behind() {
    let ct = octant_patch();
    let dir = v(1, 1, 1).normalize();
    let ray = Ray { origin: v(2, 2, 2), direction: dir };
    match ct.intersect(&ray) {
        Ok(_) => panic!("a ray pointing away cannot hit"),
        Err(e) => assert!(matches!(e, IntersectionError::BehindRay)),
    }
}

#[test]
fn intersect_never_falsely_hits_outside_the_bracket() {
    let ct = octant_patch();
    // Rays sweeping far above the patch: each must fail, with the
    // taxonomy's bracket errors.
    for off in 3..8i32 {
        let ray = Ray { origin: v(2, off, 0), direction: v(-1, 0, 0) };
        match ct.intersect(&ray) {
            Ok(_) => panic!("ray at height {} cannot hit the octant", off),
            Err(e) => assert!(
                matches!(e, IntersectionError::BehindRay | IntersectionError::NoIntersections),
                "height {} gave {:?}",
                off,
                e
            ),
        }
    }
}

#[test]
fn intersect_step_signs_straddle_the_surface() {
    let ct = octant_patch();
    let dir = v(-1, -1, -1).normalize();
    let ray = Ray { origin: v(2, 2, 2), direction: dir };
    // Before the surface: outside the curved volume, positive field.
    let before = ct.intersect_step(fx(2), &ray);
    assert!(before.raw() > 0, "before {}", before.raw());
    // Past the surface: inside, negative field.
    let after = ct.intersect_step(fx(3), &ray);
    assert!(after.raw() < 0, "after {}", after.raw());
}
