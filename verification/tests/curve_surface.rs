use curveray::curve_triangle::CurveTriangle;
use curveray::fx::{Fx, SCALE};
use curveray::triangle::Triangle;
use curveray::vec3::Vec3;

fn fx(i: i32) -> Fx {
    Fx::from_int(i)
}

fn v(x: i32, y: i32, z: i32) -> Vec3 {
    Vec3::new(fx(x), fx(y), fx(z))
}

fn raws(a: Vec3) -> (i64, i64, i64) {
    (a.x.raw(), a.y.raw(), a.z.raw())
}

fn near(a: Vec3, b: Vec3, tol: i64) -> bool {
    (a.x.raw() - b.x.raw()).abs() <= tol && (a.y.raw() - b.y.raw()).abs() <= tol
        && (a.z.raw() - b.z.raw()).abs() <= tol
}

fn octant_patch() -> CurveTriangle {
    CurveTriangle::new(
        Triangle::new([v(1, 0, 0), v(0, 1, 0), v(0, 0, 1)]),
        [Vec3::zero(), Vec3::zero(), Vec3::zero()],
        [fx(2), fx(2), fx(2)],
    )
}

#[test]
fn curve_starts_at_v1_for_any_exponent() {
    let v1 = v(3, -1, 2);
    let v2 = v(-5, 4, 0);
    let p = v(1, 1, 1);
    for k in [Fx::half(), fx(1), fx(2), fx(3), fx(10)] {
        let c = CurveTriangle::curve(Fx::zero(), v1, v2, p, k);
        assert_eq!(raws(c), raws(v1), "k raw {}", k.raw());
    }
}

#[test]
fn curve_ends_at_v2_for_any_exponent() {
    let v1 = v(3, -1, 2);
    let v2 = v(-5, 4, 0);
    let p = v(1, 1, 1);
    for k in [Fx::half(), fx(1), fx(2), fx(3), fx(10)] {
        let c = CurveTriangle::curve(Fx::one(), v1, v2, p, k);
        assert_eq!(raws(c), raws(v2), "k raw {}", k.raw());
    }
}

#[test]
fn curve_sqrt_interpolates_endpoints() {
    let v1 = v(3, -1, 2);
    let v2 = v(-5, 4, 0);
    let p = v(1, 1, 1);
    assert_eq!(raws(CurveTriangle::curve_sqrt(Fx::zero(), v1, v2, p)), raws(v1));
    assert_eq!(raws(CurveTriangle::curve_sqrt(Fx::one(), v1, v2, p)), raws(v2));
}

#[test]
fn curve_midpoint_with_pivot_on_segment() {
    // With the pivot at the chord midpoint the curve stays near it.
    let v1 = v(0, 0, 0);
    let v2 = v(2, 0, 0);
    let p = v(1, 0, 0);
    let c = CurveTriangle::curve(Fx::half(), v1, v2, p, fx(2));
    assert!(near(c, p, 600), "got {:?}", raws(c));
}

#[test]
fn surface_interpolates_corners_exactly() {
    let ct = octant_patch();
    let one = Fx::one();
    let zero = Fx::zero();
    let s0 = ct.get_surface_point_by_bary(Vec3::new(one, zero, zero));
    assert_eq!(raws(s0), raws(ct.base.vertexes[0]));
    let s1 = ct.get_surface_point_by_bary(Vec3::new(zero, one, zero));
    assert_eq!(raws(s1), raws(ct.base.vertexes[1]));
    let s2 = ct.get_surface_point_by_bary(Vec3::new(zero, zero, one));
    assert_eq!(raws(s2), raws(ct.base.vertexes[2]));
}

#[test]
fn surface_point_is_pure() {
    let ct = octant_patch();
    let b = Vec3::new(Fx::from_raw(13107), Fx::from_raw(19661), Fx::from_raw(32768));
    let first = ct.get_surface_point_by_bary(b);
    let second = ct.get_surface_point_by_bary(b);
    assert_eq!(raws(first), raws(second));
}

#[test]
fn surface_point_lies_near_unit_sphere() {
    let ct = octant_patch();
    let third = Fx::from_raw(21845);
    let s = ct.get_surface_point_by_bary(Vec3::new(third, third, third.add(Fx::from_raw(2))));
    let m = s.magnitude();
    assert!((m.raw() - SCALE).abs() < 3500, "magnitude raw {}", m.raw());
}

#[test]
fn sqrt_variant_matches_quadratic_exponents() {
    let ct = octant_patch();
    let b = Vec3::new(Fx::from_raw(26214), Fx::from_raw(26214), Fx::from_raw(13108));
    let a = ct.get_surface_point_by_bary(b);
    let s = ct.get_surface_point_by_bary_sqrt(b);
    assert_eq!(raws(a), raws(s));
}

#[test]
fn surface_point_by_raw_point_matches_projection() {
    let ct = octant_patch();
    let p = Vec3::new(Fx::from_raw(21845), Fx::from_raw(21845), Fx::from_raw(21846));
    let via_point = ct.get_surface_point(p);
    let via_bary = ct.get_surface_point_by_bary(ct.base.get_bary(p));
    assert_eq!(raws(via_point), raws(via_bary));
}

#[test]
fn new_derives_shell_and_root() {
    let ct = octant_patch();
    assert_eq!(raws(ct.root_point), (0, 0, 0));
    assert_eq!(raws(ct.shell_points[0]), (2 * SCALE, 0, 0));
    assert_eq!(raws(ct.shell_points[1]), (0, 2 * SCALE, 0));
    assert_eq!(raws(ct.shell_points[2]), (0, 0, 2 * SCALE));
    // Opposite root: vertex sum minus twice the root.
    assert_eq!(raws(ct.opposite_root), (SCALE, SCALE, SCALE));
    let shell = ct.tr_shell.as_ref().unwrap();
    assert_eq!(raws(shell.triangles[0].vertexes[0]), (2 * SCALE, 0, 0));
    assert_eq!(raws(shell.triangles[1].vertexes[0]), (0, 0, 0));
    assert!(ct.triangulation.is_empty());
}

#[test]
fn triangulate_emits_square_counts() {
    for acc in 1..5i32 {
        let mut ct = octant_patch();
        ct.triangulate(acc);
        assert_eq!(ct.triangulation.len(), (acc * acc) as usize, "accuracy {}", acc);
    }
}

#[test]
fn triangulate_appends_on_repeat() {
    let mut ct = octant_patch();
    ct.triangulate(2);
    ct.triangulate(3);
    assert_eq!(ct.triangulation.len(), 4 + 9);
}

#[test]
fn triangulation_vertices_sit_near_the_surface() {
    let mut ct = octant_patch();
    ct.triangulate(4);
    for t in ct.triangulation.iter() {
        for corner in t.vertexes.iter() {
            let m = corner.magnitude();
            assert!((m.raw() - SCALE).abs() < 4000, "magnitude raw {}", m.raw());
        }
    }
}

#[test]
fn patch_node_index_slot_roundtrips() {
    let mut ct = octant_patch();
    assert_eq!(ct.bh_node_index(), 0);
    ct.set_bh_node_index(7);
    assert_eq!(ct.bh_node_index(), 7);
}
