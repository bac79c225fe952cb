use curveray::aabb::AABBox;
use curveray::curve_triangle::CurveTriangle;
use curveray::fx::{Fx, SCALE};
use curveray::ray::Ray;
use curveray::triangle::Triangle;
use curveray::vec3::Vec3;

fn fx(i: i32) -> Fx {
    Fx::from_int(i)
}

fn v(x: i32, y: i32, z: i32) -> Vec3 {
    Vec3::new(fx(x), fx(y), fx(z))
}

fn unit_box() -> AABBox {
    AABBox {
        min_x: fx(-1),
        max_x: fx(1),
        min_y: fx(-1),
        max_y: fx(1),
        min_z: fx(-1),
        max_z: fx(1),
    }
}

#[test]
fn box_center_and_half_size() {
    let b = AABBox {
        min_x: fx(0),
        max_x: fx(4),
        min_y: fx(-2),
        max_y: fx(2),
        min_z: fx(1),
        max_z: fx(3),
    };
    let c = b.center();
    assert_eq!((c.x.raw(), c.y.raw(), c.z.raw()), (2 * SCALE, 0, 2 * SCALE));
    let h = b.half_size();
    assert_eq!((h.x.raw(), h.y.raw(), h.z.raw()), (2 * SCALE, 2 * SCALE, SCALE));
}

#[test]
fn box_slab_entry_and_exit() {
    let b = unit_box();
    let ray = Ray { origin: v(-2, 0, 0), direction: v(1, 0, 0) };
    let (tn, tf) = b.get_slice_for_ray(&ray);
    assert_eq!(tn.raw(), SCALE);
    assert_eq!(tf.raw(), 3 * SCALE);
}

#[test]
fn box_slab_miss() {
    let b = unit_box();
    let ray = Ray { origin: v(-2, 3, 0), direction: v(1, 0, 0) };
    let (tn, tf) = b.get_slice_for_ray(&ray);
    assert_eq!((tn.raw(), tf.raw()), (-SCALE, -SCALE));
}

#[test]
fn box_slab_behind_origin() {
    let b = unit_box();
    let ray = Ray { origin: v(2, 0, 0), direction: v(1, 0, 0) };
    let (tn, tf) = b.get_slice_for_ray(&ray);
    assert_eq!((tn.raw(), tf.raw()), (-SCALE, -SCALE));
}

#[test]
fn box_slab_origin_inside_clamps_entry() {
    let b = unit_box();
    let ray = Ray { origin: v(0, 0, 0), direction: v(1, 0, 0) };
    let (tn, tf) = b.get_slice_for_ray(&ray);
    assert_eq!(tn.raw(), 0);
    assert_eq!(tf.raw(), SCALE);
}

#[test]
fn box_slab_parallel_axis_inside_and_outside() {
    let b = unit_box();
    // Parallel to x inside the x slab: constrained by y alone.
    let inside = Ray { origin: v(0, -2, 0), direction: v(0, 1, 0) };
    let (tn, tf) = b.get_slice_for_ray(&inside);
    assert_eq!(tn.raw(), SCALE);
    assert_eq!(tf.raw(), 3 * SCALE);
    // Parallel to x outside the z slab: a miss however far it runs.
    let outside = Ray { origin: v(0, -2, 3), direction: v(0, 1, 0) };
    let (tn, tf) = b.get_slice_for_ray(&outside);
    assert_eq!((tn.raw(), tf.raw()), (-SCALE, -SCALE));
}

fn octant_patch() -> CurveTriangle {
    CurveTriangle::new(
        Triangle::new([v(1, 0, 0), v(0, 1, 0), v(0, 0, 1)]),
        [Vec3::zero(), Vec3::zero(), Vec3::zero()],
        [fx(2), fx(2), fx(2)],
    )
}

#[test]
fn shell_brackets_a_ray_toward_the_patch() {
    let ct = octant_patch();
    let shell = ct.tr_shell.as_ref().unwrap();
    let dir = v(-1, -1, -1).normalize();
    let ray = Ray { origin: v(2, 2, 2), direction: dir };
    let (t0, t1) = shell.get_slice_for_ray(&ray);
    assert!(t0.raw() >= 0, "t0 {}", t0.raw());
    assert!(t0.raw() <= t1.raw(), "t0 {} t1 {}", t0.raw(), t1.raw());
    // The surface crossing at distance |(2,2,2)| - 1 lies inside it.
    let crossing: i64 = 161491;
    assert!(t0.raw() <= crossing && crossing <= t1.raw(), "t0 {} t1 {}", t0.raw(), t1.raw());
}

#[test]
fn shell_rejects_a_ray_pointing_away() {
    let ct = octant_patch();
    let shell = ct.tr_shell.as_ref().unwrap();
    let dir = v(1, 1, 1).normalize();
    let ray = Ray { origin: v(2, 2, 2), direction: dir };
    let (t0, t1) = shell.get_slice_for_ray(&ray);
    assert_eq!((t0.raw(), t1.raw()), (-SCALE, -SCALE));
}

#[test]
fn patch_aabb_includes_opposite_root() {
    let ct = octant_patch();
    let b = ct.aabb();
    // Base corners span [0,1] per axis; the opposite root is at 1/3.
    assert_eq!(b.min_x.raw(), 0);
    assert_eq!(b.max_x.raw(), SCALE);
    assert_eq!(b.min_y.raw(), 0);
    assert_eq!(b.max_y.raw(), SCALE);
    assert_eq!(b.min_z.raw(), 0);
    assert_eq!(b.max_z.raw(), SCALE);
}
