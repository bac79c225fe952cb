use curveray::fx::{Fx, SCALE};
use curveray::ray::Ray;
use curveray::triangle::Triangle;
use curveray::vec3::Vec3;

fn fx(i: i32) -> Fx {
    Fx::from_int(i)
}

fn v(x: i32, y: i32, z: i32) -> Vec3 {
    Vec3::new(fx(x), fx(y), fx(z))
}

fn vraw(x: i64, y: i64, z: i64) -> Vec3 {
    Vec3::new(Fx::from_raw(x), Fx::from_raw(y), Fx::from_raw(z))
}

fn unit_tri() -> Triangle {
    Triangle::new([v(0, 0, 0), v(1, 0, 0), v(0, 1, 0)])
}

#[test]
fn bary_of_own_vertices_is_basis() {
    let t = unit_tri();
    let b0 = t.get_bary(t.vertexes[0]);
    assert_eq!((b0.x.raw(), b0.y.raw(), b0.z.raw()), (SCALE, 0, 0));
    let b1 = t.get_bary(t.vertexes[1]);
    assert_eq!((b1.x.raw(), b1.y.raw(), b1.z.raw()), (0, SCALE, 0));
    let b2 = t.get_bary(t.vertexes[2]);
    assert_eq!((b2.x.raw(), b2.y.raw(), b2.z.raw()), (0, 0, SCALE));
}

#[test]
fn bary_of_degenerate_triangle_is_zero() {
    let t = Triangle::new([v(1, 1, 1), v(1, 1, 1), v(1, 1, 1)]);
    let b = t.get_bary(v(0, 0, 0));
    assert_eq!((b.x.raw(), b.y.raw(), b.z.raw()), (0, 0, 0));
}

#[test]
fn bary_sums_to_one_for_point_in_plane() {
    let t = unit_tri();
    let p = vraw(16384, 16384, 0);
    let b = t.get_bary(p);
    let sum = b.x.raw() + b.y.raw() + b.z.raw();
    assert!((sum - SCALE).abs() <= 4, "sum {}", sum);
}

#[test]
fn intersect_through_centroid_gives_thirds() {
    let t = unit_tri();
    let third: i64 = 21845;
    let ray = Ray {
        origin: Vec3::new(Fx::from_raw(third), Fx::from_raw(third), fx(1)),
        direction: v(0, 0, -1),
    };
    match t.intersect(&ray) {
        Ok((tt, b)) => {
            assert!((tt.raw() - SCALE).abs() <= 4, "t {}", tt.raw());
            assert!((b.x.raw() - third).abs() <= 8);
            assert!((b.y.raw() - third).abs() <= 8);
            assert!((b.z.raw() - third).abs() <= 8);
        },
        Err(_) => panic!("centroid ray must hit"),
    }
}

#[test]
fn intersect_hit_bary_sums_exactly_to_one() {
    let t = unit_tri();
    let ray = Ray {
        origin: vraw(20000, 30000, SCALE),
        direction: v(0, 0, -1),
    };
    match t.intersect(&ray) {
        Ok((_tt, b)) => {
            assert_eq!(b.x.raw() + b.y.raw() + b.z.raw(), SCALE);
        },
        Err(_) => panic!("interior ray must hit"),
    }
}

#[test]
fn intersect_miss_returns_extrapolated_bary() {
    let t = unit_tri();
    let ray = Ray { origin: v(2, 2, 1), direction: v(0, 0, -1) };
    match t.intersect(&ray) {
        Ok(_) => panic!("ray outside the triangle must miss"),
        Err(b) => {
            // The out-of-range weights still describe the crossing.
            assert!(b.y.raw() > SCALE || b.z.raw() > SCALE || b.x.raw() < 0);
            // The first weight is one minus the other two.
            assert_eq!(b.x.raw(), SCALE - (b.y.raw() + b.z.raw()));
        },
    }
}

#[test]
fn intersect_plane_simple_distance() {
    let t = unit_tri();
    let third: i64 = 21845;
    let ray = Ray {
        origin: Vec3::new(Fx::from_raw(third), Fx::from_raw(third), fx(1)),
        direction: v(0, 0, -1),
    };
    let tt = t.intersect_plane(&ray);
    assert!((tt.raw() - SCALE).abs() <= 4, "t {}", tt.raw());
}

#[test]
fn aabb_covers_vertices() {
    let t = Triangle::new([v(-1, 2, 0), v(3, -2, 5), v(0, 0, 1)]);
    let b = t.aabb();
    assert_eq!(b.min_x.raw(), -SCALE);
    assert_eq!(b.max_x.raw(), 3 * SCALE);
    assert_eq!(b.min_y.raw(), -2 * SCALE);
    assert_eq!(b.max_y.raw(), 2 * SCALE);
    assert_eq!(b.min_z.raw(), 0);
    assert_eq!(b.max_z.raw(), 5 * SCALE);
}

#[test]
fn node_index_slot_roundtrips() {
    let mut t = unit_tri();
    assert_eq!(t.bh_node_index(), 0);
    t.set_bh_node_index(42);
    assert_eq!(t.bh_node_index(), 42);
}
