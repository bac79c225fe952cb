use curveray::cpu_buffer::CPUBuffer;
use curveray::fx::{Fx, SCALE};
use curveray::rasterisator::{draw_line, draw_rect_for_triangles};
use curveray::render::Rect;
use curveray::camera::Camera;
use curveray::shapes::{get_box, get_curve_sphere, get_scene, get_sphere, get_wall};
use curveray::vec3::Vec3;

fn fx(i: i32) -> Fx {
    Fx::from_int(i)
}

fn v(x: i32, y: i32, z: i32) -> Vec3 {
    Vec3::new(fx(x), fx(y), fx(z))
}

#[test]
fn curve_sphere_has_eight_octants() {
    let sphere = get_curve_sphere();
    assert_eq!(sphere.len(), 8);
    for (i, part) in sphere.iter().enumerate() {
        let sx = if i % 2 == 0 { SCALE } else { -SCALE };
        let sy = if (i / 2) % 2 == 0 { SCALE } else { -SCALE };
        let sz = if i / 4 == 0 { SCALE } else { -SCALE };
        assert_eq!(part.base.vertexes[0].x.raw(), sx);
        assert_eq!(part.base.vertexes[1].y.raw(), sy);
        assert_eq!(part.base.vertexes[2].z.raw(), sz);
        assert_eq!(part.pivots[0].x.raw(), 0);
        assert_eq!(part.curve_koefs[0].raw(), 2 * SCALE);
        assert_eq!(part.root_point.x.raw(), 0);
        assert!(part.tr_shell.is_some());
        assert!(part.triangulation.is_empty());
    }
}

#[test]
fn sphere_octants_interpolate_their_corners() {
    let sphere = get_sphere();
    for part in sphere.iter() {
        let s = part.get_surface_point_by_bary(Vec3::new(Fx::one(), Fx::zero(), Fx::zero()));
        assert_eq!(s.x.raw(), part.base.vertexes[0].x.raw());
        assert_eq!(s.y.raw(), part.base.vertexes[0].y.raw());
        assert_eq!(s.z.raw(), part.base.vertexes[0].z.raw());
    }
}

#[test]
fn wall_is_a_floor_quad() {
    let wall = get_wall();
    assert_eq!(wall.len(), 2);
    assert_eq!(
        (wall[0].vertexes[0].x.raw(), wall[0].vertexes[0].y.raw(), wall[0].vertexes[0].z.raw()),
        (-SCALE, -SCALE, -SCALE)
    );
    assert_eq!(wall[1].vertexes[2].z.raw(), SCALE);
    for t in wall.iter() {
        for c in t.vertexes.iter() {
            assert_eq!(c.y.raw(), -SCALE);
        }
    }
}

#[test]
fn box_has_twelve_half_unit_faces() {
    let bx = get_box();
    assert_eq!(bx.len(), 12);
    for t in bx.iter() {
        for c in t.vertexes.iter() {
            assert_eq!(c.x.raw().abs(), 32768);
            assert_eq!(c.y.raw().abs(), 32768);
            assert_eq!(c.z.raw().abs(), 32768);
        }
    }
}

#[test]
fn scene_collects_walls_box_and_sphere() {
    let (triangles, patches) = get_scene();
    assert_eq!(triangles.len(), 22);
    assert_eq!(patches.len(), 8);
}

#[test]
fn wireframe_writes_only_its_colour() {
    let cam = Camera {
        origin: v(0, 0, -2),
        direction: v(0, 0, 1),
        fov: Fx::from_raw(102944),
        ratio: Fx::one(),
    };
    let mut buf = CPUBuffer::new(16, 16);
    let rect = Rect { left: 0, bottom: 0, width: 16, height: 16 };
    let color = v(1, 0, 0);
    draw_line(&mut buf, &rect, &cam, color, v(-1, 0, 1), v(1, 0, 1));
    let mut painted = 0usize;
    for x in 0..16u32 {
        for y in 0..16u32 {
            let c = buf.get(x, y);
            let trip = (c.x.raw(), c.y.raw(), c.z.raw());
            assert!(trip == (0, 0, 0) || trip == (SCALE, 0, 0), "pixel {:?}", trip);
            if trip == (SCALE, 0, 0) {
                painted += 1;
            }
        }
    }
    assert!(painted > 0, "the line must touch at least one pixel");
}

#[test]
fn base_wireframe_uses_the_blue_marker() {
    let cam = Camera {
        origin: v(0, 0, -2),
        direction: v(0, 0, 1),
        fov: Fx::from_raw(102944),
        ratio: Fx::one(),
    };
    let sphere = get_sphere();
    let mut buf = CPUBuffer::new(16, 16);
    let rect = Rect { left: 0, bottom: 0, width: 16, height: 16 };
    draw_rect_for_triangles(&mut buf, &rect, &sphere[0], &cam);
    for x in 0..16u32 {
        for y in 0..16u32 {
            let c = buf.get(x, y);
            let trip = (c.x.raw(), c.y.raw(), c.z.raw());
            assert!(trip == (0, 0, 0) || trip == (0, 0, SCALE), "pixel {:?}", trip);
        }
    }
}
