use curveray::camera::Camera;
use curveray::cpu_buffer::CPUBuffer;
use curveray::fx::{Fx, SCALE};
use curveray::render::{cast_ray_curve, draw_to};
use curveray::shapes::get_sphere;
use curveray::vec3::Vec3;

fn fx(i: i32) -> Fx {
    Fx::from_int(i)
}

fn v(x: i32, y: i32, z: i32) -> Vec3 {
    Vec3::new(fx(x), fx(y), fx(z))
}

// 90 degrees in Q16.16 radians.
const FOV_90: i64 = 102944;

fn scene_camera() -> Camera {
    Camera {
        origin: v(2, 2, 2),
        direction: v(-1, -1, -1).normalize(),
        fov: Fx::from_raw(FOV_90),
        ratio: Fx::one(),
    }
}

#[test]
fn center_ray_keeps_the_forward_direction() {
    let cam = scene_camera();
    let ray = cam.get_ray_in_viewport(Fx::zero(), Fx::zero());
    assert_eq!(ray.origin.x.raw(), cam.origin.x.raw());
    assert_eq!(ray.direction.x.raw(), cam.direction.x.raw());
    assert_eq!(ray.direction.y.raw(), cam.direction.y.raw());
    assert_eq!(ray.direction.z.raw(), cam.direction.z.raw());
}

#[test]
fn off_center_rays_are_rotated() {
    let cam = scene_camera();
    let ray = cam.get_ray_in_viewport(Fx::half(), Fx::zero());
    let same = ray.direction.x.raw() == cam.direction.x.raw() && ray.direction.y.raw()
        == cam.direction.y.raw() && ray.direction.z.raw() == cam.direction.z.raw();
    assert!(!same, "a shifted pixel must bend the ray");
}

#[test]
fn buffer_starts_black_and_stores_pixels() {
    let mut buf = CPUBuffer::new(8, 4);
    assert_eq!(buf.width, 8);
    assert_eq!(buf.height, 4);
    let c = buf.get(3, 2);
    assert_eq!((c.x.raw(), c.y.raw(), c.z.raw()), (0, 0, 0));
    buf.set(3, 2, v(1, 0, 1));
    let c = buf.get(3, 2);
    assert_eq!((c.x.raw(), c.y.raw(), c.z.raw()), (SCALE, 0, SCALE));
    let untouched = buf.get(2, 2);
    assert_eq!(untouched.x.raw(), 0);
}

#[test]
fn central_cast_hits_the_sphere() {
    let cam = scene_camera();
    let sphere = get_sphere();
    let color = cast_ray_curve(Fx::zero(), Fx::zero(), &cam, &sphere);
    // The hit point is near (0.577, 0.577, 0.577); every encoded
    // channel lies in [0, 1] and well away from the background.
    for ch in [color.x.raw(), color.y.raw(), color.z.raw()] {
        assert!(ch >= 0 && ch <= SCALE, "channel {}", ch);
        assert!(ch > SCALE / 2, "channel {}", ch);
    }
}

#[test]
fn far_off_cast_returns_the_background_sentinel() {
    let cam = scene_camera();
    let sphere = get_sphere();
    let color = cast_ray_curve(fx(-1), Fx::one(), &cam, &sphere);
    assert_eq!((color.x.raw(), color.y.raw(), color.z.raw()), (0, 0, 3277));
}

#[test]
fn end_to_end_frame_renders_both_halves() {
    let cam = scene_camera();
    let mut sphere = get_sphere();
    for part in sphere.iter_mut() {
        part.triangulate(3);
    }
    let mut buf = CPUBuffer::new(16, 8);
    draw_to(&mut buf, &cam, &sphere);

    // Right half: the implicit-surface path. Its centre pixel casts
    // straight at the sphere and must hit with channels in [0, 1].
    let c = buf.get(12, 4);
    for ch in [c.x.raw(), c.y.raw(), c.z.raw()] {
        assert!(ch >= 0 && ch <= SCALE, "channel {}", ch);
    }
    assert!(
        (c.x.raw(), c.y.raw(), c.z.raw()) != (0, 0, 3277),
        "centre pixel must not be background"
    );
    // Right half corner pixel: aimed far off the sphere, the blue
    // background sentinel.
    let c = buf.get(8, 0);
    assert_eq!((c.x.raw(), c.y.raw(), c.z.raw()), (0, 0, 3277));

    // Left half: the triangulated path. Centre hits, corner is the
    // green-tinted background sentinel.
    let c = buf.get(4, 4);
    assert!(
        (c.x.raw(), c.y.raw(), c.z.raw()) != (0, 3277, 0),
        "triangulated centre pixel must not be background"
    );
    let c = buf.get(0, 0);
    assert_eq!((c.x.raw(), c.y.raw(), c.z.raw()), (0, 3277, 0));
}

#[test]
fn viewport_inverse_is_centered_on_the_axis() {
    let cam = Camera {
        origin: v(0, 0, -2),
        direction: v(0, 0, 1),
        fov: Fx::from_raw(FOV_90),
        ratio: Fx::one(),
    };
    let (sx, sy) = cam.get_viewport_by_point(v(0, 0, 1));
    // A point straight ahead projects near the viewport middle; the
    // arc cosine of an on-axis projection is small.
    assert!(sx.raw().abs() < 4000, "sx {}", sx.raw());
    assert!(sy.raw().abs() < 4000, "sy {}", sy.raw());
}
