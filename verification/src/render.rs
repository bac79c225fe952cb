//! Per-pixel ray casting into a colour buffer.
//!
//! Two paths render the same scene: one casts against the patches'
//! flat triangulations, one against the true curved surfaces. Both
//! write the nearest hit's position, encoded as a colour, and a
//! distinct background sentinel on a miss.

use vstd::prelude::*;

use crate::camera::{spec_camera_ray_dir, Camera};
use crate::cpu_buffer::{
    lemma_buf_idx_bound, lemma_buf_idx_injective, spec_buf_idx, spec_buf_wf, CPUBuffer,
};
use crate::curve_triangle::{spec_curve_intersect, spec_koefs_pos, CurveTriangle};
use crate::fx::{sat, spec_div, spec_sub, Fx, LIM_RAW, SCALE};
use crate::ray::{lemma_ray_of_views, ray_of, spec_ray_point, Ray};
use crate::triangle::{spec_tri_intersect, Triangle};
use crate::vec3::{lemma_vec3_of_view, spec_v3_add, spec_v3_scale, vec3_of, Vec3};

verus! {

/// A rectangle of pixels inside a buffer.
#[derive(Clone, Copy)]
pub struct Rect {
    pub left: u32,
    pub bottom: u32,
    pub width: u32,
    pub height: u32,
}

/// The horizontal viewport offset of pixel column `x` in a rectangle
/// `rw` pixels wide: `2 x / rw - 1`.
pub open spec fn spec_view_x(rw: int, x: int) -> int {
    spec_sub(spec_div(sat(2 * x * SCALE as int), sat(rw * SCALE as int)), SCALE as int)
}

/// The vertical viewport offset of pixel row `y` in a rectangle `rh`
/// pixels tall: `1 - 2 y / rh`.
pub open spec fn spec_view_y(rh: int, y: int) -> int {
    spec_sub(SCALE as int, spec_div(sat(2 * y * SCALE as int), sat(rh * SCALE as int)))
}

/// A hit point encoded as a colour: each coordinate mapped from
/// `[-1, 1]` into `[0, 1]`.
pub open spec fn spec_encode_color(p: (int, int, int)) -> (int, int, int) {
    spec_v3_scale(spec_v3_add(p, (SCALE as int, SCALE as int, SCALE as int)), 32768)
}

/// The smallest parameter of an inside hit among the first `n`
/// triangles; the representable maximum when none is smaller.
pub open spec fn spec_nearest_tri(tris: Seq<Triangle>, ray: Ray, n: int) -> int
    decreases n,
{
    if n <= 0 {
        LIM_RAW as int
    } else {
        let prev = spec_nearest_tri(tris, ray, n - 1);
        match spec_tri_intersect(tris[n - 1], ray) {
            Ok((t, _b)) => if t < prev {
                t
            } else {
                prev
            },
            Err(_b) => prev,
        }
    }
}

/// The colour of a ray cast against a triangle soup: the encoded
/// nearest hit point, or the green-tinted background sentinel.
pub open spec fn spec_cast_tri(tris: Seq<Triangle>, ray: Ray) -> (int, int, int) {
    let nt = spec_nearest_tri(tris, ray, tris.len() as int);
    if nt < LIM_RAW as int {
        spec_encode_color(spec_ray_point(ray, nt))
    } else {
        (0, 3277, 0)
    }
}

/// Whether every patch of a scene carries its bounding shell and
/// positive curvature exponents; construction guarantees both.
pub open spec fn spec_scene_wf(shape: Seq<CurveTriangle>) -> bool {
    forall|i: int|
        0 <= i < shape.len() ==> (#[trigger] shape[i]).tr_shell is Some && spec_koefs_pos(shape[i])
}

/// The smallest parameter of a successful patch intersection among the
/// first `n` patches; the representable maximum when none is smaller.
pub open spec fn spec_nearest_curve(shape: Seq<CurveTriangle>, ray: Ray, n: int) -> int
    decreases n,
{
    if n <= 0 {
        LIM_RAW as int
    } else {
        let prev = spec_nearest_curve(shape, ray, n - 1);
        match spec_curve_intersect(shape[n - 1], ray) {
            Ok((t, _b)) => if t < prev {
                t
            } else {
                prev
            },
            Err(_e) => prev,
        }
    }
}

/// The colour of a ray cast against the curved patches: the encoded
/// nearest hit point, or the blue-tinted background sentinel.
pub open spec fn spec_cast_curve(shape: Seq<CurveTriangle>, ray: Ray) -> (int, int, int) {
    let nt = spec_nearest_curve(shape, ray, shape.len() as int);
    if nt < LIM_RAW as int {
        spec_encode_color(spec_ray_point(ray, nt))
    } else {
        (0, 0, 3277)
    }
}

/// The flat triangulations of all patches, in order, as one soup.
pub open spec fn spec_concat_triangulations(shape: Seq<CurveTriangle>, n: int) -> Seq<Triangle>
    decreases n,
{
    if n <= 0 {
        Seq::empty()
    } else {
        spec_concat_triangulations(shape, n - 1) + shape[n - 1].triangulation@
    }
}

/// The ray the camera casts through pixel `(px, py)` of a rectangle.
pub open spec fn spec_pixel_ray(cam: Camera, rect: Rect, px: int, py: int) -> Ray {
    ray_of(
        cam.origin@,
        spec_camera_ray_dir(
            cam,
            spec_view_x(rect.width as int, px),
            spec_view_y(rect.height as int, py),
        ),
    )
}

/// The colour the triangulation path writes at pixel `(px, py)`.
pub open spec fn spec_tri_pixel(
    shape: Seq<CurveTriangle>,
    cam: Camera,
    rect: Rect,
    px: int,
    py: int,
) -> Vec3 {
    vec3_of(
        spec_cast_tri(
            spec_concat_triangulations(shape, shape.len() as int),
            spec_pixel_ray(cam, rect, px, py),
        ),
    )
}

/// The colour the curved-surface path writes at pixel `(px, py)`.
pub open spec fn spec_curve_pixel(
    shape: Seq<CurveTriangle>,
    cam: Camera,
    rect: Rect,
    px: int,
    py: int,
) -> Vec3 {
    vec3_of(spec_cast_curve(shape, spec_pixel_ray(cam, rect, px, py)))
}

/// Casts one ray against a triangle soup and returns its colour.
pub fn cast_ray_triangles(x: Fx, y: Fx, camera: &Camera, triangulation: &Vec<Triangle>) -> (r:
    Vec3)
    ensures
        r@ == spec_cast_tri(
            triangulation@,
            ray_of(camera.origin@, spec_camera_ray_dir(*camera, x@, y@)),
        ),
{
    let ray = camera.get_ray_in_viewport(x, y);
    proof {
        lemma_ray_of_views(ray);
    }
    let ghost rayv = ray;

    let mut nearest_t = Fx::from_raw(LIM_RAW);
    let mut i: usize = 0;
    while i < triangulation.len()
        invariant
            i <= triangulation.len(),
            nearest_t@ == spec_nearest_tri(triangulation@, rayv, i as int),
            rayv == ray,
        decreases triangulation.len() - i,
    {
        match triangulation[i].intersect(&ray) {
            Ok((t, _b)) => {
                if t.lt(nearest_t) {
                    nearest_t = t;
                }
            },
            Err(_b) => {},
        }
        i = i + 1;
    }

    if nearest_t.lt(Fx::from_raw(LIM_RAW)) {
        let point = ray.get_point(nearest_t);
        let one = Fx::one();
        point.add(Vec3::new(one, one, one)).scale(Fx::half())
    } else {
        Vec3::new(Fx::zero(), Fx::from_raw(3277), Fx::zero())
    }
}

/// Casts one ray against the curved patches and returns its colour.
pub fn cast_ray_curve(x: Fx, y: Fx, camera: &Camera, shape: &Vec<CurveTriangle>) -> (r: Vec3)
    requires
        spec_scene_wf(shape@),
    ensures
        r@ == spec_cast_curve(
            shape@,
            ray_of(camera.origin@, spec_camera_ray_dir(*camera, x@, y@)),
        ),
{
    let ray = camera.get_ray_in_viewport(x, y);
    proof {
        lemma_ray_of_views(ray);
    }
    let ghost rayv = ray;

    let mut nearest_t = Fx::from_raw(LIM_RAW);
    let mut i: usize = 0;
    while i < shape.len()
        invariant
            i <= shape.len(),
            spec_scene_wf(shape@),
            nearest_t@ == spec_nearest_curve(shape@, rayv, i as int),
            rayv == ray,
        decreases shape.len() - i,
    {
        match shape[i].intersect(&ray) {
            Ok((t, _b)) => {
                if t.lt(nearest_t) {
                    nearest_t = t;
                }
            },
            Err(_e) => {},
        }
        i = i + 1;
    }

    if nearest_t.lt(Fx::from_raw(LIM_RAW)) {
        let point = ray.get_point(nearest_t);
        let one = Fx::one();
        point.add(Vec3::new(one, one, one)).scale(Fx::half())
    } else {
        Vec3::new(Fx::zero(), Fx::zero(), Fx::from_raw(3277))
    }
}

/// Fills a rectangle of the buffer by casting one ray per pixel
/// against the patches' flat triangulations; pixels outside the
/// rectangle are untouched.
pub fn draw_rect_for_triangulation(
    cpu_buffer: &mut CPUBuffer,
    rect: &Rect,
    shape: &Vec<CurveTriangle>,
    camera: &Camera,
)
    requires
        spec_buf_wf(*old(cpu_buffer)),
        rect.left + rect.width <= old(cpu_buffer).width,
        rect.bottom + rect.height <= old(cpu_buffer).height,
    ensures
        final(cpu_buffer).width == old(cpu_buffer).width,
        final(cpu_buffer).height == old(cpu_buffer).height,
        spec_buf_wf(*final(cpu_buffer)),
        forall|px: int, py: int|
            0 <= px < rect.width && 0 <= py < rect.height ==> final(cpu_buffer).data@[spec_buf_idx(
                old(cpu_buffer).width as int,
                rect.left + px,
                rect.bottom + py,
            )] == spec_tri_pixel(shape@, *camera, *rect, px, py),
        forall|cx: int, cy: int|
            0 <= cx < old(cpu_buffer).width && 0 <= cy < old(cpu_buffer).height && !(rect.left
                <= cx < rect.left + rect.width && rect.bottom <= cy < rect.bottom + rect.height)
                ==> final(cpu_buffer).data@[spec_buf_idx(old(cpu_buffer).width as int, cx, cy)]
                == old(cpu_buffer).data@[spec_buf_idx(old(cpu_buffer).width as int, cx, cy)],
{
    let mut full_triangulations: Vec<Triangle> = Vec::new();
    let mut k: usize = 0;
    while k < shape.len()
        invariant
            k <= shape.len(),
            full_triangulations@ == spec_concat_triangulations(shape@, k as int),
        decreases shape.len() - k,
    {
        let mut m: usize = 0;
        let part_len = shape[k].triangulation.len();
        while m < part_len
            invariant
                k < shape.len(),
                m <= part_len,
                part_len == shape@[k as int].triangulation@.len(),
                full_triangulations@ == spec_concat_triangulations(shape@, k as int) + shape@[
                    k as int
                ].triangulation@.subrange(0, m as int),
            decreases part_len - m,
        {
            full_triangulations.push(shape[k].triangulation[m]);
            proof {
                assert(shape@[k as int].triangulation@.subrange(0, m + 1)
                    == shape@[k as int].triangulation@.subrange(0, m as int).push(
                    shape@[k as int].triangulation@[m as int],
                ));
            }
            m = m + 1;
        }
        proof {
            assert(shape@[k as int].triangulation@.subrange(
                0,
                shape@[k as int].triangulation@.len() as int,
            ) == shape@[k as int].triangulation@);
        }
        k = k + 1;
    }

    fill_rect_triangles(cpu_buffer, rect, shape, camera, &full_triangulations);
}

/// The inner pixel loops of the triangulation path, over a prebuilt
/// triangle soup.
fn fill_rect_triangles(
    cpu_buffer: &mut CPUBuffer,
    rect: &Rect,
    shape: &Vec<CurveTriangle>,
    camera: &Camera,
    soup: &Vec<Triangle>,
)
    requires
        spec_buf_wf(*old(cpu_buffer)),
        rect.left + rect.width <= old(cpu_buffer).width,
        rect.bottom + rect.height <= old(cpu_buffer).height,
        soup@ == spec_concat_triangulations(shape@, shape@.len() as int),
    ensures
        final(cpu_buffer).width == old(cpu_buffer).width,
        final(cpu_buffer).height == old(cpu_buffer).height,
        spec_buf_wf(*final(cpu_buffer)),
        forall|px: int, py: int|
            0 <= px < rect.width && 0 <= py < rect.height ==> final(cpu_buffer).data@[spec_buf_idx(
                old(cpu_buffer).width as int,
                rect.left + px,
                rect.bottom + py,
            )] == spec_tri_pixel(shape@, *camera, *rect, px, py),
        forall|cx: int, cy: int|
            0 <= cx < old(cpu_buffer).width && 0 <= cy < old(cpu_buffer).height && !(rect.left
                <= cx < rect.left + rect.width && rect.bottom <= cy < rect.bottom + rect.height)
                ==> final(cpu_buffer).data@[spec_buf_idx(old(cpu_buffer).width as int, cx, cy)]
                == old(cpu_buffer).data@[spec_buf_idx(old(cpu_buffer).width as int, cx, cy)],
{
    let ghost w = old(cpu_buffer).width as int;
    let ghost old_data = old(cpu_buffer).data@;
    let mut x: u32 = 0;
    while x < rect.width
        invariant
            x <= rect.width,
            cpu_buffer.width == old(cpu_buffer).width,
            cpu_buffer.height == old(cpu_buffer).height,
            spec_buf_wf(*cpu_buffer),
            rect.left + rect.width <= cpu_buffer.width,
            rect.bottom + rect.height <= cpu_buffer.height,
            w == cpu_buffer.width as int,
            old_data.len() == cpu_buffer.data@.len(),
            soup@ == spec_concat_triangulations(shape@, shape@.len() as int),
            forall|px: int, py: int|
                0 <= px < x && 0 <= py < rect.height ==> cpu_buffer.data@[spec_buf_idx(
                    w,
                    rect.left + px,
                    rect.bottom + py,
                )] == spec_tri_pixel(shape@, *camera, *rect, px, py),
            forall|cx: int, cy: int|
                0 <= cx < cpu_buffer.width && 0 <= cy < cpu_buffer.height && !(rect.left <= cx
                    < rect.left + x && rect.bottom <= cy < rect.bottom + rect.height)
                    ==> cpu_buffer.data@[spec_buf_idx(w, cx, cy)] == old_data[spec_buf_idx(
                    w,
                    cx,
                    cy,
                )],
        decreases rect.width - x,
    {
        let view_x = Fx::from_raw(2 * (x as i64) * SCALE).div(
            Fx::from_raw((rect.width as i64) * SCALE),
        ).sub(Fx::one());
        let mut y: u32 = 0;
        while y < rect.height
            invariant
                x < rect.width,
                y <= rect.height,
                cpu_buffer.width == old(cpu_buffer).width,
                cpu_buffer.height == old(cpu_buffer).height,
                spec_buf_wf(*cpu_buffer),
                rect.left + rect.width <= cpu_buffer.width,
                rect.bottom + rect.height <= cpu_buffer.height,
                w == cpu_buffer.width as int,
                old_data.len() == cpu_buffer.data@.len(),
                soup@ == spec_concat_triangulations(shape@, shape@.len() as int),
                view_x@ == spec_view_x(rect.width as int, x as int),
                forall|px: int, py: int|
                    0 <= px < x && 0 <= py < rect.height ==> cpu_buffer.data@[spec_buf_idx(
                        w,
                        rect.left + px,
                        rect.bottom + py,
                    )] == spec_tri_pixel(shape@, *camera, *rect, px, py),
                forall|py: int|
                    0 <= py < y ==> cpu_buffer.data@[spec_buf_idx(
                        w,
                        rect.left + x,
                        rect.bottom + py,
                    )] == spec_tri_pixel(shape@, *camera, *rect, x as int, py),
                forall|cx: int, cy: int|
                    0 <= cx < cpu_buffer.width && 0 <= cy < cpu_buffer.height && !(rect.left <= cx
                        < rect.left + x && rect.bottom <= cy < rect.bottom + rect.height) && !(cx
                        == rect.left + x && rect.bottom <= cy < rect.bottom + y)
                        ==> cpu_buffer.data@[spec_buf_idx(w, cx, cy)] == old_data[spec_buf_idx(
                        w,
                        cx,
                        cy,
                    )],
            decreases rect.height - y,
        {
            let view_y = Fx::one().sub(
                Fx::from_raw(2 * (y as i64) * SCALE).div(
                    Fx::from_raw((rect.height as i64) * SCALE),
                ),
            );
            let color = cast_ray_triangles(view_x, view_y, camera, soup);
            proof {
                lemma_vec3_of_view(color);
            }
            cpu_buffer.set(rect.left + x, rect.bottom + y, color);
            proof {
                let cxw = rect.left + x as int;
                let cyw = rect.bottom + y as int;
                lemma_buf_idx_bound(w, cpu_buffer.height as int, cxw, cyw);
                assert(color == spec_tri_pixel(shape@, *camera, *rect, x as int, y as int));
                assert forall|px: int, py: int|
                    0 <= px < x && 0 <= py < rect.height implies cpu_buffer.data@[#[trigger] spec_buf_idx(
                    w,
                    rect.left + px,
                    rect.bottom + py,
                )] == spec_tri_pixel(shape@, *camera, *rect, px, py) by {
                    lemma_buf_idx_bound(w, cpu_buffer.height as int, rect.left + px, rect.bottom + py);
                    if spec_buf_idx(w, rect.left + px, rect.bottom + py) == spec_buf_idx(
                        w,
                        cxw,
                        cyw,
                    ) {
                        lemma_buf_idx_injective(w, rect.left + px, rect.bottom + py, cxw, cyw);
                    }
                }
                assert forall|py: int| 0 <= py < y implies cpu_buffer.data@[#[trigger] spec_buf_idx(
                    w,
                    cxw,
                    rect.bottom + py,
                )] == spec_tri_pixel(shape@, *camera, *rect, x as int, py) by {
                    lemma_buf_idx_bound(w, cpu_buffer.height as int, cxw, rect.bottom + py);
                    if spec_buf_idx(w, cxw, rect.bottom + py) == spec_buf_idx(w, cxw, cyw) {
                        lemma_buf_idx_injective(w, cxw, rect.bottom + py, cxw, cyw);
                    }
                }
                assert forall|cx: int, cy: int|
                    0 <= cx < cpu_buffer.width && 0 <= cy < cpu_buffer.height && !(rect.left <= cx
                        < rect.left + x && rect.bottom <= cy < rect.bottom + rect.height) && !(cx
                        == rect.left + x as int && rect.bottom <= cy < rect.bottom + y + 1)
                        implies cpu_buffer.data@[#[trigger] spec_buf_idx(w, cx, cy)] == old_data[
                    spec_buf_idx(w, cx, cy)] by {
                    lemma_buf_idx_bound(w, cpu_buffer.height as int, cx, cy);
                    if spec_buf_idx(w, cx, cy) == spec_buf_idx(w, cxw, cyw) {
                        lemma_buf_idx_injective(w, cx, cy, cxw, cyw);
                    }
                }
            }
            y = y + 1;
        }
        x = x + 1;
    }
}

/// Fills a rectangle of the buffer by casting one ray per pixel
/// against the true curved surfaces; pixels outside the rectangle are
/// untouched.
pub fn draw_rect_for_curve_surface(
    cpu_buffer: &mut CPUBuffer,
    rect: &Rect,
    shape: &Vec<CurveTriangle>,
    camera: &Camera,
)
    requires
        spec_buf_wf(*old(cpu_buffer)),
        spec_scene_wf(shape@),
        rect.left + rect.width <= old(cpu_buffer).width,
        rect.bottom + rect.height <= old(cpu_buffer).height,
    ensures
        final(cpu_buffer).width == old(cpu_buffer).width,
        final(cpu_buffer).height == old(cpu_buffer).height,
        spec_buf_wf(*final(cpu_buffer)),
        forall|px: int, py: int|
            0 <= px < rect.width && 0 <= py < rect.height ==> final(cpu_buffer).data@[spec_buf_idx(
                old(cpu_buffer).width as int,
                rect.left + px,
                rect.bottom + py,
            )] == spec_curve_pixel(shape@, *camera, *rect, px, py),
        forall|cx: int, cy: int|
            0 <= cx < old(cpu_buffer).width && 0 <= cy < old(cpu_buffer).height && !(rect.left
                <= cx < rect.left + rect.width && rect.bottom <= cy < rect.bottom + rect.height)
                ==> final(cpu_buffer).data@[spec_buf_idx(old(cpu_buffer).width as int, cx, cy)]
                == old(cpu_buffer).data@[spec_buf_idx(old(cpu_buffer).width as int, cx, cy)],
{
    let ghost w = old(cpu_buffer).width as int;
    let ghost old_data = old(cpu_buffer).data@;
    let mut x: u32 = 0;
    while x < rect.width
        invariant
            x <= rect.width,
            cpu_buffer.width == old(cpu_buffer).width,
            cpu_buffer.height == old(cpu_buffer).height,
            spec_buf_wf(*cpu_buffer),
            spec_scene_wf(shape@),
            rect.left + rect.width <= cpu_buffer.width,
            rect.bottom + rect.height <= cpu_buffer.height,
            w == cpu_buffer.width as int,
            old_data.len() == cpu_buffer.data@.len(),
            forall|px: int, py: int|
                0 <= px < x && 0 <= py < rect.height ==> cpu_buffer.data@[spec_buf_idx(
                    w,
                    rect.left + px,
                    rect.bottom + py,
                )] == spec_curve_pixel(shape@, *camera, *rect, px, py),
            forall|cx: int, cy: int|
                0 <= cx < cpu_buffer.width && 0 <= cy < cpu_buffer.height && !(rect.left <= cx
                    < rect.left + x && rect.bottom <= cy < rect.bottom + rect.height)
                    ==> cpu_buffer.data@[spec_buf_idx(w, cx, cy)] == old_data[spec_buf_idx(
                    w,
                    cx,
                    cy,
                )],
        decreases rect.width - x,
    {
        let view_x = Fx::from_raw(2 * (x as i64) * SCALE).div(
            Fx::from_raw((rect.width as i64) * SCALE),
        ).sub(Fx::one());
        let mut y: u32 = 0;
        while y < rect.height
            invariant
                x < rect.width,
                y <= rect.height,
                cpu_buffer.width == old(cpu_buffer).width,
                cpu_buffer.height == old(cpu_buffer).height,
                spec_buf_wf(*cpu_buffer),
                spec_scene_wf(shape@),
                rect.left + rect.width <= cpu_buffer.width,
                rect.bottom + rect.height <= cpu_buffer.height,
                w == cpu_buffer.width as int,
                old_data.len() == cpu_buffer.data@.len(),
                view_x@ == spec_view_x(rect.width as int, x as int),
                forall|px: int, py: int|
                    0 <= px < x && 0 <= py < rect.height ==> cpu_buffer.data@[spec_buf_idx(
                        w,
                        rect.left + px,
                        rect.bottom + py,
                    )] == spec_curve_pixel(shape@, *camera, *rect, px, py),
                forall|py: int|
                    0 <= py < y ==> cpu_buffer.data@[spec_buf_idx(
                        w,
                        rect.left + x,
                        rect.bottom + py,
                    )] == spec_curve_pixel(shape@, *camera, *rect, x as int, py),
                forall|cx: int, cy: int|
                    0 <= cx < cpu_buffer.width && 0 <= cy < cpu_buffer.height && !(rect.left <= cx
                        < rect.left + x && rect.bottom <= cy < rect.bottom + rect.height) && !(cx
                        == rect.left + x && rect.bottom <= cy < rect.bottom + y)
                        ==> cpu_buffer.data@[spec_buf_idx(w, cx, cy)] == old_data[spec_buf_idx(
                        w,
                        cx,
                        cy,
                    )],
            decreases rect.height - y,
        {
            let view_y = Fx::one().sub(
                Fx::from_raw(2 * (y as i64) * SCALE).div(
                    Fx::from_raw((rect.height as i64) * SCALE),
                ),
            );
            let color = cast_ray_curve(view_x, view_y, camera, shape);
            proof {
                lemma_vec3_of_view(color);
            }
            cpu_buffer.set(rect.left + x, rect.bottom + y, color);
            proof {
                let cxw = rect.left + x as int;
                let cyw = rect.bottom + y as int;
                lemma_buf_idx_bound(w, cpu_buffer.height as int, cxw, cyw);
                assert(color == spec_curve_pixel(shape@, *camera, *rect, x as int, y as int));
                assert forall|px: int, py: int|
                    0 <= px < x && 0 <= py < rect.height implies cpu_buffer.data@[#[trigger] spec_buf_idx(
                    w,
                    rect.left + px,
                    rect.bottom + py,
                )] == spec_curve_pixel(shape@, *camera, *rect, px, py) by {
                    lemma_buf_idx_bound(w, cpu_buffer.height as int, rect.left + px, rect.bottom + py);
                    if spec_buf_idx(w, rect.left + px, rect.bottom + py) == spec_buf_idx(
                        w,
                        cxw,
                        cyw,
                    ) {
                        lemma_buf_idx_injective(w, rect.left + px, rect.bottom + py, cxw, cyw);
                    }
                }
                assert forall|py: int| 0 <= py < y implies cpu_buffer.data@[#[trigger] spec_buf_idx(
                    w,
                    cxw,
                    rect.bottom + py,
                )] == spec_curve_pixel(shape@, *camera, *rect, x as int, py) by {
                    lemma_buf_idx_bound(w, cpu_buffer.height as int, cxw, rect.bottom + py);
                    if spec_buf_idx(w, cxw, rect.bottom + py) == spec_buf_idx(w, cxw, cyw) {
                        lemma_buf_idx_injective(w, cxw, rect.bottom + py, cxw, cyw);
                    }
                }
                assert forall|cx: int, cy: int|
                    0 <= cx < cpu_buffer.width && 0 <= cy < cpu_buffer.height && !(rect.left <= cx
                        < rect.left + x && rect.bottom <= cy < rect.bottom + rect.height) && !(cx
                        == rect.left + x as int && rect.bottom <= cy < rect.bottom + y + 1)
                        implies cpu_buffer.data@[#[trigger] spec_buf_idx(w, cx, cy)] == old_data[
                    spec_buf_idx(w, cx, cy)] by {
                    lemma_buf_idx_bound(w, cpu_buffer.height as int, cx, cy);
                    if spec_buf_idx(w, cx, cy) == spec_buf_idx(w, cxw, cyw) {
                        lemma_buf_idx_injective(w, cx, cy, cxw, cyw);
                    }
                }
            }
            y = y + 1;
        }
        x = x + 1;
    }
}

/// Renders the scene into the buffer: the left half by casting
/// against the patches' flat triangulations, the right half against
/// the true curved surfaces; any odd middle column is untouched.
pub fn draw_to(cpu_buffer: &mut CPUBuffer, camera: &Camera, shape: &Vec<CurveTriangle>)
    requires
        spec_buf_wf(*old(cpu_buffer)),
        spec_scene_wf(shape@),
    ensures
        final(cpu_buffer).width == old(cpu_buffer).width,
        final(cpu_buffer).height == old(cpu_buffer).height,
        spec_buf_wf(*final(cpu_buffer)),
        forall|px: int, py: int|
            0 <= px < old(cpu_buffer).width / 2 && 0 <= py < old(cpu_buffer).height ==> final(cpu_buffer).data@[#[trigger] spec_buf_idx(old(cpu_buffer).width as int, px, py)] == spec_tri_pixel(
                shape@,
                *camera,
                (Rect {
                    left: 0,
                    bottom: 0,
                    width: old(cpu_buffer).width / 2,
                    height: old(cpu_buffer).height,
                }),
                px,
                py,
            ),
        forall|px: int, py: int|
            0 <= px < old(cpu_buffer).width / 2 && 0 <= py < old(cpu_buffer).height ==> final(cpu_buffer).data@[#[trigger] spec_buf_idx(
                old(cpu_buffer).width as int,
                old(cpu_buffer).width / 2 + px,
                py,
            )] == spec_curve_pixel(
                shape@,
                *camera,
                (Rect {
                    left: old(cpu_buffer).width / 2,
                    bottom: 0,
                    width: old(cpu_buffer).width / 2,
                    height: old(cpu_buffer).height,
                }),
                px,
                py,
            ),
        forall|cx: int, cy: int|
            0 <= cx < old(cpu_buffer).width && 0 <= cy < old(cpu_buffer).height && cx >= 2 * (old(
                cpu_buffer,
            ).width / 2) ==> final(cpu_buffer).data@[#[trigger] spec_buf_idx(
                old(cpu_buffer).width as int,
                cx,
                cy,
            )] == old(cpu_buffer).data@[spec_buf_idx(old(cpu_buffer).width as int, cx, cy)],
{
    let half_w = cpu_buffer.width / 2;
    let first_half = Rect { left: 0, bottom: 0, width: half_w, height: cpu_buffer.height };
    let second_half = Rect {
        left: half_w,
        bottom: 0,
        width: half_w,
        height: cpu_buffer.height,
    };
    draw_rect_for_triangulation(cpu_buffer, &first_half, shape, camera);
    draw_rect_for_curve_surface(cpu_buffer, &second_half, shape, camera);
}

} // verus!
