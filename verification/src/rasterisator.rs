//! Debug wireframe drawing: projecting world segments back through the
//! camera and plotting their pixels.
//!
//! Unlike the cast loops this path writes sparse pixels, so the
//! contracts name the plotted pixel set exactly: the two endpoint
//! pixels and one interpolated pixel per step of the longer screen
//! axis. A pixel that falls outside the buffer is skipped rather than
//! written, where an unchecked index would not stay in the frame.

use vstd::prelude::*;

use crate::aabb::imax;
use crate::camera::{spec_camera_viewport, Camera};
use crate::cpu_buffer::{
    lemma_buf_idx_bound, lemma_buf_idx_injective, spec_buf_idx, spec_buf_wf, CPUBuffer,
};
use crate::curve_triangle::CurveTriangle;
use crate::fx::{iabs, sat, spec_add, spec_div, spec_mul, spec_sub, spec_trunc, Fx, SCALE};
use crate::render::Rect;
use crate::triangle::Triangle;
use crate::vec3::{lemma_vec3_of_view, spec_v3_add, spec_v3_scale, vec3_of, Vec3};

verus! {

/// The pixel column a horizontal viewport offset lands on in a
/// rectangle `rect.width` pixels wide.
pub open spec fn spec_pixel_x(rect: Rect, vx: int) -> int {
    spec_trunc(
        spec_mul(
            spec_mul(spec_add(vx, SCALE as int), 32768),
            sat((rect.width as int) * (SCALE as int)),
        ),
    )
}

/// The pixel row a vertical viewport offset lands on in a rectangle
/// `rect.height` pixels tall.
pub open spec fn spec_pixel_y(rect: Rect, vy: int) -> int {
    spec_trunc(
        spec_mul(
            spec_mul(spec_sub(SCALE as int, vy), 32768),
            sat((rect.height as int) * (SCALE as int)),
        ),
    )
}

/// The world point `t` of the way from `v2` toward `v1`.
pub open spec fn spec_line_point(
    v1: (int, int, int),
    v2: (int, int, int),
    t: int,
) -> (int, int, int) {
    spec_v3_add(spec_v3_scale(v1, t), spec_v3_scale(v2, spec_sub(SCALE as int, t)))
}

/// How many steps the line walk takes: the larger of the two screen
/// axes' pixel distances between the projected endpoints.
pub open spec fn spec_line_steps(
    cam: Camera,
    rect: Rect,
    v1: (int, int, int),
    v2: (int, int, int),
) -> int {
    let fvp = spec_camera_viewport(cam, v1);
    let lvp = spec_camera_viewport(cam, v2);
    imax(
        iabs(spec_pixel_x(rect, fvp.0) - spec_pixel_x(rect, lvp.0)),
        iabs(spec_pixel_y(rect, fvp.1) - spec_pixel_y(rect, lvp.1)),
    )
}

/// The raw in-rectangle pixel the line walk aims at on step `s`: the
/// first endpoint at step 0, the last at the final step, and the
/// projection of the interpolated world point in between.
pub open spec fn spec_line_raw_pixel(
    cam: Camera,
    rect: Rect,
    v1: (int, int, int),
    v2: (int, int, int),
    s: int,
) -> (int, int) {
    let steps = spec_line_steps(cam, rect, v1, v2);
    if s <= 0 {
        let vp = spec_camera_viewport(cam, v1);
        (spec_pixel_x(rect, vp.0), spec_pixel_y(rect, vp.1))
    } else if s >= steps {
        let vp = spec_camera_viewport(cam, v2);
        (spec_pixel_x(rect, vp.0), spec_pixel_y(rect, vp.1))
    } else {
        let t = spec_div(sat(s * SCALE as int), sat(steps * SCALE as int));
        let vp = spec_camera_viewport(cam, spec_line_point(v1, v2, t));
        (spec_pixel_x(rect, vp.0), spec_pixel_y(rect, vp.1))
    }
}

/// The buffer pixel a raw in-rectangle pixel is written to, or `None`
/// when it falls outside the buffer and is skipped.
pub open spec fn spec_plot_target(width: int, height: int, rect: Rect, x: int, y: int) -> Option<
    (int, int),
> {
    if 0 <= x <= 0xffff_ffff && 0 <= y <= 0xffff_ffff && rect.left + x < width && rect.bottom + y
        < height {
        Some((rect.left + x, rect.bottom + y))
    } else {
        None
    }
}

/// The buffer pixel the line walk writes on step `s`, if any.
pub open spec fn spec_line_hit(
    width: int,
    height: int,
    cam: Camera,
    rect: Rect,
    v1: (int, int, int),
    v2: (int, int, int),
    s: int,
) -> Option<(int, int)> {
    let p = spec_line_raw_pixel(cam, rect, v1, v2, s);
    spec_plot_target(width, height, rect, p.0, p.1)
}

/// Writes `color` at `(rect.left + x, rect.bottom + y)` when that
/// pixel lies inside the buffer; out-of-frame pixels are skipped.
fn plot(cpu_buffer: &mut CPUBuffer, rect: &Rect, x: i64, y: i64, color: Vec3)
    requires
        spec_buf_wf(*old(cpu_buffer)),
    ensures
        final(cpu_buffer).width == old(cpu_buffer).width,
        final(cpu_buffer).height == old(cpu_buffer).height,
        spec_buf_wf(*final(cpu_buffer)),
        final(cpu_buffer).data@ == (match spec_plot_target(
            old(cpu_buffer).width as int,
            old(cpu_buffer).height as int,
            *rect,
            x as int,
            y as int,
        ) {
            Some(c) => old(cpu_buffer).data@.update(
                spec_buf_idx(old(cpu_buffer).width as int, c.0, c.1),
                color,
            ),
            None => old(cpu_buffer).data@,
        }),
{
    if x >= 0 && y >= 0 && x <= u32::MAX as i64 && y <= u32::MAX as i64 {
        let px = rect.left as i64 + x;
        let py = rect.bottom as i64 + y;
        if px < cpu_buffer.width as i64 && py < cpu_buffer.height as i64 {
            proof {
                lemma_buf_idx_bound(
                    cpu_buffer.width as int,
                    cpu_buffer.height as int,
                    px as int,
                    py as int,
                );
            }
            cpu_buffer.set(px as u32, py as u32, color);
        }
    }
}

/// Projects the segment from `v1` to `v2` through the camera and
/// plots its pixels into the rectangle, one step per pixel of the
/// longer screen axis: each step's target pixel carries `color`
/// afterwards, and every pixel no step targets keeps its old value.
pub fn draw_line(
    cpu_buffer: &mut CPUBuffer,
    rect: &Rect,
    camera: &Camera,
    color: Vec3,
    v1: Vec3,
    v2: Vec3,
)
    requires
        spec_buf_wf(*old(cpu_buffer)),
        rect.width < 0x8000_0000,
        rect.height < 0x8000_0000,
    ensures
        final(cpu_buffer).width == old(cpu_buffer).width,
        final(cpu_buffer).height == old(cpu_buffer).height,
        spec_buf_wf(*final(cpu_buffer)),
        forall|s: int|
            0 <= s <= spec_line_steps(*camera, *rect, v1@, v2@) ==> (match #[trigger] spec_line_hit(
                old(cpu_buffer).width as int,
                old(cpu_buffer).height as int,
                *camera,
                *rect,
                v1@,
                v2@,
                s,
            ) {
                Some(c) => final(cpu_buffer).data@[spec_buf_idx(
                    old(cpu_buffer).width as int,
                    c.0,
                    c.1,
                )] == color,
                None => true,
            }),
        forall|cx: int, cy: int|
            0 <= cx < old(cpu_buffer).width && 0 <= cy < old(cpu_buffer).height && !(exists|s: int|
                0 <= s <= spec_line_steps(*camera, *rect, v1@, v2@) && #[trigger] spec_line_hit(
                    old(cpu_buffer).width as int,
                    old(cpu_buffer).height as int,
                    *camera,
                    *rect,
                    v1@,
                    v2@,
                    s,
                ) == Some((cx, cy))) ==> final(cpu_buffer).data@[#[trigger] spec_buf_idx(
                old(cpu_buffer).width as int,
                cx,
                cy,
            )] == old(cpu_buffer).data@[spec_buf_idx(old(cpu_buffer).width as int, cx, cy)],
{
    let ghost w = old(cpu_buffer).width as int;
    let ghost h = old(cpu_buffer).height as int;
    let ghost base_data = old(cpu_buffer).data@;

    let one = Fx::one();
    let half = Fx::half();
    let rw = Fx::from_int(rect.width as i32);
    let rh = Fx::from_int(rect.height as i32);

    let first_point = camera.get_viewport_by_point(v1);
    let fbuff_x = first_point.0.add(one).mul(half).mul(rw).trunc();
    let fbuff_y = one.sub(first_point.1).mul(half).mul(rh).trunc();

    let last_point = camera.get_viewport_by_point(v2);
    let lbuff_x = last_point.0.add(one).mul(half).mul(rw).trunc();
    let lbuff_y = one.sub(last_point.1).mul(half).mul(rh).trunc();

    proof {
        assert(fbuff_x as int == spec_pixel_x(*rect, spec_camera_viewport(*camera, v1@).0));
        assert(fbuff_y as int == spec_pixel_y(*rect, spec_camera_viewport(*camera, v1@).1));
        assert(lbuff_x as int == spec_pixel_x(*rect, spec_camera_viewport(*camera, v2@).0));
        assert(lbuff_y as int == spec_pixel_y(*rect, spec_camera_viewport(*camera, v2@).1));
    }

    let dx = if fbuff_x >= lbuff_x {
        fbuff_x - lbuff_x
    } else {
        lbuff_x - fbuff_x
    };
    let dy = if fbuff_y >= lbuff_y {
        fbuff_y - lbuff_y
    } else {
        lbuff_y - fbuff_y
    };
    let steps = if dx >= dy {
        dx
    } else {
        dy
    };
    proof {
        assert(steps as int == spec_line_steps(*camera, *rect, v1@, v2@));
    }

    plot(cpu_buffer, rect, fbuff_x, fbuff_y, color);
    proof {
        lemma_plotted_step(
            base_data,
            cpu_buffer.data@,
            w,
            h,
            *camera,
            *rect,
            v1@,
            v2@,
            0,
            1,
            color,
        );
    }

    let mut step: i64 = 1;
    while step < steps
        invariant
            1 <= step,
            step <= steps || step == 1,
            steps as int == spec_line_steps(*camera, *rect, v1@, v2@),
            0 <= steps < 0x1_0000_0000,
            cpu_buffer.width == old(cpu_buffer).width,
            cpu_buffer.height == old(cpu_buffer).height,
            spec_buf_wf(*cpu_buffer),
            w == cpu_buffer.width as int,
            h == cpu_buffer.height as int,
            base_data.len() == cpu_buffer.data@.len(),
            one@ == SCALE as int,
            half@ == 32768,
            rw@ == sat((rect.width as int) * (SCALE as int)),
            rh@ == sat((rect.height as int) * (SCALE as int)),
            forall|s: int|
                0 <= s < step ==> (match #[trigger] spec_line_hit(
                    w,
                    h,
                    *camera,
                    *rect,
                    v1@,
                    v2@,
                    s,
                ) {
                    Some(c) => cpu_buffer.data@[spec_buf_idx(w, c.0, c.1)] == color,
                    None => true,
                }),
            forall|cx: int, cy: int|
                0 <= cx < w && 0 <= cy < h && !(exists|s: int|
                    0 <= s < step && #[trigger] spec_line_hit(w, h, *camera, *rect, v1@, v2@, s)
                        == Some((cx, cy))) ==> cpu_buffer.data@[#[trigger] spec_buf_idx(w, cx, cy)]
                    == base_data[spec_buf_idx(w, cx, cy)],
        decreases steps - step,
    {
        let t = Fx::from_raw(step * 65536).div(Fx::from_raw(steps * 65536));

        let point = v1.scale(t).add(v2.scale(one.sub(t)));
        let view = camera.get_viewport_by_point(point);
        let buff_x = view.0.add(one).mul(half).mul(rw).trunc();
        let buff_y = one.sub(view.1).mul(half).mul(rh).trunc();

        proof {
            assert((buff_x as int, buff_y as int) == spec_line_raw_pixel(
                *camera,
                *rect,
                v1@,
                v2@,
                step as int,
            ));
        }
        let ghost before = cpu_buffer.data@;
        plot(cpu_buffer, rect, buff_x, buff_y, color);
        proof {
            lemma_plotted_step(
                before,
                cpu_buffer.data@,
                w,
                h,
                *camera,
                *rect,
                v1@,
                v2@,
                step as int,
                step + 1,
                color,
            );
        }
        step = step + 1;
    }

    let ghost before = cpu_buffer.data@;
    plot(cpu_buffer, rect, lbuff_x, lbuff_y, color);
    proof {
        assert((lbuff_x as int, lbuff_y as int) == spec_line_raw_pixel(
            *camera,
            *rect,
            v1@,
            v2@,
            steps as int,
        ));
        lemma_plotted_step(
            before,
            cpu_buffer.data@,
            w,
            h,
            *camera,
            *rect,
            v1@,
            v2@,
            steps as int,
            steps + 1,
            color,
        );
    }
}

/// Carries the line walk's two pixel invariants over one plot: the
/// data went from `before` to `after` by writing `color` at step `s`'s
/// target (or not at all), so steps below `s` stay coloured and pixels
/// no step below `s + 1` targets stay at their base value.
proof fn lemma_plotted_step(
    before: Seq<Vec3>,
    after: Seq<Vec3>,
    w: int,
    h: int,
    cam: Camera,
    rect: Rect,
    v1: (int, int, int),
    v2: (int, int, int),
    s: int,
    s_next: int,
    color: Vec3,
)
    requires
        s_next == s + 1,
        w * h == before.len(),
        after == (match spec_line_hit(w, h, cam, rect, v1, v2, s) {
            Some(c) => before.update(spec_buf_idx(w, c.0, c.1), color),
            None => before,
        }),
    ensures
        forall|cx: int, cy: int|
            0 <= cx < w && 0 <= cy < h && !(spec_line_hit(w, h, cam, rect, v1, v2, s) == Some(
                (cx, cy),
            )) ==> after[#[trigger] spec_buf_idx(w, cx, cy)] == before[spec_buf_idx(w, cx, cy)],
        forall|cx: int, cy: int|
            0 <= cx < w && 0 <= cy < h && spec_line_hit(w, h, cam, rect, v1, v2, s) == Some(
                (cx, cy),
            ) ==> after[#[trigger] spec_buf_idx(w, cx, cy)] == color,
{
    match spec_line_hit(w, h, cam, rect, v1, v2, s) {
        Some(c) => {
            lemma_buf_idx_bound(w, h, c.0, c.1);
            assert forall|cx: int, cy: int|
                0 <= cx < w && 0 <= cy < h && !((cx, cy) == c) implies after[
                #[trigger] spec_buf_idx(w, cx, cy)] == before[spec_buf_idx(w, cx, cy)] by {
                lemma_buf_idx_bound(w, h, cx, cy);
                if spec_buf_idx(w, cx, cy) == spec_buf_idx(w, c.0, c.1) {
                    lemma_buf_idx_injective(w, cx, cy, c.0, c.1);
                }
            }
        },
        None => {},
    }
}

/// Draws a triangle's first edge as a wireframe line: each step's
/// target pixel carries `color` afterwards, and every pixel no step
/// targets keeps its old value.
pub fn draw_triangle(
    cpu_buffer: &mut CPUBuffer,
    rect: &Rect,
    camera: &Camera,
    color: Vec3,
    triangle: &Triangle,
)
    requires
        spec_buf_wf(*old(cpu_buffer)),
        rect.width < 0x8000_0000,
        rect.height < 0x8000_0000,
    ensures
        final(cpu_buffer).width == old(cpu_buffer).width,
        final(cpu_buffer).height == old(cpu_buffer).height,
        spec_buf_wf(*final(cpu_buffer)),
        forall|s: int|
            0 <= s <= spec_line_steps(*camera, *rect, triangle.vertexes[0]@, triangle.vertexes[1]@)
                ==> (match #[trigger] spec_line_hit(
                old(cpu_buffer).width as int,
                old(cpu_buffer).height as int,
                *camera,
                *rect,
                triangle.vertexes[0]@,
                triangle.vertexes[1]@,
                s,
            ) {
                Some(c) => final(cpu_buffer).data@[spec_buf_idx(
                    old(cpu_buffer).width as int,
                    c.0,
                    c.1,
                )] == color,
                None => true,
            }),
        forall|cx: int, cy: int|
            0 <= cx < old(cpu_buffer).width && 0 <= cy < old(cpu_buffer).height && !(exists|s: int|
                0 <= s <= spec_line_steps(
                    *camera,
                    *rect,
                    triangle.vertexes[0]@,
                    triangle.vertexes[1]@,
                ) && #[trigger] spec_line_hit(
                    old(cpu_buffer).width as int,
                    old(cpu_buffer).height as int,
                    *camera,
                    *rect,
                    triangle.vertexes[0]@,
                    triangle.vertexes[1]@,
                    s,
                ) == Some((cx, cy))) ==> final(cpu_buffer).data@[#[trigger] spec_buf_idx(
                old(cpu_buffer).width as int,
                cx,
                cy,
            )] == old(cpu_buffer).data@[spec_buf_idx(old(cpu_buffer).width as int, cx, cy)],
{
    draw_line(cpu_buffer, rect, camera, color, triangle.vertexes[0], triangle.vertexes[1]);
}

/// Draws a patch's base triangle as a blue wireframe: the line's
/// target pixels carry the blue marker colour afterwards, and every
/// other pixel keeps its old value.
pub fn draw_rect_for_triangles(
    cpu_buffer: &mut CPUBuffer,
    rect: &Rect,
    shape: &CurveTriangle,
    camera: &Camera,
)
    requires
        spec_buf_wf(*old(cpu_buffer)),
        rect.width < 0x8000_0000,
        rect.height < 0x8000_0000,
    ensures
        final(cpu_buffer).width == old(cpu_buffer).width,
        final(cpu_buffer).height == old(cpu_buffer).height,
        spec_buf_wf(*final(cpu_buffer)),
        forall|s: int|
            0 <= s <= spec_line_steps(
                *camera,
                *rect,
                shape.base.vertexes[0]@,
                shape.base.vertexes[1]@,
            ) ==> (match #[trigger] spec_line_hit(
                old(cpu_buffer).width as int,
                old(cpu_buffer).height as int,
                *camera,
                *rect,
                shape.base.vertexes[0]@,
                shape.base.vertexes[1]@,
                s,
            ) {
                Some(c) => final(cpu_buffer).data@[spec_buf_idx(
                    old(cpu_buffer).width as int,
                    c.0,
                    c.1,
                )] == vec3_of((0int, 0int, SCALE as int)),
                None => true,
            }),
        forall|cx: int, cy: int|
            0 <= cx < old(cpu_buffer).width && 0 <= cy < old(cpu_buffer).height && !(exists|s: int|
                0 <= s <= spec_line_steps(
                    *camera,
                    *rect,
                    shape.base.vertexes[0]@,
                    shape.base.vertexes[1]@,
                ) && #[trigger] spec_line_hit(
                    old(cpu_buffer).width as int,
                    old(cpu_buffer).height as int,
                    *camera,
                    *rect,
                    shape.base.vertexes[0]@,
                    shape.base.vertexes[1]@,
                    s,
                ) == Some((cx, cy))) ==> final(cpu_buffer).data@[#[trigger] spec_buf_idx(
                old(cpu_buffer).width as int,
                cx,
                cy,
            )] == old(cpu_buffer).data@[spec_buf_idx(old(cpu_buffer).width as int, cx, cy)],
{
    let blue = Vec3::new(Fx::zero(), Fx::zero(), Fx::one());
    proof {
        lemma_vec3_of_view(blue);
    }
    draw_triangle(cpu_buffer, rect, camera, blue, &shape.base);
}

} // verus!
