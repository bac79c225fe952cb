//! The camera: viewport offsets to rays, by quaternion rotation of the
//! forward direction, and the inverse mapping from a world point back
//! to viewport offsets.

use vstd::prelude::*;

use crate::fx::{spec_acos, spec_cos, spec_div, spec_mul, spec_sin, spec_sub, Fx};
use crate::vec3::spec_v3_inv;
use crate::ray::Ray;
use crate::vec3::{
    spec_v3_add, spec_v3_cross, spec_v3_dot, spec_v3_normalize, spec_v3_scale, spec_v3_sub, Vec3,
};

verus! {

#[derive(Clone, Copy)]
pub struct Camera {
    pub origin: Vec3,
    pub direction: Vec3,
    /// Field of view for the vertical angle.
    pub fov: Fx,
    pub ratio: Fx,
}

/// A quaternion as a scalar part and a vector part.
#[derive(Clone, Copy)]
pub struct Quaternion {
    pub s: Fx,
    pub v: Vec3,
}

/// The Hamilton product on `(scalar, vector)` pairs.
pub open spec fn spec_quat_mul(
    a: (int, (int, int, int)),
    b: (int, (int, int, int)),
) -> (int, (int, int, int)) {
    (
        spec_sub(spec_mul(a.0, b.0), spec_v3_dot(a.1, b.1)),
        spec_v3_add(
            spec_v3_add(spec_v3_scale(b.1, a.0), spec_v3_scale(a.1, b.0)),
            spec_v3_cross(a.1, b.1),
        ),
    )
}

impl Quaternion {
    /// The quaternion's value as a `(scalar, vector)` pair.
    pub open spec fn view_q(self) -> (int, (int, int, int)) {
        (self.s@, self.v@)
    }

    /// Hamilton product.
    pub fn mul(self, o: Quaternion) -> (r: Quaternion)
        ensures
            r.view_q() == spec_quat_mul(self.view_q(), o.view_q()),
    {
        Quaternion {
            s: self.s.mul(o.s).sub(self.v.dot(o.v)),
            v: o.v.scale(self.s).add(self.v.scale(o.s)).add(self.v.cross(o.v)),
        }
    }
}

/// The camera's right direction: the forward direction crossed with
/// the world up axis, normalized.
pub open spec fn spec_camera_right(cam: Camera) -> (int, int, int) {
    spec_v3_normalize((cam.direction@.2, 0int, -cam.direction@.0))
}

/// The direction of the ray cast through viewport offsets
/// `(shift_x, shift_y)`: the forward direction, embedded as a pure
/// quaternion, rotated by the two half-angle quaternions around the
/// camera's up and right axes.
#[verifier::opaque]
pub open spec fn spec_camera_ray_dir(cam: Camera, sx: int, sy: int) -> (int, int, int) {
    let half = 32768;
    let alpha = spec_mul(spec_mul(sx, spec_mul(cam.fov@, half)), cam.ratio@);
    let beta = spec_mul(sy, spec_mul(cam.fov@, half));
    let right = spec_camera_right(cam);
    let up = spec_v3_cross(right, cam.direction@);
    let ha = spec_mul(alpha, half);
    let hb = spec_mul(beta, half);
    let qa = (spec_cos(ha), spec_v3_scale(up, spec_sin(ha)));
    let qb = (spec_cos(hb), spec_v3_scale(right, spec_sin(hb)));
    let rotated = spec_quat_mul(spec_quat_mul((0int, cam.direction@), qa), qb);
    rotated.1
}

/// The viewport offsets under which a world point appears: the inverse
/// of the ray mapping, via projections and the arc cosine.
#[verifier::opaque]
pub open spec fn spec_camera_viewport(cam: Camera, p: (int, int, int)) -> (int, int) {
    let half = 32768;
    let dir = spec_v3_normalize(spec_v3_sub(p, cam.origin@));
    let right = spec_camera_right(cam);
    let up = spec_v3_cross(right, cam.direction@);
    let horizontal = spec_v3_sub(dir, spec_v3_scale(up, spec_v3_dot(dir, up)));
    let vertical = spec_v3_sub(dir, spec_v3_scale(right, spec_v3_dot(dir, right)));
    let alpha = spec_v3_dot(cam.direction@, horizontal);
    let beta = spec_v3_dot(cam.direction@, vertical);
    (
        spec_mul(spec_div(spec_acos(alpha), spec_mul(cam.fov@, half)), cam.ratio@),
        spec_div(spec_acos(beta), spec_mul(cam.fov@, half)),
    )
}

/// The centre of the viewport looks straight ahead: zero offsets give
/// back exactly the camera's forward direction, because both rotation
/// quaternions degenerate to the identity.
pub proof fn lemma_center_ray_keeps_direction(cam: Camera)
    requires
        spec_v3_inv(cam.direction@),
    ensures
        spec_camera_ray_dir(cam, 0, 0) == cam.direction@,
{
    reveal(spec_camera_ray_dir);
    let d = cam.direction@;
    let right = spec_camera_right(cam);
    let up = spec_v3_cross(right, d);
    crate::fx::lemma_mul_zero(spec_mul(cam.fov@, 32768));
    crate::fx::lemma_mul_zero(cam.ratio@);
    crate::fx::lemma_mul_zero(32768);
    crate::fx::lemma_cos_zero();
    crate::fx::lemma_sin_zero();
    crate::fx::lemma_mul_zero(up.0);
    crate::fx::lemma_mul_zero(up.1);
    crate::fx::lemma_mul_zero(up.2);
    crate::fx::lemma_mul_zero(right.0);
    crate::fx::lemma_mul_zero(right.1);
    crate::fx::lemma_mul_zero(right.2);
    crate::fx::lemma_mul_zero(crate::fx::SCALE as int);
    crate::fx::lemma_mul_zero(d.0);
    crate::fx::lemma_mul_zero(d.1);
    crate::fx::lemma_mul_zero(d.2);
    crate::fx::lemma_mul_zero(0);
    crate::fx::lemma_mul_one(d.0);
    crate::fx::lemma_mul_one(d.1);
    crate::fx::lemma_mul_one(d.2);
}

impl Camera {
    /// The ray cast through normalized viewport offsets in roughly
    /// `[-1, 1]`: the camera origin, and the forward direction rotated
    /// by the offsets' half angles around the up and right axes.
    pub fn get_ray_in_viewport(&self, shift_x: Fx, shift_y: Fx) -> (r: Ray)
        ensures
            r.origin == self.origin,
            r.direction@ == spec_camera_ray_dir(*self, shift_x@, shift_y@),
    {
        proof {
            reveal(spec_camera_ray_dir);
        }
        let half = Fx::half();
        let alpha = shift_x.mul(self.fov.mul(half)).mul(self.ratio);
        let beta = shift_y.mul(self.fov.mul(half));

        let right_dir_cam = Vec3::new(self.direction.z, Fx::zero(), self.direction.x.neg())
            .normalize();
        let up_dir_cam = right_dir_cam.cross(self.direction);

        let ha = alpha.mul(half);
        let hb = beta.mul(half);
        let pixel_alpha_quaternion = Quaternion { s: ha.cos(), v: up_dir_cam.scale(ha.sin()) };
        let pixel_beta_quaternion = Quaternion { s: hb.cos(), v: right_dir_cam.scale(hb.sin()) };

        let rotated = Quaternion { s: Fx::zero(), v: self.direction }.mul(
            pixel_alpha_quaternion,
        ).mul(pixel_beta_quaternion);

        Ray { origin: self.origin, direction: rotated.v }
    }

    /// The viewport offsets under which a world point appears.
    pub fn get_viewport_by_point(&self, point: Vec3) -> (r: (Fx, Fx))
        ensures
            (r.0@, r.1@) == spec_camera_viewport(*self, point@),
    {
        proof {
            reveal(spec_camera_viewport);
        }
        let half = Fx::half();
        let dir = point.sub(self.origin).normalize();

        let right_dir_cam = Vec3::new(self.direction.z, Fx::zero(), self.direction.x.neg())
            .normalize();
        let up_dir_cam = right_dir_cam.cross(self.direction);

        let horizontal_projection = dir.sub(up_dir_cam.scale(dir.dot(up_dir_cam)));
        let vertical_projection = dir.sub(right_dir_cam.scale(dir.dot(right_dir_cam)));

        let alpha = self.direction.dot(horizontal_projection);
        let beta = self.direction.dot(vertical_projection);

        let shift_x = alpha.acos().div(self.fov.mul(half)).mul(self.ratio);
        let shift_y = beta.acos().div(self.fov.mul(half));

        (shift_x, shift_y)
    }
}

} // verus!
