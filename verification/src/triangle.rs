//! Flat triangles: barycentric projection, ray/plane intersection, and
//! the bounding-volume adapter (an axis-aligned box and a node-index
//! slot for an external hierarchy).

use vstd::prelude::*;

use crate::aabb::{max3, min3, AABBox};
use crate::fx::{
    lemma_div_self, lemma_div_zero, spec_add, spec_div, spec_sub, Fx, SCALE,
};
use crate::ray::Ray;
use crate::vec3::{
    lemma_mag2_nonneg, spec_v3_cross, spec_v3_dot, spec_v3_neg, spec_v3_sub, Vec3,
};

verus! {

#[derive(Clone, Copy)]
pub struct Triangle {
    pub vertexes: [Vec3; 3],
    pub bhv_node_index: usize,
}

/// The triangle's normal: the cross product of its two edges at the
/// first vertex.
pub open spec fn spec_tri_normal(t: Triangle) -> (int, int, int) {
    spec_v3_cross(
        spec_v3_sub(t.vertexes[1]@, t.vertexes[0]@),
        spec_v3_sub(t.vertexes[2]@, t.vertexes[0]@),
    )
}

/// The squared area measure the degenerate guard tests: the squared
/// length of the normal.
pub open spec fn spec_tri_area2(t: Triangle) -> int {
    spec_v3_dot(spec_tri_normal(t), spec_tri_normal(t))
}

/// Barycentric coordinates of an arbitrary point with respect to the
/// triangle's plane, via cross-product ratios; the zero triple when the
/// squared area truncates to zero.
#[verifier::opaque]
pub open spec fn spec_get_bary(t: Triangle, p: (int, int, int)) -> (int, int, int) {
    let normal = spec_tri_normal(t);
    let area2 = spec_tri_area2(t);
    if area2 == 0 {
        (0, 0, 0)
    } else {
        let a0 = spec_v3_sub(t.vertexes[0]@, p);
        let a1 = spec_v3_sub(t.vertexes[1]@, p);
        let a2 = spec_v3_sub(t.vertexes[2]@, p);
        (
            spec_div(spec_v3_dot(spec_v3_cross(a1, a2), normal), area2),
            spec_div(spec_v3_dot(spec_v3_cross(a2, a0), normal), area2),
            spec_div(spec_v3_dot(spec_v3_cross(a0, a1), normal), area2),
        )
    }
}

/// The ray parameter at which the ray meets the triangle's plane.
pub open spec fn spec_plane_t(t: Triangle, ray: Ray) -> int {
    let e1 = spec_v3_sub(t.vertexes[1]@, t.vertexes[0]@);
    let e2 = spec_v3_sub(t.vertexes[2]@, t.vertexes[0]@);
    let tt = spec_v3_sub(ray.origin@, t.vertexes[0]@);
    let crs = spec_v3_cross(e1, e2);
    let den = spec_v3_dot(spec_v3_neg(ray.direction@), crs);
    spec_div(spec_v3_dot(crs, tt), den)
}

/// Ray/plane intersection with barycentric weights. `Ok` carries the
/// ray parameter and the weights when all three lie in `[0, 1]`; `Err`
/// still carries the out-of-range weights, which callers use as a
/// continuous extrapolated coordinate.
#[verifier::opaque]
pub open spec fn spec_tri_intersect_v(
    v0: (int, int, int),
    v1: (int, int, int),
    v2: (int, int, int),
    origin: (int, int, int),
    direction: (int, int, int),
) -> Result<(int, (int, int, int)), (int, int, int)> {
    let e1 = spec_v3_sub(v1, v0);
    let e2 = spec_v3_sub(v2, v0);
    let tt = spec_v3_sub(origin, v0);
    let crs = spec_v3_cross(e1, e2);
    let nd = spec_v3_neg(direction);
    let den = spec_v3_dot(nd, crs);
    let w1 = spec_div(spec_v3_dot(spec_v3_cross(e2, nd), tt), den);
    let w2 = spec_div(spec_v3_dot(spec_v3_cross(nd, e1), tt), den);
    let w0 = spec_sub(SCALE as int, spec_add(w1, w2));
    if w1 > SCALE as int || w1 < 0 || w2 > SCALE as int || w2 < 0 || w0 > SCALE as int || w0 < 0 {
        Err((w0, w1, w2))
    } else {
        Ok((spec_div(spec_v3_dot(crs, tt), den), (w0, w1, w2)))
    }
}

/// The same intersection, phrased over a triangle and ray value.
pub open spec fn spec_tri_intersect(t: Triangle, ray: Ray) -> Result<
    (int, (int, int, int)),
    (int, int, int),
> {
    spec_tri_intersect_v(
        t.vertexes[0]@,
        t.vertexes[1]@,
        t.vertexes[2]@,
        ray.origin@,
        ray.direction@,
    )
}

impl Triangle {
    /// Builds a triangle over three vertices; the node-index slot starts
    /// at zero.
    pub fn new(vertexes: [Vec3; 3]) -> (r: Triangle)
        ensures
            r.vertexes == vertexes,
            r.bhv_node_index == 0,
    {
        Triangle { vertexes, bhv_node_index: 0 }
    }

    /// Barycentric coordinates of `point` with respect to the
    /// triangle's plane; the zero vector for a degenerate triangle.
    pub fn get_bary(&self, point: Vec3) -> (r: Vec3)
        ensures
            r@ == spec_get_bary(*self, point@),
    {
        proof {
            reveal(spec_get_bary);
        }
        let normal = self.vertexes[1].sub(self.vertexes[0]).cross(
            self.vertexes[2].sub(self.vertexes[0]),
        );
        let area2 = normal.magnitude2();

        if area2.raw() == 0 {
            return Vec3::zero();
        }

        let a0 = self.vertexes[0].sub(point);
        let a1 = self.vertexes[1].sub(point);
        let a2 = self.vertexes[2].sub(point);

        Vec3 {
            x: a1.cross(a2).dot(normal).div(area2),
            y: a2.cross(a0).dot(normal).div(area2),
            z: a0.cross(a1).dot(normal).div(area2),
        }
    }

    /// The ray parameter at which the ray meets the triangle's plane.
    pub fn intersect_plane(&self, ray: &Ray) -> (r: Fx)
        ensures
            r@ == spec_plane_t(*self, *ray),
    {
        let e1 = self.vertexes[1].sub(self.vertexes[0]);
        let e2 = self.vertexes[2].sub(self.vertexes[0]);
        let tt = ray.origin.sub(self.vertexes[0]);
        let crs = e1.cross(e2);
        let den = ray.direction.neg().dot(crs);
        crs.dot(tt).div(den)
    }

    /// Ray/plane intersection with barycentric weights: `Ok` with the
    /// ray parameter and weights when the crossing lies inside the
    /// triangle, `Err` with the out-of-range weights when it does not.
    /// The first weight is one minus the other two by construction, so
    /// the three returned weights always sum exactly to one.
    pub fn intersect(&self, ray: &Ray) -> (r: Result<(Fx, Vec3), Vec3>)
        ensures
            match r {
                Ok((rt, rb)) => {
                    &&& spec_tri_intersect(*self, *ray) == Ok::<(int, (int, int, int)), (
                        int,
                        int,
                        int,
                    )>((rt@, rb@))
                    &&& 0 <= rb@.0 <= SCALE as int
                    &&& 0 <= rb@.1 <= SCALE as int
                    &&& 0 <= rb@.2 <= SCALE as int
                    &&& rb@.0 + rb@.1 + rb@.2 == SCALE as int
                },
                Err(rb) => spec_tri_intersect(*self, *ray) == Err::<(int, (int, int, int)), (
                    int,
                    int,
                    int,
                )>(rb@),
            },
    {
        proof {
            reveal(spec_tri_intersect_v);
        }
        let e1 = self.vertexes[1].sub(self.vertexes[0]);
        let e2 = self.vertexes[2].sub(self.vertexes[0]);
        let tt = ray.origin.sub(self.vertexes[0]);
        let crs = e1.cross(e2);
        let nd = ray.direction.neg();
        let den = nd.dot(crs);

        let w1 = e2.cross(nd).dot(tt).div(den);
        let w2 = nd.cross(e1).dot(tt).div(den);
        let w0 = Fx::one().sub(w1.add(w2));

        let one = Fx::one();
        if one.lt(w1) || w1.is_neg() || one.lt(w2) || w2.is_neg() || one.lt(w0) || w0.is_neg() {
            return Err(Vec3 { x: w0, y: w1, z: w2 });
        }

        let t = crs.dot(tt).div(den);
        Ok((t, Vec3 { x: w0, y: w1, z: w2 }))
    }

    /// The axis-aligned box over the three vertices.
    pub fn aabb(&self) -> (r: AABBox)
        ensures
            r.min_x@ == min3(self.vertexes[0]@.0, self.vertexes[1]@.0, self.vertexes[2]@.0),
            r.max_x@ == max3(self.vertexes[0]@.0, self.vertexes[1]@.0, self.vertexes[2]@.0),
            r.min_y@ == min3(self.vertexes[0]@.1, self.vertexes[1]@.1, self.vertexes[2]@.1),
            r.max_y@ == max3(self.vertexes[0]@.1, self.vertexes[1]@.1, self.vertexes[2]@.1),
            r.min_z@ == min3(self.vertexes[0]@.2, self.vertexes[1]@.2, self.vertexes[2]@.2),
            r.max_z@ == max3(self.vertexes[0]@.2, self.vertexes[1]@.2, self.vertexes[2]@.2),
    {
        AABBox {
            min_x: self.vertexes[0].x.min(self.vertexes[1].x).min(self.vertexes[2].x),
            max_x: self.vertexes[0].x.max(self.vertexes[1].x).max(self.vertexes[2].x),
            min_y: self.vertexes[0].y.min(self.vertexes[1].y).min(self.vertexes[2].y),
            max_y: self.vertexes[0].y.max(self.vertexes[1].y).max(self.vertexes[2].y),
            min_z: self.vertexes[0].z.min(self.vertexes[1].z).min(self.vertexes[2].z),
            max_z: self.vertexes[0].z.max(self.vertexes[1].z).max(self.vertexes[2].z),
        }
    }

    /// Stores the external hierarchy's node index for this triangle.
    pub fn set_bh_node_index(&mut self, index: usize)
        ensures
            final(self).bhv_node_index == index,
            final(self).vertexes == old(self).vertexes,
    {
        self.bhv_node_index = index;
    }

    /// Reads the external hierarchy's node index for this triangle.
    pub fn bh_node_index(&self) -> (r: usize)
        ensures
            r == self.bhv_node_index,
    {
        self.bhv_node_index
    }
}

/// Projecting a triangle's own first vertex yields exactly the first
/// barycentric basis triple: the numerator and denominator of the first
/// weight are the same computation, and the other two numerators vanish.
pub proof fn lemma_bary_of_vertex0(t: Triangle)
    requires
        spec_tri_area2(t) != 0,
    ensures
        spec_get_bary(t, t.vertexes[0]@) == (SCALE as int, 0int, 0int),
{
    reveal(spec_get_bary);
    let area2 = spec_tri_area2(t);
    lemma_mag2_nonneg(spec_tri_normal(t));
    lemma_div_self(area2);
    lemma_div_zero(area2);
}

/// Projecting the second vertex zeroes the other two weights exactly:
/// both of their numerator cross products take the zero vector as a
/// factor. The second weight itself is only approximately one, since
/// its numerator and the shared denominator round their products
/// differently.
pub proof fn lemma_bary_of_vertex1_off_components(t: Triangle)
    requires
        spec_tri_area2(t) != 0,
    ensures
        spec_get_bary(t, t.vertexes[1]@).0 == 0,
        spec_get_bary(t, t.vertexes[1]@).2 == 0,
{
    reveal(spec_get_bary);
    lemma_div_zero(spec_tri_area2(t));
}

/// Projecting the third vertex zeroes the other two weights exactly,
/// for the same reason.
pub proof fn lemma_bary_of_vertex2_off_components(t: Triangle)
    requires
        spec_tri_area2(t) != 0,
    ensures
        spec_get_bary(t, t.vertexes[2]@).0 == 0,
        spec_get_bary(t, t.vertexes[2]@).1 == 0,
{
    reveal(spec_get_bary);
    lemma_div_zero(spec_tri_area2(t));
}

} // verus!
