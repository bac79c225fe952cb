//! 3-component vectors of fixed-point scalars.
//!
//! Every operation is stated exactly over the component integers, in the
//! same saturating Q16.16 semantics as the scalar layer; `@` on a vector
//! is the triple of its components' raw values.

use vstd::prelude::*;

use crate::fx::{
    spec_add, spec_div, spec_mul, spec_sqrt, spec_sub, spec_upow, Fx, iabs, SCALE,
};

verus! {

#[derive(Clone, Copy)]
pub struct Vec3 {
    pub x: Fx,
    pub y: Fx,
    pub z: Fx,
}

impl View for Vec3 {
    type V = (int, int, int);

    open spec fn view(&self) -> (int, int, int) {
        (self.x@, self.y@, self.z@)
    }
}

/// Component-wise saturated sum.
pub open spec fn spec_v3_add(a: (int, int, int), b: (int, int, int)) -> (int, int, int) {
    (spec_add(a.0, b.0), spec_add(a.1, b.1), spec_add(a.2, b.2))
}

/// Component-wise saturated difference.
pub open spec fn spec_v3_sub(a: (int, int, int), b: (int, int, int)) -> (int, int, int) {
    (spec_sub(a.0, b.0), spec_sub(a.1, b.1), spec_sub(a.2, b.2))
}

/// Component-wise negation.
pub open spec fn spec_v3_neg(a: (int, int, int)) -> (int, int, int) {
    (-a.0, -a.1, -a.2)
}

/// The vector scaled by `k`.
pub open spec fn spec_v3_scale(a: (int, int, int), k: int) -> (int, int, int) {
    (spec_mul(a.0, k), spec_mul(a.1, k), spec_mul(a.2, k))
}

/// Component-wise product.
pub open spec fn spec_v3_mul_ew(a: (int, int, int), b: (int, int, int)) -> (int, int, int) {
    (spec_mul(a.0, b.0), spec_mul(a.1, b.1), spec_mul(a.2, b.2))
}

/// Component-wise quotient.
pub open spec fn spec_v3_div_ew(a: (int, int, int), b: (int, int, int)) -> (int, int, int) {
    (spec_div(a.0, b.0), spec_div(a.1, b.1), spec_div(a.2, b.2))
}

/// Dot product, summed left to right.
pub open spec fn spec_v3_dot(a: (int, int, int), b: (int, int, int)) -> int {
    spec_add(spec_add(spec_mul(a.0, b.0), spec_mul(a.1, b.1)), spec_mul(a.2, b.2))
}

/// Cross product.
pub open spec fn spec_v3_cross(a: (int, int, int), b: (int, int, int)) -> (int, int, int) {
    (
        spec_sub(spec_mul(a.1, b.2), spec_mul(a.2, b.1)),
        spec_sub(spec_mul(a.2, b.0), spec_mul(a.0, b.2)),
        spec_sub(spec_mul(a.0, b.1), spec_mul(a.1, b.0)),
    )
}

/// Squared length.
pub open spec fn spec_v3_mag2(a: (int, int, int)) -> int {
    spec_v3_dot(a, a)
}

/// Length.
pub open spec fn spec_v3_mag(a: (int, int, int)) -> int {
    spec_sqrt(spec_v3_mag2(a))
}

/// The vector divided by its length; the zero vector when the length
/// truncates to zero.
pub open spec fn spec_v3_normalize(a: (int, int, int)) -> (int, int, int) {
    let m = spec_v3_mag(a);
    if m == 0 {
        (0, 0, 0)
    } else {
        (spec_div(a.0, m), spec_div(a.1, m), spec_div(a.2, m))
    }
}

/// Linear interpolation `a + (b - a) * t`, component-wise.
pub open spec fn spec_v3_lerp(a: (int, int, int), b: (int, int, int), t: int) -> (int, int, int) {
    spec_v3_add(a, spec_v3_scale(spec_v3_sub(b, a), t))
}

/// The vector whose components' raw units are the triple `t`;
/// ghost-level constructor.
pub open spec fn vec3_of(t: (int, int, int)) -> Vec3 {
    Vec3 { x: Fx::fx_of(t.0), y: Fx::fx_of(t.1), z: Fx::fx_of(t.2) }
}

/// A vector is recovered from its own view.
pub broadcast proof fn lemma_vec3_of_view(v: Vec3)
    ensures
        #[trigger] vec3_of(v@) == v,
{
    crate::fx::lemma_fx_of_view(v.x);
    crate::fx::lemma_fx_of_view(v.y);
    crate::fx::lemma_fx_of_view(v.z);
}

/// Whether all three components lie in the representable band; every
/// vector a running program holds satisfies it.
pub open spec fn spec_v3_inv(a: (int, int, int)) -> bool {
    crate::fx::fx_inv(a.0) && crate::fx::fx_inv(a.1) && crate::fx::fx_inv(a.2)
}

/// How far along the segment from `v1` to `v2` a point sits, averaged
/// over the axes on which the segment moves.
pub open spec fn spec_vectors_relation(
    p: (int, int, int),
    v1: (int, int, int),
    v2: (int, int, int),
) -> int {
    let dx = spec_sub(v2.0, v1.0);
    let dy = spec_sub(v2.1, v1.1);
    let dz = spec_sub(v2.2, v1.2);
    let tx = spec_div(spec_sub(p.0, v1.0), dx);
    let ty = spec_div(spec_sub(p.1, v1.1), dy);
    let tz = spec_div(spec_sub(p.2, v1.2), dz);
    if dx != 0 {
        if dy != 0 {
            if dz != 0 {
                spec_div(spec_add(spec_add(tx, ty), tz), 3 * SCALE as int)
            } else {
                spec_div(spec_add(tx, ty), 2 * SCALE as int)
            }
        } else {
            if dz != 0 {
                spec_div(spec_add(tx, tz), 2 * SCALE as int)
            } else {
                tx
            }
        }
    } else {
        if dy != 0 {
            if dz != 0 {
                spec_div(spec_add(ty, tz), 2 * SCALE as int)
            } else {
                ty
            }
        } else {
            tz
        }
    }
}

/// A squared length is never negative.
pub proof fn lemma_mag2_nonneg(a: (int, int, int))
    ensures
        spec_v3_mag2(a) >= 0,
{
}

impl Vec3 {
    /// Builds a vector from its components.
    pub fn new(x: Fx, y: Fx, z: Fx) -> (r: Vec3)
        ensures
            r@ == (x@, y@, z@),
    {
        Vec3 { x, y, z }
    }

    /// The zero vector.
    pub fn zero() -> (r: Vec3)
        ensures
            r@ == (0int, 0int, 0int),
    {
        Vec3 { x: Fx::zero(), y: Fx::zero(), z: Fx::zero() }
    }

    /// Component-wise saturated sum.
    pub fn add(self, o: Vec3) -> (r: Vec3)
        ensures
            r@ == spec_v3_add(self@, o@),
    {
        Vec3 { x: self.x.add(o.x), y: self.y.add(o.y), z: self.z.add(o.z) }
    }

    /// Component-wise saturated difference.
    pub fn sub(self, o: Vec3) -> (r: Vec3)
        ensures
            r@ == spec_v3_sub(self@, o@),
    {
        Vec3 { x: self.x.sub(o.x), y: self.y.sub(o.y), z: self.z.sub(o.z) }
    }

    /// Component-wise negation.
    pub fn neg(self) -> (r: Vec3)
        ensures
            r@ == spec_v3_neg(self@),
    {
        Vec3 { x: self.x.neg(), y: self.y.neg(), z: self.z.neg() }
    }

    /// The vector scaled by `k`.
    pub fn scale(self, k: Fx) -> (r: Vec3)
        ensures
            r@ == spec_v3_scale(self@, k@),
    {
        Vec3 { x: self.x.mul(k), y: self.y.mul(k), z: self.z.mul(k) }
    }

    /// The vector divided by the scalar `k`, component-wise.
    pub fn div_s(self, k: Fx) -> (r: Vec3)
        ensures
            r@ == (spec_div(self@.0, k@), spec_div(self@.1, k@), spec_div(self@.2, k@)),
    {
        Vec3 { x: self.x.div(k), y: self.y.div(k), z: self.z.div(k) }
    }

    /// Component-wise product.
    pub fn mul_ew(self, o: Vec3) -> (r: Vec3)
        ensures
            r@ == spec_v3_mul_ew(self@, o@),
    {
        Vec3 { x: self.x.mul(o.x), y: self.y.mul(o.y), z: self.z.mul(o.z) }
    }

    /// Component-wise quotient.
    pub fn div_ew(self, o: Vec3) -> (r: Vec3)
        ensures
            r@ == spec_v3_div_ew(self@, o@),
    {
        Vec3 { x: self.x.div(o.x), y: self.y.div(o.y), z: self.z.div(o.z) }
    }

    /// Dot product.
    pub fn dot(self, o: Vec3) -> (r: Fx)
        ensures
            r@ == spec_v3_dot(self@, o@),
    {
        self.x.mul(o.x).add(self.y.mul(o.y)).add(self.z.mul(o.z))
    }

    /// Cross product.
    pub fn cross(self, o: Vec3) -> (r: Vec3)
        ensures
            r@ == spec_v3_cross(self@, o@),
    {
        Vec3 {
            x: self.y.mul(o.z).sub(self.z.mul(o.y)),
            y: self.z.mul(o.x).sub(self.x.mul(o.z)),
            z: self.x.mul(o.y).sub(self.y.mul(o.x)),
        }
    }

    /// Squared length.
    pub fn magnitude2(self) -> (r: Fx)
        ensures
            r@ == spec_v3_mag2(self@),
            r@ >= 0,
    {
        self.dot(self)
    }

    /// Length.
    pub fn magnitude(self) -> (r: Fx)
        ensures
            r@ == spec_v3_mag(self@),
            r@ >= 0,
    {
        self.magnitude2().sqrt()
    }

    /// The vector divided by its length; the zero vector when the
    /// length truncates to zero.
    pub fn normalize(self) -> (r: Vec3)
        ensures
            r@ == spec_v3_normalize(self@),
    {
        let m = self.magnitude();
        if m.raw() == 0 {
            Vec3::zero()
        } else {
            Vec3 { x: self.x.div(m), y: self.y.div(m), z: self.z.div(m) }
        }
    }

    /// Linear interpolation `self + (o - self) * t`.
    pub fn lerp(self, o: Vec3, t: Fx) -> (r: Vec3)
        ensures
            r@ == spec_v3_lerp(self@, o@, t@),
    {
        self.add(o.sub(self).scale(t))
    }

    /// Component-wise magnitude.
    pub fn abs(self) -> (r: Vec3)
        ensures
            r@ == (iabs(self@.0), iabs(self@.1), iabs(self@.2)),
    {
        Vec3 { x: self.x.abs(), y: self.y.abs(), z: self.z.abs() }
    }

    /// Sign-preserving power, component-wise.
    pub fn upowf(self, p: Fx) -> (r: Vec3)
        ensures
            r@ == (spec_upow(self@.0, p@), spec_upow(self@.1, p@), spec_upow(self@.2, p@)),
    {
        Vec3 { x: self.x.upowf(p), y: self.y.upowf(p), z: self.z.upowf(p) }
    }

    /// 0 where the component is below `edge`, 1 elsewhere.
    pub fn step(self, edge: Fx) -> (r: Vec3)
        ensures
            r@.0 == if self@.0 < edge@ { 0int } else { SCALE as int },
            r@.1 == if self@.1 < edge@ { 0int } else { SCALE as int },
            r@.2 == if self@.2 < edge@ { 0int } else { SCALE as int },
    {
        Vec3 {
            x: if self.x.lt(edge) { Fx::zero() } else { Fx::one() },
            y: if self.y.lt(edge) { Fx::zero() } else { Fx::one() },
            z: if self.z.lt(edge) { Fx::zero() } else { Fx::one() },
        }
    }

    /// How far along the segment from `v1` to `v2` the point sits:
    /// the component-wise ratios `(self - v1) / (v2 - v1)`, averaged
    /// over the axes on which the segment actually moves; the last
    /// ratio alone when it moves on none.
    pub fn get_vectors_relation(self, v1: Vec3, v2: Vec3) -> (r: Fx)
        ensures
            r@ == spec_vectors_relation(self@, v1@, v2@),
    {
        let dx = v2.x.sub(v1.x);
        let dy = v2.y.sub(v1.y);
        let dz = v2.z.sub(v1.z);
        let tx = self.x.sub(v1.x).div(dx);
        let ty = self.y.sub(v1.y).div(dy);
        let tz = self.z.sub(v1.z).div(dz);
        if dx.raw() != 0 {
            if dy.raw() != 0 {
                if dz.raw() != 0 {
                    tx.add(ty).add(tz).div(Fx::from_int(3))
                } else {
                    tx.add(ty).div(Fx::from_int(2))
                }
            } else {
                if dz.raw() != 0 {
                    tx.add(tz).div(Fx::from_int(2))
                } else {
                    tx
                }
            }
        } else {
            if dy.raw() != 0 {
                if dz.raw() != 0 {
                    ty.add(tz).div(Fx::from_int(2))
                } else {
                    ty
                }
            } else {
                tz
            }
        }
    }

    /// Equality of all three components' values.
    pub fn eq_v(self, o: Vec3) -> (r: bool)
        ensures
            r == (self@ == o@),
    {
        self.x.eq_v(o.x) && self.y.eq_v(o.y) && self.z.eq_v(o.z)
    }
}

} // verus!
