//! Axis-aligned boxes and the slab test.
//!
//! The slab test treats each axis on its own: a zero direction component
//! either rules the ray out (origin outside that slab) or leaves the
//! axis unconstrained, which is the branch-free role the infinities play
//! in a floating-point reciprocal formulation.

use vstd::prelude::*;

use crate::fx::{spec_add, spec_div, spec_sub, Fx, LIM_RAW, SCALE};
use crate::ray::Ray;

verus! {

#[derive(Clone, Copy)]
pub struct AABBox {
    pub min_x: Fx,
    pub max_x: Fx,
    pub min_y: Fx,
    pub max_y: Fx,
    pub min_z: Fx,
    pub max_z: Fx,
}

/// Whether the box's bounds are ordered on every axis.
pub open spec fn spec_box_wf(b: AABBox) -> bool {
    b.min_x@ <= b.max_x@ && b.min_y@ <= b.max_y@ && b.min_z@ <= b.max_z@
}

/// Midpoint of two bounds: their sum halved, truncating toward zero.
pub open spec fn spec_mid(lo: int, hi: int) -> int {
    spec_div(spec_add(lo, hi), 2 * SCALE as int)
}

/// Half the distance between two bounds, truncating toward zero.
pub open spec fn spec_half_span(lo: int, hi: int) -> int {
    spec_div(spec_sub(hi, lo), 2 * SCALE as int)
}

/// The ray-parameter interval one axis admits: `None` when the ray runs
/// parallel to the slab outside it; the whole representable line when it
/// runs parallel inside it; otherwise the ordered pair of the two plane
/// crossings.
pub open spec fn spec_axis_slice(o: int, d: int, lo: int, hi: int) -> Option<(int, int)> {
    if d == 0 {
        if lo <= o <= hi {
            Some((-(LIM_RAW as int), LIM_RAW as int))
        } else {
            None
        }
    } else {
        let ta = spec_div(spec_sub(lo, o), d);
        let tb = spec_div(spec_sub(hi, o), d);
        if ta <= tb {
            Some((ta, tb))
        } else {
            Some((tb, ta))
        }
    }
}

/// The slab test over all three axes: the intersection of the per-axis
/// intervals, `(-1, -1)` when it is empty or lies wholly behind the
/// origin, and a near bound clamped to zero otherwise.
pub open spec fn spec_box_slice(b: AABBox, ray: Ray) -> (int, int) {
    let sx = spec_axis_slice(ray.origin@.0, ray.direction@.0, b.min_x@, b.max_x@);
    let sy = spec_axis_slice(ray.origin@.1, ray.direction@.1, b.min_y@, b.max_y@);
    let sz = spec_axis_slice(ray.origin@.2, ray.direction@.2, b.min_z@, b.max_z@);
    if sx is None || sy is None || sz is None {
        (-(SCALE as int), -(SCALE as int))
    } else {
        let tn = max3(sx->Some_0.0, sy->Some_0.0, sz->Some_0.0);
        let tf = min3(sx->Some_0.1, sy->Some_0.1, sz->Some_0.1);
        if tn > tf || tf < 0 {
            (-(SCALE as int), -(SCALE as int))
        } else if tn < 0 {
            (0, tf)
        } else {
            (tn, tf)
        }
    }
}

/// Smaller of two integers.
pub open spec fn imin(a: int, b: int) -> int {
    if a <= b {
        a
    } else {
        b
    }
}

/// Larger of two integers.
pub open spec fn imax(a: int, b: int) -> int {
    if a >= b {
        a
    } else {
        b
    }
}

/// Largest of three integers.
pub open spec fn max3(a: int, b: int, c: int) -> int {
    if a >= b && a >= c {
        a
    } else if b >= c {
        b
    } else {
        c
    }
}

/// Smallest of three integers.
pub open spec fn min3(a: int, b: int, c: int) -> int {
    if a <= b && a <= c {
        a
    } else if b <= c {
        b
    } else {
        c
    }
}

/// One axis of the slab test.
fn axis_slice(o: Fx, d: Fx, lo: Fx, hi: Fx) -> (r: Option<(Fx, Fx)>)
    ensures
        match r {
            Some((ta, tb)) => {
                &&& spec_axis_slice(o@, d@, lo@, hi@) == Some((ta@, tb@))
            },
            None => spec_axis_slice(o@, d@, lo@, hi@) is None,
        },
{
    if d.raw() == 0 {
        if lo.le(o) && o.le(hi) {
            Some((Fx::from_raw(-LIM_RAW), Fx::from_raw(LIM_RAW)))
        } else {
            None
        }
    } else {
        let ta = lo.sub(o).div(d);
        let tb = hi.sub(o).div(d);
        if ta.le(tb) {
            Some((ta, tb))
        } else {
            Some((tb, ta))
        }
    }
}

impl AABBox {
    /// Center of the box.
    pub fn center(&self) -> (r: crate::vec3::Vec3)
        ensures
            r@ == (
                spec_mid(self.min_x@, self.max_x@),
                spec_mid(self.min_y@, self.max_y@),
                spec_mid(self.min_z@, self.max_z@),
            ),
    {
        let two = Fx::from_int(2);
        crate::vec3::Vec3 {
            x: self.max_x.add(self.min_x).div(two),
            y: self.min_y.add(self.max_y).div(two),
            z: self.min_z.add(self.max_z).div(two),
        }
    }

    /// Half the box's extent on each axis.
    pub fn half_size(&self) -> (r: crate::vec3::Vec3)
        ensures
            r@ == (
                spec_half_span(self.min_x@, self.max_x@),
                spec_half_span(self.min_y@, self.max_y@),
                spec_half_span(self.min_z@, self.max_z@),
            ),
    {
        let two = Fx::from_int(2);
        crate::vec3::Vec3 {
            x: self.max_x.sub(self.min_x).div(two),
            y: self.max_y.sub(self.min_y).div(two),
            z: self.max_z.sub(self.min_z).div(two),
        }
    }

    /// The ray-parameter interval in which the ray is inside the box:
    /// `(-1, -1)` when the ray misses the box or the box lies wholly
    /// behind the origin, otherwise the entry and exit parameters with
    /// the entry clamped to zero.
    pub fn get_slice_for_ray(&self, ray: &Ray) -> (r: (Fx, Fx))
        ensures
            (r.0@, r.1@) == spec_box_slice(*self, *ray),
    {
        let sx = axis_slice(ray.origin.x, ray.direction.x, self.min_x, self.max_x);
        let sy = axis_slice(ray.origin.y, ray.direction.y, self.min_y, self.max_y);
        let sz = axis_slice(ray.origin.z, ray.direction.z, self.min_z, self.max_z);
        let miss = (Fx::from_int(-1), Fx::from_int(-1));
        match (sx, sy, sz) {
            (Some((ax, bx)), Some((ay, by)), Some((az, bz))) => {
                let tn = ax.max(ay).max(az);
                let tf = bx.min(by).min(bz);
                if tf.lt(tn) || tf.is_neg() {
                    miss
                } else {
                    (tn.max(Fx::zero()), tf)
                }
            },
            _ => miss,
        }
    }
}

} // verus!
