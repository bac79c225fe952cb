//! Bounding shells: four flat triangles enclosing a curved patch.
//!
//! The shell brackets the ray parameter for the patch's root-finding
//! search: a cheap, conservative interval, not a tight bound.

use vstd::prelude::*;

use crate::fx::{Fx, LIM_RAW, SCALE};
use crate::ray::Ray;
use crate::triangle::{spec_tri_intersect, Triangle};

verus! {

#[derive(Clone, Copy)]
pub struct TriangleShell {
    pub triangles: [Triangle; 4],
}

/// Folds one shell triangle into the running bracket: an inside hit
/// widens the bracket to include its parameter, a miss leaves it alone.
pub open spec fn spec_slice_acc(acc: (int, int), t: Triangle, ray: Ray) -> (int, int) {
    match spec_tri_intersect(t, ray) {
        Ok((tv, _b)) => (
            if tv <= acc.0 {
                tv
            } else {
                acc.0
            },
            if tv >= acc.1 {
                tv
            } else {
                acc.1
            },
        ),
        Err(_b) => acc,
    }
}

/// The bracket of ray parameters the shell admits: the minimum and
/// maximum of the parameters of the shell triangles the ray actually
/// hits, `(-1, -1)` when fewer than needed are hit or the bracket lies
/// behind the origin, and a near bound clamped to zero otherwise.
pub open spec fn spec_shell_slice(s: TriangleShell, ray: Ray) -> (int, int) {
    let a0 = (LIM_RAW as int, -(SCALE as int));
    let a1 = spec_slice_acc(a0, s.triangles[0], ray);
    let a2 = spec_slice_acc(a1, s.triangles[1], ray);
    let a3 = spec_slice_acc(a2, s.triangles[2], ray);
    let a4 = spec_slice_acc(a3, s.triangles[3], ray);
    if a4.0 > a4.1 || a4.1 < 0 {
        (-(SCALE as int), -(SCALE as int))
    } else if a4.0 < 0 {
        (0, a4.1)
    } else {
        a4
    }
}

impl TriangleShell {
    /// The bracket of ray parameters in which the ray can cross the
    /// enclosed patch: `(-1, -1)` on a miss, otherwise an interval with
    /// a non-negative, ordered pair of bounds.
    #[verifier::rlimit(30)]
    pub fn get_slice_for_ray(&self, ray: &Ray) -> (r: (Fx, Fx))
        ensures
            (r.0@, r.1@) == spec_shell_slice(*self, *ray),
            r.0@ >= 0 ==> 0 <= r.0@ <= r.1@,
    {
        let ghost a0 = (LIM_RAW as int, -(SCALE as int));
        let mut t_start = Fx::from_raw(LIM_RAW);
        let mut t_end = Fx::from_int(-1);

        if let Ok((t, _b)) = self.triangles[0].intersect(ray) {
            t_start = t.min(t_start);
            t_end = t.max(t_end);
        }
        let ghost a1 = spec_slice_acc(a0, self.triangles[0], *ray);
        proof {
            assert((t_start@, t_end@) == a1);
        }
        if let Ok((t, _b)) = self.triangles[1].intersect(ray) {
            t_start = t.min(t_start);
            t_end = t.max(t_end);
        }
        let ghost a2 = spec_slice_acc(a1, self.triangles[1], *ray);
        proof {
            assert((t_start@, t_end@) == a2);
        }
        if let Ok((t, _b)) = self.triangles[2].intersect(ray) {
            t_start = t.min(t_start);
            t_end = t.max(t_end);
        }
        let ghost a3 = spec_slice_acc(a2, self.triangles[2], *ray);
        proof {
            assert((t_start@, t_end@) == a3);
        }
        if let Ok((t, _b)) = self.triangles[3].intersect(ray) {
            t_start = t.min(t_start);
            t_end = t.max(t_end);
        }
        let ghost a4 = spec_slice_acc(a3, self.triangles[3], *ray);
        proof {
            assert((t_start@, t_end@) == a4);
        }

        if t_end.lt(t_start) || t_end.is_neg() {
            (Fx::from_int(-1), Fx::from_int(-1))
        } else {
            (t_start.max(Fx::zero()), t_end)
        }
    }
}

} // verus!
