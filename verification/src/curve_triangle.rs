//! Curved triangular surface patches.
//!
//! A patch is a flat base triangle, one control pivot per edge, and one
//! curvature exponent per edge. The surface passes exactly through the
//! three corner vertices and bulges toward the pivots; a per-edge
//! rational curve and a sign-preserving power mean blend the three edge
//! curves into one surface. Rays are intersected against the true
//! surface by searching for a root of a radial distance field inside a
//! bracket supplied by the patch's bounding shell.

use vstd::prelude::*;

use crate::fx::{
    lemma_div_nonneg, lemma_div_self, lemma_div_zero, lemma_mul_one, lemma_mul_zero, sat, spec_add,
    spec_div, spec_mul, spec_pow, spec_sqrt, spec_sub, spec_upow, Fx, SCALE,
};
use crate::ray::{spec_ray_point, Ray};
use crate::triangle::{spec_get_bary, spec_tri_intersect_v, Triangle};
use crate::triangle_shell::{spec_shell_slice, TriangleShell};
use crate::vec3::{
    spec_v3_add, spec_v3_inv, spec_v3_lerp, spec_v3_mag, spec_v3_normalize, spec_v3_scale,
    spec_v3_sub, Vec3,
};

verus! {

/// Why a ray failed to intersect a patch; all three are ordinary
/// per-ray outcomes that callers turn into a fallback colour.
#[derive(Clone, Copy, Debug, PartialEq, Eq, Structural)]
pub enum IntersectionError {
    /// The shell bracket lies behind the ray origin.
    BehindRay,
    /// The refined crossing's projection falls outside the base triangle.
    CantSubrayBase,
    /// No sign change of the distance field was found in the bracket.
    NoIntersections,
}

pub struct CurveTriangle {
    pub base: Triangle,
    pub pivots: [Vec3; 3],
    pub curve_koefs: [Fx; 3],
    pub root_point: Vec3,
    pub shell_points: [Vec3; 3],
    pub opposite_root: Vec3,
    pub triangulation: Vec<Triangle>,
    pub tr_shell: Option<TriangleShell>,
    pub bhv_node_index: usize,
}

/// The value clamped into `[0, 1]`.
pub open spec fn spec_clamp01(t: int) -> int {
    if t < 0 {
        0
    } else if t > SCALE as int {
        SCALE as int
    } else {
        t
    }
}

/// One edge's rational curve: a power-weighted interpolation among the
/// edge's two endpoints and its pivot. At `t = 0` it is the start
/// vertex, at `t = 1` the end vertex; in between the weights leave a
/// remainder that pulls toward the pivot.
pub open spec fn spec_curve(
    t: int,
    v1: (int, int, int),
    v2: (int, int, int),
    pv: (int, int, int),
    k: int,
) -> (int, int, int) {
    let ft = spec_clamp01(t);
    let s = spec_pow(spec_sub(SCALE as int, ft), k);
    let f = spec_pow(ft, k);
    let denom = spec_add(s, f);
    let kinv = spec_div(SCALE as int, k);
    let p1 = spec_pow(spec_div(s, denom), kinv);
    let p2 = spec_pow(spec_div(f, denom), kinv);
    let rem = spec_sub(spec_sub(SCALE as int, p1), p2);
    spec_v3_add(spec_v3_add(spec_v3_scale(v1, p1), spec_v3_scale(v2, p2)), spec_v3_scale(pv, rem))
}

/// The quadratic special case of the edge curve: squares in place of
/// powers, square roots in place of the inverse power.
pub open spec fn spec_curve_sqrt(
    t: int,
    v1: (int, int, int),
    v2: (int, int, int),
    pv: (int, int, int),
) -> (int, int, int) {
    let ft = spec_clamp01(t);
    let ct = spec_sub(SCALE as int, ft);
    let s = spec_mul(ct, ct);
    let f = spec_mul(ft, ft);
    let denom = spec_add(s, f);
    let p1 = spec_sqrt(spec_div(s, denom));
    let p2 = spec_sqrt(spec_div(f, denom));
    let rem = spec_sub(spec_sub(SCALE as int, p1), p2);
    spec_v3_add(spec_v3_add(spec_v3_scale(v1, p1), spec_v3_scale(v2, p2)), spec_v3_scale(pv, rem))
}

/// One pair relation: the ratio of a barycentric coordinate against one
/// minus the cyclically preceding coordinate. `0 / 0` resolves to 1,
/// which settles the corner degeneracy where two coordinates vanish.
pub open spec fn spec_pair_rel(num: int, den: int) -> int {
    if num == 0 && den == 0 {
        SCALE as int
    } else {
        spec_div(num, den)
    }
}

/// The three pair relations of a barycentric triple.
pub open spec fn spec_pair_relations(b: (int, int, int)) -> (int, int, int) {
    (
        spec_pair_rel(b.0, spec_sub(SCALE as int, b.2)),
        spec_pair_rel(b.1, spec_sub(SCALE as int, b.0)),
        spec_pair_rel(b.2, spec_sub(SCALE as int, b.1)),
    )
}

/// The per-edge blend weights: a partition of unity across the three
/// edges built from the barycentric triple and its pair relations.
pub open spec fn spec_koefs(b: (int, int, int), p: (int, int, int)) -> (int, int, int) {
    (
        spec_add(spec_mul(b.0, p.1), spec_mul(b.1, spec_sub(SCALE as int, p.2))),
        spec_add(spec_mul(b.1, p.2), spec_mul(b.2, spec_sub(SCALE as int, p.0))),
        spec_add(spec_mul(b.2, p.0), spec_mul(b.0, spec_sub(SCALE as int, p.1))),
    )
}

/// Sign-preserving power applied to each component.
pub open spec fn spec_upow3(c: (int, int, int), p: int) -> (int, int, int) {
    (spec_upow(c.0, p), spec_upow(c.1, p), spec_upow(c.2, p))
}

/// The signed power mean of the three edge-curve points under the blend
/// weights. A weight triple that is exactly a barycentric basis selects
/// its curve point directly: in exact arithmetic the mean degenerates
/// to that point, and returning it outright keeps the surface passing
/// exactly through the base corners, which the truncated power chain
/// would not.
pub open spec fn spec_power_blend(
    c0: (int, int, int),
    c1: (int, int, int),
    c2: (int, int, int),
    kf: (int, int, int),
    bal: int,
) -> (int, int, int) {
    if kf == (SCALE as int, 0int, 0int) {
        c0
    } else if kf == (0int, SCALE as int, 0int) {
        c1
    } else if kf == (0int, 0int, SCALE as int) {
        c2
    } else {
        let inv = spec_div(SCALE as int, bal);
        spec_upow3(
            spec_v3_add(
                spec_v3_add(
                    spec_v3_scale(spec_upow3(c0, bal), kf.0),
                    spec_v3_scale(spec_upow3(c1, bal), kf.1),
                ),
                spec_v3_scale(spec_upow3(c2, bal), kf.2),
            ),
            inv,
        )
    }
}

/// The curved-surface point for a barycentric triple on the base.
#[verifier::opaque]
pub open spec fn spec_surface_point_by_bary(ct: CurveTriangle, b: (int, int, int)) -> (
    int,
    int,
    int,
) {
    let pr = spec_pair_relations(b);
    let kf = spec_koefs(b, pr);
    let c0 = spec_curve(
        spec_sub(SCALE as int, pr.0),
        ct.base.vertexes[0]@,
        ct.base.vertexes[1]@,
        ct.pivots[0]@,
        ct.curve_koefs[0]@,
    );
    let c1 = spec_curve(
        spec_sub(SCALE as int, pr.1),
        ct.base.vertexes[1]@,
        ct.base.vertexes[2]@,
        ct.pivots[1]@,
        ct.curve_koefs[1]@,
    );
    let c2 = spec_curve(
        spec_sub(SCALE as int, pr.2),
        ct.base.vertexes[2]@,
        ct.base.vertexes[0]@,
        ct.pivots[2]@,
        ct.curve_koefs[2]@,
    );
    let bal = spec_add(
        spec_add(
            spec_mul(kf.0, ct.curve_koefs[0]@),
            spec_mul(kf.1, ct.curve_koefs[1]@),
        ),
        spec_mul(kf.2, ct.curve_koefs[2]@),
    );
    spec_power_blend(c0, c1, c2, kf, bal)
}

/// The quadratic special case of the surface point: every edge uses the
/// square-root curve and the balancing exponent is twice the weight sum.
pub open spec fn spec_surface_point_by_bary_sqrt(ct: CurveTriangle, b: (int, int, int)) -> (
    int,
    int,
    int,
) {
    let pr = spec_pair_relations(b);
    let kf = spec_koefs(b, pr);
    let c0 = spec_curve_sqrt(
        spec_sub(SCALE as int, pr.0),
        ct.base.vertexes[0]@,
        ct.base.vertexes[1]@,
        ct.pivots[0]@,
    );
    let c1 = spec_curve_sqrt(
        spec_sub(SCALE as int, pr.1),
        ct.base.vertexes[1]@,
        ct.base.vertexes[2]@,
        ct.pivots[1]@,
    );
    let c2 = spec_curve_sqrt(
        spec_sub(SCALE as int, pr.2),
        ct.base.vertexes[2]@,
        ct.base.vertexes[0]@,
        ct.pivots[2]@,
    );
    let two = 2 * SCALE as int;
    let bal = spec_add(spec_add(spec_mul(kf.0, two), spec_mul(kf.1, two)), spec_mul(kf.2, two));
    spec_power_blend(c0, c1, c2, kf, bal)
}

/// The curved-surface point for a raw point on or near the base plane.
#[verifier::opaque]
pub open spec fn spec_surface_point(ct: CurveTriangle, p: (int, int, int)) -> (int, int, int) {
    spec_surface_point_by_bary(ct, spec_get_bary(ct.base, p))
}

/// One node of the two-level interpolation grid over the base
/// triangle at subdivision depth `acc`: row `r` sweeps from the second
/// vertex toward the first and third and holds `r + 1` points; column
/// `j` sweeps across the row from its left end to its right end.
pub open spec fn spec_grid_node(ct: CurveTriangle, r: int, j: int, acc: int) -> (int, int, int) {
    if r == 0 {
        ct.base.vertexes[1]@
    } else {
        let am = spec_div(sat(r * SCALE as int), sat(acc * SCALE as int));
        let left = spec_v3_lerp(ct.base.vertexes[1]@, ct.base.vertexes[0]@, am);
        let right = spec_v3_lerp(ct.base.vertexes[1]@, ct.base.vertexes[2]@, am);
        if j == 0 {
            left
        } else {
            spec_v3_lerp(left, right, spec_div(sat(j * SCALE as int), sat(r * SCALE as int)))
        }
    }
}

/// The curved-surface point over one grid node.
pub open spec fn spec_grid_surface(ct: CurveTriangle, r: int, j: int, acc: int) -> (int, int, int) {
    spec_surface_point(ct, spec_grid_node(ct, r, j, acc))
}

/// Whether every vertex of `t` is the curved-surface point of some
/// node of the patch's interpolation grid at depth `acc`.
pub open spec fn spec_grid_surface_tri(ct: CurveTriangle, t: Triangle, acc: int) -> bool {
    &&& exists|r: int, j: int|
        0 <= j <= r <= acc && t.vertexes[0]@ == #[trigger] spec_grid_surface(ct, r, j, acc)
    &&& exists|r: int, j: int|
        0 <= j <= r <= acc && t.vertexes[1]@ == #[trigger] spec_grid_surface(ct, r, j, acc)
    &&& exists|r: int, j: int|
        0 <= j <= r <= acc && t.vertexes[2]@ == #[trigger] spec_grid_surface(ct, r, j, acc)
}

/// The surface point reads only the patch's geometry: two patches
/// agreeing on the base, the pivots and the exponents give the same
/// surface point at every input.
pub proof fn lemma_surface_point_geometry(a: CurveTriangle, b: CurveTriangle, p: (int, int, int))
    requires
        a.base == b.base,
        a.pivots == b.pivots,
        a.curve_koefs == b.curve_koefs,
    ensures
        spec_surface_point(a, p) == spec_surface_point(b, p),
{
    reveal(spec_surface_point);
    reveal(spec_surface_point_by_bary);
}

/// Whether all three curvature exponents are positive, as the data
/// model demands.
pub open spec fn spec_koefs_pos(ct: CurveTriangle) -> bool {
    ct.curve_koefs[0]@ > 0 && ct.curve_koefs[1]@ > 0 && ct.curve_koefs[2]@ > 0
}

/// One pair relation, with the `0 / 0` corner rule.
fn pair_rel(num: Fx, den: Fx) -> (r: Fx)
    ensures
        r@ == spec_pair_rel(num@, den@),
{
    if num.raw() == 0 && den.raw() == 0 {
        Fx::one()
    } else {
        num.div(den)
    }
}

/// The signed power mean of the three edge-curve points; a unit weight
/// selects its curve point exactly.
fn power_blend(c0: Vec3, c1: Vec3, c2: Vec3, kf0: Fx, kf1: Fx, kf2: Fx, bal: Fx) -> (r: Vec3)
    ensures
        r@ == spec_power_blend(c0@, c1@, c2@, (kf0@, kf1@, kf2@), bal@),
{
    let one = Fx::one();
    if kf0.eq_v(one) && kf1.raw() == 0 && kf2.raw() == 0 {
        c0
    } else if kf0.raw() == 0 && kf1.eq_v(one) && kf2.raw() == 0 {
        c1
    } else if kf0.raw() == 0 && kf1.raw() == 0 && kf2.eq_v(one) {
        c2
    } else {
        let inv = one.div(bal);
        c0.upowf(bal).scale(kf0).add(c1.upowf(bal).scale(kf1)).add(
            c2.upowf(bal).scale(kf2),
        ).upowf(inv)
    }
}

impl CurveTriangle {
    /// One edge's rational curve. `t` is clamped to `[0, 1]`; the
    /// result interpolates from `v1` at 0 to `v2` at 1, pulled toward
    /// the pivot in between.
    pub fn curve(t: Fx, v1: Vec3, v2: Vec3, p: Vec3, curve_koef: Fx) -> (r: Vec3)
        requires
            curve_koef@ > 0,
        ensures
            r@ == spec_curve(t@, v1@, v2@, p@, curve_koef@),
    {
        let one = Fx::one();
        let fix_t = t.clamp01();
        let s = one.sub(fix_t).pow(curve_koef);
        let f = fix_t.pow(curve_koef);
        let denom = s.add(f);
        let kinv = one.div(curve_koef);
        proof {
            lemma_div_nonneg(s@, denom@);
            lemma_div_nonneg(f@, denom@);
            lemma_div_nonneg(SCALE as int, curve_koef@);
        }
        let pow1 = s.div(denom).pow(kinv);
        let pow2 = f.div(denom).pow(kinv);
        let rem = one.sub(pow1).sub(pow2);
        v1.scale(pow1).add(v2.scale(pow2)).add(p.scale(rem))
    }

    /// The quadratic special case of the edge curve.
    pub fn curve_sqrt(t: Fx, v1: Vec3, v2: Vec3, p: Vec3) -> (r: Vec3)
        ensures
            r@ == spec_curve_sqrt(t@, v1@, v2@, p@),
    {
        let one = Fx::one();
        let fix_t = t.clamp01();
        let ct = one.sub(fix_t);
        let s = ct.mul(ct);
        let f = fix_t.mul(fix_t);
        let denom = s.add(f);
        let pow1 = s.div(denom).sqrt();
        let pow2 = f.div(denom).sqrt();
        let rem = one.sub(pow1).sub(pow2);
        v1.scale(pow1).add(v2.scale(pow2)).add(p.scale(rem))
    }

    /// The curved-surface point for a barycentric triple on the base.
    pub fn get_surface_point_by_bary(&self, bary_of_point: Vec3) -> (r: Vec3)
        requires
            spec_koefs_pos(*self),
        ensures
            r@ == spec_surface_point_by_bary(*self, bary_of_point@),
    {
        proof {
            reveal(spec_surface_point_by_bary);
        }
        let one = Fx::one();
        let b = bary_of_point;
        let pr0 = pair_rel(b.x, one.sub(b.z));
        let pr1 = pair_rel(b.y, one.sub(b.x));
        let pr2 = pair_rel(b.z, one.sub(b.y));

        let kf0 = b.x.mul(pr1).add(b.y.mul(one.sub(pr2)));
        let kf1 = b.y.mul(pr2).add(b.z.mul(one.sub(pr0)));
        let kf2 = b.z.mul(pr0).add(b.x.mul(one.sub(pr1)));

        let c0 = CurveTriangle::curve(
            one.sub(pr0),
            self.base.vertexes[0],
            self.base.vertexes[1],
            self.pivots[0],
            self.curve_koefs[0],
        );
        let c1 = CurveTriangle::curve(
            one.sub(pr1),
            self.base.vertexes[1],
            self.base.vertexes[2],
            self.pivots[1],
            self.curve_koefs[1],
        );
        let c2 = CurveTriangle::curve(
            one.sub(pr2),
            self.base.vertexes[2],
            self.base.vertexes[0],
            self.pivots[2],
            self.curve_koefs[2],
        );

        let balanced = kf0.mul(self.curve_koefs[0]).add(kf1.mul(self.curve_koefs[1])).add(
            kf2.mul(self.curve_koefs[2]),
        );
        power_blend(c0, c1, c2, kf0, kf1, kf2, balanced)
    }

    /// The quadratic special case of the surface point.
    pub fn get_surface_point_by_bary_sqrt(&self, bary_of_point: Vec3) -> (r: Vec3)
        ensures
            r@ == spec_surface_point_by_bary_sqrt(*self, bary_of_point@),
    {
        let one = Fx::one();
        let b = bary_of_point;
        let pr0 = pair_rel(b.x, one.sub(b.z));
        let pr1 = pair_rel(b.y, one.sub(b.x));
        let pr2 = pair_rel(b.z, one.sub(b.y));

        let kf0 = b.x.mul(pr1).add(b.y.mul(one.sub(pr2)));
        let kf1 = b.y.mul(pr2).add(b.z.mul(one.sub(pr0)));
        let kf2 = b.z.mul(pr0).add(b.x.mul(one.sub(pr1)));

        let c0 = CurveTriangle::curve_sqrt(
            one.sub(pr0),
            self.base.vertexes[0],
            self.base.vertexes[1],
            self.pivots[0],
        );
        let c1 = CurveTriangle::curve_sqrt(
            one.sub(pr1),
            self.base.vertexes[1],
            self.base.vertexes[2],
            self.pivots[1],
        );
        let c2 = CurveTriangle::curve_sqrt(
            one.sub(pr2),
            self.base.vertexes[2],
            self.base.vertexes[0],
            self.pivots[2],
        );

        let two = Fx::from_int(2);
        let balanced = kf0.mul(two).add(kf1.mul(two)).add(kf2.mul(two));
        power_blend(c0, c1, c2, kf0, kf1, kf2, balanced)
    }

    /// The curved-surface point for a raw point on or near the base
    /// plane: its barycentric projection, then the surface evaluation.
    pub fn get_surface_point(&self, point_on_base: Vec3) -> (r: Vec3)
        requires
            spec_koefs_pos(*self),
        ensures
            r@ == spec_surface_point(*self, point_on_base@),
    {
        proof {
            reveal(spec_surface_point);
        }
        self.get_surface_point_by_bary(self.base.get_bary(point_on_base))
    }
}

/// A shell point: the corner vertex reflected through its pivot.
pub open spec fn spec_shell_point(v: (int, int, int), p: (int, int, int)) -> (int, int, int) {
    spec_v3_sub(spec_v3_add(v, v), p)
}

/// The root point: the centroid of the three pivots.
pub open spec fn spec_root_point(
    p0: (int, int, int),
    p1: (int, int, int),
    p2: (int, int, int),
) -> (int, int, int) {
    let s = spec_v3_add(spec_v3_add(p0, p1), p2);
    let three = 3 * SCALE as int;
    (spec_div(s.0, three), spec_div(s.1, three), spec_div(s.2, three))
}

/// The coarse bounding helper point opposite the root: the vertex sum
/// minus twice the root point.
pub open spec fn spec_opposite_root(
    v0: (int, int, int),
    v1: (int, int, int),
    v2: (int, int, int),
    root: (int, int, int),
) -> (int, int, int) {
    spec_v3_sub(spec_v3_add(spec_v3_add(v0, v1), v2), spec_v3_scale(root, 2 * SCALE as int))
}

/// The radial distance field along the ray at parameter `t`: the ray
/// point's distance from the root point, minus the distance from the
/// root of the surface point lying in the same direction from the
/// root. Positive means the ray point is outside the curved volume at
/// that angular position, negative inside.
#[verifier::opaque]
pub open spec fn spec_intersect_step(ct: CurveTriangle, t: int, ray: Ray) -> int {
    let pnt = spec_ray_point(ray, t);
    let sdir = spec_v3_normalize(spec_v3_sub(ct.root_point@, pnt));
    let bary = match spec_tri_intersect_v(
        ct.base.vertexes[0]@,
        ct.base.vertexes[1]@,
        ct.base.vertexes[2]@,
        pnt,
        sdir,
    ) {
        Ok((tv, bb)) => bb,
        Err(bb) => bb,
    };
    let sp = spec_surface_point_by_bary(ct, bary);
    spec_sub(
        spec_v3_mag(spec_v3_sub(pnt, ct.root_point@)),
        spec_v3_mag(spec_v3_sub(sp, ct.root_point@)),
    )
}

/// One bisection-with-fallback step on the search state
/// `(t_start, t_end, start_field, end_field, crossing_seen)`: the
/// midpoint replaces whichever end keeps a sign change inside the
/// bracket, and when no sign change shows, the end with the larger
/// field magnitude is replaced without marking a crossing.
pub open spec fn spec_search_step(ct: CurveTriangle, ray: Ray, st: (int, int, int, int, bool)) -> (
    int,
    int,
    int,
    int,
    bool,
) {
    let tm = spec_mul(spec_add(st.0, st.1), 32768);
    let m = spec_intersect_step(ct, tm, ray);
    if (st.2 < 0) != (m < 0) {
        (st.0, tm, st.2, m, true)
    } else if (m < 0) != (st.3 < 0) {
        (tm, st.1, m, st.3, true)
    } else if crate::fx::iabs(st.2) < crate::fx::iabs(st.3) {
        (st.0, tm, st.2, m, st.4)
    } else {
        (tm, st.1, m, st.3, st.4)
    }
}

/// `n` bisection-with-fallback steps.
pub open spec fn spec_search_iter(
    ct: CurveTriangle,
    ray: Ray,
    st: (int, int, int, int, bool),
    n: nat,
) -> (int, int, int, int, bool)
    decreases n,
{
    if n == 0 {
        st
    } else {
        spec_search_step(ct, ray, spec_search_iter(ct, ray, st, (n - 1) as nat))
    }
}

/// One pure-bisection refinement step on `(t_start, t_end,
/// start_field)` within a sign-bracketing interval.
pub open spec fn spec_refine_step(ct: CurveTriangle, ray: Ray, st: (int, int, int)) -> (
    int,
    int,
    int,
) {
    let tm = spec_mul(spec_add(st.0, st.1), 32768);
    let m = spec_intersect_step(ct, tm, ray);
    if (st.2 < 0) != (m < 0) {
        (st.0, tm, st.2)
    } else {
        (tm, st.1, m)
    }
}

/// `n` pure-bisection refinement steps.
pub open spec fn spec_refine_iter(ct: CurveTriangle, ray: Ray, st: (int, int, int), n: nat) -> (
    int,
    int,
    int,
)
    decreases n,
{
    if n == 0 {
        st
    } else {
        spec_refine_step(ct, ray, spec_refine_iter(ct, ray, st, (n - 1) as nat))
    }
}

/// The full ray/patch intersection: bracket from the shell, five
/// bisection-with-fallback steps, three refinement steps, then the
/// final midpoint projected through the root onto the base triangle.
pub open spec fn spec_curve_intersect(ct: CurveTriangle, ray: Ray) -> Result<
    (int, (int, int, int)),
    IntersectionError,
> {
    let sl = spec_shell_slice(ct.tr_shell->0, ray);
    if sl.0 < 0 {
        Err(IntersectionError::BehindRay)
    } else {
        let st0 = (
            sl.0,
            sl.1,
            spec_intersect_step(ct, sl.0, ray),
            spec_intersect_step(ct, sl.1, ray),
            false,
        );
        let st5 = spec_search_iter(ct, ray, st0, 5);
        if !st5.4 {
            Err(IntersectionError::NoIntersections)
        } else {
            let rf = spec_refine_iter(ct, ray, (st5.0, st5.1, st5.2), 3);
            let tm = spec_mul(spec_add(rf.0, rf.1), 32768);
            let pnt = spec_ray_point(ray, tm);
            let sdir = spec_v3_normalize(spec_v3_sub(ct.root_point@, pnt));
            match spec_tri_intersect_v(
                ct.base.vertexes[0]@,
                ct.base.vertexes[1]@,
                ct.base.vertexes[2]@,
                pnt,
                sdir,
            ) {
                Ok((t2, bb)) => Ok((tm, bb)),
                Err(bb) => Err(IntersectionError::CantSubrayBase),
            }
        }
    }
}

impl CurveTriangle {
    /// Builds a patch from its base triangle, pivots and curvature
    /// exponents, deriving the shell points, the root point, the
    /// opposite-root helper and the bounding shell.
    pub fn new(triangle: Triangle, pivots: [Vec3; 3], curve_koefs: [Fx; 3]) -> (r: CurveTriangle)
        requires
            curve_koefs[0]@ > 0,
            curve_koefs[1]@ > 0,
            curve_koefs[2]@ > 0,
        ensures
            r.base == triangle,
            r.pivots == pivots,
            r.curve_koefs == curve_koefs,
            r.shell_points[0]@ == spec_shell_point(triangle.vertexes[0]@, pivots[0]@),
            r.shell_points[1]@ == spec_shell_point(triangle.vertexes[1]@, pivots[1]@),
            r.shell_points[2]@ == spec_shell_point(triangle.vertexes[2]@, pivots[2]@),
            r.root_point@ == spec_root_point(pivots[0]@, pivots[1]@, pivots[2]@),
            r.opposite_root@ == spec_opposite_root(
                triangle.vertexes[0]@,
                triangle.vertexes[1]@,
                triangle.vertexes[2]@,
                r.root_point@,
            ),
            r.triangulation@.len() == 0,
            r.bhv_node_index == 0,
            r.tr_shell is Some,
            (r.tr_shell->0).triangles[0] == (Triangle {
                vertexes: [r.shell_points[0], r.shell_points[1], r.shell_points[2]],
                bhv_node_index: 0,
            }),
            (r.tr_shell->0).triangles[1] == (Triangle {
                vertexes: [r.root_point, r.shell_points[0], r.shell_points[1]],
                bhv_node_index: 0,
            }),
            (r.tr_shell->0).triangles[2] == (Triangle {
                vertexes: [r.root_point, r.shell_points[1], r.shell_points[2]],
                bhv_node_index: 0,
            }),
            (r.tr_shell->0).triangles[3] == (Triangle {
                vertexes: [r.root_point, r.shell_points[2], r.shell_points[0]],
                bhv_node_index: 0,
            }),
    {
        let shell_points = [
            triangle.vertexes[0].add(triangle.vertexes[0]).sub(pivots[0]),
            triangle.vertexes[1].add(triangle.vertexes[1]).sub(pivots[1]),
            triangle.vertexes[2].add(triangle.vertexes[2]).sub(pivots[2]),
        ];
        let root_point = pivots[0].add(pivots[1]).add(pivots[2]).div_s(Fx::from_int(3));
        let opposite_root = triangle.vertexes[0].add(triangle.vertexes[1]).add(
            triangle.vertexes[2],
        ).sub(root_point.scale(Fx::from_int(2)));

        let mut ct = CurveTriangle {
            base: triangle,
            pivots,
            curve_koefs,
            root_point,
            shell_points,
            opposite_root,
            triangulation: Vec::new(),
            tr_shell: None,
            bhv_node_index: 0,
        };
        ct.precalc_triangle_shell();
        ct
    }

    /// Rebuilds the bounding shell from the current shell points and
    /// root point: the cap triangle over the three shell points, and
    /// three wings connecting the root point to adjacent shell points.
    pub fn precalc_triangle_shell(&mut self)
        ensures
            final(self).base == old(self).base,
            final(self).pivots == old(self).pivots,
            final(self).curve_koefs == old(self).curve_koefs,
            final(self).root_point == old(self).root_point,
            final(self).shell_points == old(self).shell_points,
            final(self).opposite_root == old(self).opposite_root,
            final(self).triangulation == old(self).triangulation,
            final(self).bhv_node_index == old(self).bhv_node_index,
            final(self).tr_shell is Some,
            (final(self).tr_shell->0).triangles[0] == (Triangle {
                vertexes: [
                    old(self).shell_points[0],
                    old(self).shell_points[1],
                    old(self).shell_points[2],
                ],
                bhv_node_index: 0,
            }),
            (final(self).tr_shell->0).triangles[1] == (Triangle {
                vertexes: [old(self).root_point, old(self).shell_points[0], old(self).shell_points[1]],
                bhv_node_index: 0,
            }),
            (final(self).tr_shell->0).triangles[2] == (Triangle {
                vertexes: [old(self).root_point, old(self).shell_points[1], old(self).shell_points[2]],
                bhv_node_index: 0,
            }),
            (final(self).tr_shell->0).triangles[3] == (Triangle {
                vertexes: [old(self).root_point, old(self).shell_points[2], old(self).shell_points[0]],
                bhv_node_index: 0,
            }),
    {
        self.tr_shell = Some(
            TriangleShell {
                triangles: [
                    Triangle::new(
                        [self.shell_points[0], self.shell_points[1], self.shell_points[2]],
                    ),
                    Triangle::new([self.root_point, self.shell_points[0], self.shell_points[1]]),
                    Triangle::new([self.root_point, self.shell_points[1], self.shell_points[2]]),
                    Triangle::new([self.root_point, self.shell_points[2], self.shell_points[0]]),
                ],
            },
        );
    }

    /// The radial distance field along the ray at parameter `t`.
    pub fn intersect_step(&self, t: Fx, ray: &Ray) -> (r: Fx)
        requires
            spec_koefs_pos(*self),
        ensures
            r@ == spec_intersect_step(*self, t@, *ray),
    {
        proof {
            reveal(spec_intersect_step);
        }
        let point_on_ray = ray.get_point(t);
        let sub_ray = Ray {
            origin: point_on_ray,
            direction: self.root_point.sub(point_on_ray).normalize(),
        };
        let bary = match self.base.intersect(&sub_ray) {
            Ok((_t2, res)) => res,
            Err(res) => res,
        };
        let point_on_surface = self.get_surface_point_by_bary(bary);
        point_on_ray.sub(self.root_point).magnitude().sub(
            point_on_surface.sub(self.root_point).magnitude(),
        )
    }

    /// Casts a ray against the curved patch. The shell brackets the
    /// ray parameter; five bisection-with-fallback steps look for a
    /// sign change of the radial distance field, three pure bisection
    /// steps refine it, and the final midpoint is projected through
    /// the root point back onto the base triangle. Fails with
    /// `BehindRay` exactly when the shell bracket starts behind the
    /// origin, with `NoIntersections` when no sign change was seen,
    /// and with `CantSubrayBase` when the crossing's projection falls
    /// outside the base; an `Ok` barycentric triple lies in `[0, 1]`
    /// and sums exactly to one.
    pub fn intersect(&self, ray: &Ray) -> (r: Result<(Fx, Vec3), IntersectionError>)
        requires
            self.tr_shell is Some,
            spec_koefs_pos(*self),
        ensures
            match r {
                Ok((rt, rb)) => {
                    &&& spec_curve_intersect(*self, *ray) == Ok::<(int, (int, int, int)),
                    IntersectionError>((rt@, rb@))
                    &&& 0 <= rb@.0 <= SCALE as int
                    &&& 0 <= rb@.1 <= SCALE as int
                    &&& 0 <= rb@.2 <= SCALE as int
                    &&& rb@.0 + rb@.1 + rb@.2 == SCALE as int
                },
                Err(e) => spec_curve_intersect(*self, *ray) == Err::<(int, (int, int, int)),
                IntersectionError>(e),
            },
            (spec_shell_slice(self.tr_shell->0, *ray).0 < 0) <==> (r == Err::<(Fx, Vec3),
            IntersectionError>(IntersectionError::BehindRay)),
    {
        let sh = self.tr_shell.as_ref().unwrap();
        let (mut t_start, mut t_end) = sh.get_slice_for_ray(ray);
        if t_start.is_neg() {
            return Err(IntersectionError::BehindRay);
        }

        let mut start_sdf = self.intersect_step(t_start, ray);
        let mut end_sdf = self.intersect_step(t_end, ray);
        let mut is_intersected = false;
        let ghost st0 = (t_start@, t_end@, start_sdf@, end_sdf@, false);

        let mut i: usize = 0;
        while i < 5
            invariant
                i <= 5,
                spec_koefs_pos(*self),
                (t_start@, t_end@, start_sdf@, end_sdf@, is_intersected) == spec_search_iter(
                    *self,
                    *ray,
                    st0,
                    i as nat,
                ),
            decreases 5 - i,
        {
            let t_middle = t_start.add(t_end).mul(Fx::half());
            let middle_sdf = self.intersect_step(t_middle, ray);
            if start_sdf.is_neg() != middle_sdf.is_neg() {
                t_end = t_middle;
                end_sdf = middle_sdf;
                is_intersected = true;
            } else if middle_sdf.is_neg() != end_sdf.is_neg() {
                t_start = t_middle;
                start_sdf = middle_sdf;
                is_intersected = true;
            } else {
                if start_sdf.abs().lt(end_sdf.abs()) {
                    t_end = t_middle;
                    end_sdf = middle_sdf;
                } else {
                    t_start = t_middle;
                    start_sdf = middle_sdf;
                }
            }
            i = i + 1;
        }

        if !is_intersected {
            return Err(IntersectionError::NoIntersections);
        }

        let ghost rf0 = (t_start@, t_end@, start_sdf@);
        let mut j: usize = 0;
        while j < 3
            invariant
                j <= 3,
                spec_koefs_pos(*self),
                (t_start@, t_end@, start_sdf@) == spec_refine_iter(*self, *ray, rf0, j as nat),
            decreases 3 - j,
        {
            let t_middle = t_start.add(t_end).mul(Fx::half());
            let middle_sdf = self.intersect_step(t_middle, ray);
            if start_sdf.is_neg() != middle_sdf.is_neg() {
                t_end = t_middle;
            } else {
                t_start = t_middle;
                start_sdf = middle_sdf;
            }
            j = j + 1;
        }

        let t_middle = t_start.add(t_end).mul(Fx::half());
        let point = ray.get_point(t_middle);

        match self.base.intersect(
            &Ray { origin: point, direction: self.root_point.sub(point).normalize() },
        ) {
            Ok((_t2, barri)) => Ok((t_middle, barri)),
            Err(_b) => Err(IntersectionError::CantSubrayBase),
        }
    }

    /// Appends a flat-triangle approximation of the curved surface at
    /// subdivision depth `accuracy` to the patch's triangulation: a
    /// triangular grid over the base's barycentric domain, each grid
    /// vertex evaluated on the true surface, rows connected into
    /// `accuracy * accuracy` triangles. Repeated calls append further
    /// subdivisions; nothing else about the patch changes.
    pub fn triangulate(&mut self, accuracy: i32)
        requires
            spec_koefs_pos(*old(self)),
            0 <= accuracy < 0x7fff_ffff,
        ensures
            final(self).triangulation@.len() == old(self).triangulation@.len() + (accuracy as int)
                * (accuracy as int),
            forall|q: int|
                0 <= q < old(self).triangulation@.len() ==> final(self).triangulation@[q] == old(
                    self,
                ).triangulation@[q],
            forall|q: int|
                old(self).triangulation@.len() <= q < final(self).triangulation@.len()
                    ==> spec_grid_surface_tri(
                    *old(self),
                    #[trigger] final(self).triangulation@[q],
                    accuracy as int,
                ),
            final(self).base == old(self).base,
            final(self).pivots == old(self).pivots,
            final(self).curve_koefs == old(self).curve_koefs,
            final(self).root_point == old(self).root_point,
            final(self).shell_points == old(self).shell_points,
            final(self).opposite_root == old(self).opposite_root,
            final(self).tr_shell == old(self).tr_shell,
            final(self).bhv_node_index == old(self).bhv_node_index,
    {
        let ghost old_tri = self.triangulation@;
        let mut line_size: usize = 1;
        let mut previous_points: Vec<Vec3> = Vec::new();
        previous_points.push(self.base.vertexes[1]);

        let mut major_step: i32 = 1;
        while major_step <= accuracy
            invariant
                spec_koefs_pos(*self),
                1 <= major_step <= accuracy + 1,
                accuracy < 0x7fff_ffff,
                line_size as int == major_step as int,
                previous_points@.len() == line_size,
                forall|j: int|
                    0 <= j < line_size ==> (#[trigger] previous_points@[j])@ == spec_grid_node(
                        *old(self),
                        major_step - 1,
                        j,
                        accuracy as int,
                    ),
                self.triangulation@.len() == old_tri.len() + (major_step - 1) * (major_step - 1),
                forall|q: int| 0 <= q < old_tri.len() ==> self.triangulation@[q] == old_tri[q],
                forall|q: int|
                    old_tri.len() <= q < self.triangulation@.len() ==> spec_grid_surface_tri(
                        *old(self),
                        #[trigger] self.triangulation@[q],
                        accuracy as int,
                    ),
                self.base == old(self).base,
                self.pivots == old(self).pivots,
                self.curve_koefs == old(self).curve_koefs,
                self.root_point == old(self).root_point,
                self.shell_points == old(self).shell_points,
                self.opposite_root == old(self).opposite_root,
                self.tr_shell == old(self).tr_shell,
                self.bhv_node_index == old(self).bhv_node_index,
            decreases accuracy + 1 - major_step,
        {
            let major_interp = Fx::from_int(major_step).div(Fx::from_int(accuracy));
            let left_point = self.base.vertexes[1].lerp(self.base.vertexes[0], major_interp);
            let right_point = self.base.vertexes[1].lerp(self.base.vertexes[2], major_interp);

            let mut current_points: Vec<Vec3> = Vec::new();
            current_points.push(left_point);
            let ghost row_start = self.triangulation@.len();

            let mut minor_step: usize = 1;
            while minor_step <= line_size
                invariant
                    spec_koefs_pos(*self),
                    1 <= minor_step <= line_size + 1,
                    line_size as int == major_step as int,
                    1 <= major_step <= accuracy,
                    accuracy < 0x7fff_ffff,
                    previous_points@.len() == line_size,
                    current_points@.len() == minor_step,
                    left_point@ == spec_v3_lerp(
                        old(self).base.vertexes[1]@,
                        old(self).base.vertexes[0]@,
                        spec_div(
                            sat((major_step as int) * (SCALE as int)),
                            sat((accuracy as int) * (SCALE as int)),
                        ),
                    ),
                    right_point@ == spec_v3_lerp(
                        old(self).base.vertexes[1]@,
                        old(self).base.vertexes[2]@,
                        spec_div(
                            sat((major_step as int) * (SCALE as int)),
                            sat((accuracy as int) * (SCALE as int)),
                        ),
                    ),
                    forall|j: int|
                        0 <= j < line_size ==> (#[trigger] previous_points@[j])@ == spec_grid_node(
                            *old(self),
                            major_step - 1,
                            j,
                            accuracy as int,
                        ),
                    forall|j: int|
                        0 <= j < minor_step ==> (#[trigger] current_points@[j])@ == spec_grid_node(
                            *old(self),
                            major_step as int,
                            j,
                            accuracy as int,
                        ),
                    self.triangulation@.len() == row_start + (if minor_step == 1 {
                        0int
                    } else {
                        2 * minor_step - 3
                    }),
                    forall|q: int| 0 <= q < old_tri.len() ==> self.triangulation@[q] == old_tri[q],
                    forall|q: int|
                        old_tri.len() <= q < self.triangulation@.len() ==> spec_grid_surface_tri(
                            *old(self),
                            #[trigger] self.triangulation@[q],
                            accuracy as int,
                        ),
                    row_start >= old_tri.len(),
                    self.base == old(self).base,
                    self.pivots == old(self).pivots,
                    self.curve_koefs == old(self).curve_koefs,
                    self.root_point == old(self).root_point,
                    self.shell_points == old(self).shell_points,
                    self.opposite_root == old(self).opposite_root,
                    self.tr_shell == old(self).tr_shell,
                    self.bhv_node_index == old(self).bhv_node_index,
                decreases line_size + 1 - minor_step,
            {
                let minor_interp = Fx::from_int(minor_step as i32).div(
                    Fx::from_int(line_size as i32),
                );
                let next_point = left_point.lerp(right_point, minor_interp);
                proof {
                    assert(next_point@ == spec_grid_node(
                        *old(self),
                        major_step as int,
                        minor_step as int,
                        accuracy as int,
                    ));
                }

                let sp_prev = self.get_surface_point(previous_points[minor_step - 1]);
                let sp_cur = self.get_surface_point(current_points[minor_step - 1]);
                let sp_next = self.get_surface_point(next_point);
                let tri_a = Triangle::new([sp_prev, sp_cur, sp_next]);
                proof {
                    lemma_surface_point_geometry(
                        *self,
                        *old(self),
                        previous_points@[minor_step - 1]@,
                    );
                    lemma_surface_point_geometry(
                        *self,
                        *old(self),
                        current_points@[minor_step - 1]@,
                    );
                    lemma_surface_point_geometry(*self, *old(self), next_point@);
                    assert(tri_a.vertexes[0]@ == spec_grid_surface(
                        *old(self),
                        major_step - 1,
                        minor_step - 1,
                        accuracy as int,
                    ));
                    assert(tri_a.vertexes[1]@ == spec_grid_surface(
                        *old(self),
                        major_step as int,
                        minor_step - 1,
                        accuracy as int,
                    ));
                    assert(tri_a.vertexes[2]@ == spec_grid_surface(
                        *old(self),
                        major_step as int,
                        minor_step as int,
                        accuracy as int,
                    ));
                    assert(spec_grid_surface_tri(*old(self), tri_a, accuracy as int));
                }
                self.triangulation.push(tri_a);

                if minor_step > 1 {
                    let sp_a = self.get_surface_point(previous_points[minor_step - 2]);
                    let sp_b = self.get_surface_point(previous_points[minor_step - 1]);
                    let sp_c = self.get_surface_point(current_points[minor_step - 1]);
                    let tri_b = Triangle::new([sp_a, sp_b, sp_c]);
                    proof {
                        lemma_surface_point_geometry(
                            *self,
                            *old(self),
                            previous_points@[minor_step - 2]@,
                        );
                        lemma_surface_point_geometry(
                            *self,
                            *old(self),
                            previous_points@[minor_step - 1]@,
                        );
                        lemma_surface_point_geometry(
                            *self,
                            *old(self),
                            current_points@[minor_step - 1]@,
                        );
                        assert(tri_b.vertexes[0]@ == spec_grid_surface(
                            *old(self),
                            major_step - 1,
                            minor_step - 2,
                            accuracy as int,
                        ));
                        assert(tri_b.vertexes[1]@ == spec_grid_surface(
                            *old(self),
                            major_step - 1,
                            minor_step - 1,
                            accuracy as int,
                        ));
                        assert(tri_b.vertexes[2]@ == spec_grid_surface(
                            *old(self),
                            major_step as int,
                            minor_step - 1,
                            accuracy as int,
                        ));
                        assert(spec_grid_surface_tri(*old(self), tri_b, accuracy as int));
                    }
                    self.triangulation.push(tri_b);
                }

                current_points.push(next_point);
                minor_step = minor_step + 1;
            }

            proof {
                assert((major_step - 1) * (major_step - 1) + 2 * (major_step as int) - 1 == (
                major_step as int) * (major_step as int)) by (nonlinear_arith);
            }
            previous_points = current_points;
            line_size = line_size + 1;
            major_step = major_step + 1;
        }
    }

    /// A conservative axis-aligned box over the base corners and the
    /// opposite-root helper point, which stands in for the outward
    /// bulge; a loose bound, not a tight one.
    pub fn aabb(&self) -> (r: crate::aabb::AABBox)
        ensures
            r.min_x@ == crate::aabb::imin(
                crate::aabb::min3(
                    self.base.vertexes[0]@.0,
                    self.base.vertexes[1]@.0,
                    self.base.vertexes[2]@.0,
                ),
                self.opposite_root@.0,
            ),
            r.max_x@ == crate::aabb::imax(
                crate::aabb::max3(
                    self.base.vertexes[0]@.0,
                    self.base.vertexes[1]@.0,
                    self.base.vertexes[2]@.0,
                ),
                self.opposite_root@.0,
            ),
            r.min_y@ == crate::aabb::imin(
                crate::aabb::min3(
                    self.base.vertexes[0]@.1,
                    self.base.vertexes[1]@.1,
                    self.base.vertexes[2]@.1,
                ),
                self.opposite_root@.1,
            ),
            r.max_y@ == crate::aabb::imax(
                crate::aabb::max3(
                    self.base.vertexes[0]@.1,
                    self.base.vertexes[1]@.1,
                    self.base.vertexes[2]@.1,
                ),
                self.opposite_root@.1,
            ),
            r.min_z@ == crate::aabb::imin(
                crate::aabb::min3(
                    self.base.vertexes[0]@.2,
                    self.base.vertexes[1]@.2,
                    self.base.vertexes[2]@.2,
                ),
                self.opposite_root@.2,
            ),
            r.max_z@ == crate::aabb::imax(
                crate::aabb::max3(
                    self.base.vertexes[0]@.2,
                    self.base.vertexes[1]@.2,
                    self.base.vertexes[2]@.2,
                ),
                self.opposite_root@.2,
            ),
    {
        let v0 = self.base.vertexes[0];
        let v1 = self.base.vertexes[1];
        let v2 = self.base.vertexes[2];
        let o = self.opposite_root;
        crate::aabb::AABBox {
            min_x: v0.x.min(v1.x).min(v2.x).min(o.x),
            max_x: v0.x.max(v1.x).max(v2.x).max(o.x),
            min_y: v0.y.min(v1.y).min(v2.y).min(o.y),
            max_y: v0.y.max(v1.y).max(v2.y).max(o.y),
            min_z: v0.z.min(v1.z).min(v2.z).min(o.z),
            max_z: v0.z.max(v1.z).max(v2.z).max(o.z),
        }
    }

    /// Stores the external hierarchy's node index for this patch.
    pub fn set_bh_node_index(&mut self, index: usize)
        ensures
            final(self).bhv_node_index == index,
            final(self).base == old(self).base,
            final(self).pivots == old(self).pivots,
            final(self).curve_koefs == old(self).curve_koefs,
            final(self).root_point == old(self).root_point,
            final(self).shell_points == old(self).shell_points,
            final(self).opposite_root == old(self).opposite_root,
            final(self).triangulation == old(self).triangulation,
            final(self).tr_shell == old(self).tr_shell,
    {
        self.bhv_node_index = index;
    }

    /// Reads the external hierarchy's node index for this patch.
    pub fn bh_node_index(&self) -> (r: usize)
        ensures
            r == self.bhv_node_index,
    {
        self.bhv_node_index
    }
}

/// An exponent of exactly two turns the general edge curve into the
/// quadratic square-root blend.
pub proof fn lemma_curve_quadratic(
    t: int,
    v1: (int, int, int),
    v2: (int, int, int),
    pv: (int, int, int),
)
    ensures
        spec_curve(t, v1, v2, pv, 2 * SCALE as int) == spec_curve_sqrt(t, v1, v2, pv),
{
    let ft = spec_clamp01(t);
    let ct_ = spec_sub(SCALE as int, ft);
    crate::fx::lemma_pow_two_is_square(ct_);
    crate::fx::lemma_pow_two_is_square(ft);
    let s = spec_mul(ct_, ct_);
    let f = spec_mul(ft, ft);
    let denom = spec_add(s, f);
    crate::fx::lemma_mul_nonneg(ct_, ct_);
    crate::fx::lemma_mul_nonneg(ft, ft);
    lemma_div_nonneg(s, denom);
    lemma_div_nonneg(f, denom);
    vstd::arithmetic::div_mod::lemma_div_multiples_vanish(32768, 2 * SCALE as int);
    assert((SCALE as int) * (SCALE as int) == (2 * SCALE as int) * 32768) by (nonlinear_arith);
    assert(spec_div(SCALE as int, 2 * SCALE as int) == 32768);
    crate::fx::lemma_pow_half_is_sqrt(spec_div(s, denom));
    crate::fx::lemma_pow_half_is_sqrt(spec_div(f, denom));
}

/// Quadratic exponents on all three edges make the general surface
/// evaluation agree exactly with its square-root special case.
pub proof fn lemma_surface_quadratic(ct: CurveTriangle, b: (int, int, int))
    requires
        ct.curve_koefs[0]@ == 2 * SCALE as int,
        ct.curve_koefs[1]@ == 2 * SCALE as int,
        ct.curve_koefs[2]@ == 2 * SCALE as int,
    ensures
        spec_surface_point_by_bary(ct, b) == spec_surface_point_by_bary_sqrt(ct, b),
{
    reveal(spec_surface_point_by_bary);
    let pr = spec_pair_relations(b);
    lemma_curve_quadratic(
        spec_sub(SCALE as int, pr.0),
        ct.base.vertexes[0]@,
        ct.base.vertexes[1]@,
        ct.pivots[0]@,
    );
    lemma_curve_quadratic(
        spec_sub(SCALE as int, pr.1),
        ct.base.vertexes[1]@,
        ct.base.vertexes[2]@,
        ct.pivots[1]@,
    );
    lemma_curve_quadratic(
        spec_sub(SCALE as int, pr.2),
        ct.base.vertexes[2]@,
        ct.base.vertexes[0]@,
        ct.pivots[2]@,
    );
}

/// No false hits: a patch intersection comes back `Ok` only when the
/// shell bracket starts in front of the origin and the search actually
/// observed a sign change of the radial field inside it; a bracket
/// behind the origin yields `BehindRay` and nothing else does.
pub proof fn lemma_no_false_hit(ct: CurveTriangle, ray: Ray)
    requires
        ct.tr_shell is Some,
    ensures
        spec_curve_intersect(ct, ray) is Ok ==> {
            let sl = spec_shell_slice(ct.tr_shell->0, ray);
            let st0 = (
                sl.0,
                sl.1,
                spec_intersect_step(ct, sl.0, ray),
                spec_intersect_step(ct, sl.1, ray),
                false,
            );
            sl.0 >= 0 && spec_search_iter(ct, ray, st0, 5).4
        },
        (spec_shell_slice(ct.tr_shell->0, ray).0 < 0) <==> (spec_curve_intersect(ct, ray) == Err::<
            (int, (int, int, int)),
            IntersectionError,
        >(IntersectionError::BehindRay)),
{
}

/// The edge curve starts exactly at its start vertex: `t = 0` gives
/// `v1`, whatever the exponent.
pub proof fn lemma_curve_t0(v1: (int, int, int), v2: (int, int, int), pv: (int, int, int), k: int)
    requires
        spec_v3_inv(v1),
    ensures
        spec_curve(0, v1, v2, pv, k) == v1,
{
    lemma_div_self(SCALE as int);
    lemma_div_zero(SCALE as int);
    lemma_mul_one(v1.0);
    lemma_mul_one(v1.1);
    lemma_mul_one(v1.2);
    lemma_mul_zero(v2.0);
    lemma_mul_zero(v2.1);
    lemma_mul_zero(v2.2);
    lemma_mul_zero(pv.0);
    lemma_mul_zero(pv.1);
    lemma_mul_zero(pv.2);
}

/// The edge curve ends exactly at its end vertex: `t = 1` gives `v2`,
/// whatever the exponent.
pub proof fn lemma_curve_t1(v1: (int, int, int), v2: (int, int, int), pv: (int, int, int), k: int)
    requires
        spec_v3_inv(v2),
    ensures
        spec_curve(SCALE as int, v1, v2, pv, k) == v2,
{
    lemma_div_self(SCALE as int);
    lemma_div_zero(SCALE as int);
    lemma_mul_one(v2.0);
    lemma_mul_one(v2.1);
    lemma_mul_one(v2.2);
    lemma_mul_zero(v1.0);
    lemma_mul_zero(v1.1);
    lemma_mul_zero(v1.2);
    lemma_mul_zero(pv.0);
    lemma_mul_zero(pv.1);
    lemma_mul_zero(pv.2);
}

/// The surface interpolates the base corners: the first corner's
/// barycentric basis triple evaluates to exactly the first vertex.
pub proof fn lemma_surface_corner0(ct: CurveTriangle)
    requires
        spec_v3_inv(ct.base.vertexes[0]@),
    ensures
        spec_surface_point_by_bary(ct, (SCALE as int, 0int, 0int)) == ct.base.vertexes[0]@,
{
    reveal(spec_surface_point_by_bary);
    let b = (SCALE as int, 0int, 0int);
    lemma_div_self(SCALE as int);
    lemma_div_zero(SCALE as int);
    lemma_mul_one(SCALE as int);
    lemma_mul_zero(SCALE as int);
    lemma_mul_zero(spec_pair_relations(b).0);
    lemma_mul_zero(spec_pair_relations(b).1);
    lemma_mul_zero(spec_pair_relations(b).2);
    lemma_mul_zero(spec_sub(SCALE as int, spec_pair_relations(b).0));
    lemma_mul_zero(spec_sub(SCALE as int, spec_pair_relations(b).2));
    assert(spec_pair_relations(b) == (SCALE as int, SCALE as int, 0int));
    assert(spec_koefs(b, (SCALE as int, SCALE as int, 0int)) == (SCALE as int, 0int, 0int));
    lemma_curve_t0(ct.base.vertexes[0]@, ct.base.vertexes[1]@, ct.pivots[0]@, ct.curve_koefs[0]@);
}

/// The second corner's barycentric basis triple evaluates to exactly
/// the second vertex.
pub proof fn lemma_surface_corner1(ct: CurveTriangle)
    requires
        spec_v3_inv(ct.base.vertexes[1]@),
    ensures
        spec_surface_point_by_bary(ct, (0int, SCALE as int, 0int)) == ct.base.vertexes[1]@,
{
    reveal(spec_surface_point_by_bary);
    let b = (0int, SCALE as int, 0int);
    lemma_div_self(SCALE as int);
    lemma_div_zero(SCALE as int);
    lemma_mul_one(SCALE as int);
    lemma_mul_zero(SCALE as int);
    lemma_mul_zero(spec_pair_relations(b).0);
    lemma_mul_zero(spec_pair_relations(b).1);
    lemma_mul_zero(spec_pair_relations(b).2);
    lemma_mul_zero(spec_sub(SCALE as int, spec_pair_relations(b).1));
    lemma_mul_zero(spec_sub(SCALE as int, spec_pair_relations(b).0));
    assert(spec_pair_relations(b) == (0int, SCALE as int, SCALE as int));
    assert(spec_koefs(b, (0int, SCALE as int, SCALE as int)) == (0int, SCALE as int, 0int));
    lemma_curve_t0(ct.base.vertexes[1]@, ct.base.vertexes[2]@, ct.pivots[1]@, ct.curve_koefs[1]@);
}

/// The third corner's barycentric basis triple evaluates to exactly the
/// third vertex.
pub proof fn lemma_surface_corner2(ct: CurveTriangle)
    requires
        spec_v3_inv(ct.base.vertexes[2]@),
    ensures
        spec_surface_point_by_bary(ct, (0int, 0int, SCALE as int)) == ct.base.vertexes[2]@,
{
    reveal(spec_surface_point_by_bary);
    let b = (0int, 0int, SCALE as int);
    lemma_div_self(SCALE as int);
    lemma_div_zero(SCALE as int);
    lemma_mul_one(SCALE as int);
    lemma_mul_zero(SCALE as int);
    lemma_mul_zero(spec_pair_relations(b).0);
    lemma_mul_zero(spec_pair_relations(b).1);
    lemma_mul_zero(spec_pair_relations(b).2);
    lemma_mul_zero(spec_sub(SCALE as int, spec_pair_relations(b).2));
    lemma_mul_zero(spec_sub(SCALE as int, spec_pair_relations(b).1));
    assert(spec_pair_relations(b) == (SCALE as int, 0int, SCALE as int));
    assert(spec_koefs(b, (SCALE as int, 0int, SCALE as int)) == (0int, 0int, SCALE as int));
    lemma_curve_t0(ct.base.vertexes[2]@, ct.base.vertexes[0]@, ct.pivots[2]@, ct.curve_koefs[2]@);
}

} // verus!
