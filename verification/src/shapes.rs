//! Authored scene geometry: walls, a box, and the eight-octant curved
//! sphere the renderer draws.

use vstd::prelude::*;

use crate::curve_triangle::{spec_koefs_pos, CurveTriangle};
use crate::fx::{Fx, SCALE};
use crate::render::spec_scene_wf;
use crate::triangle::Triangle;
use crate::vec3::Vec3;

verus! {

/// Whether patch `i` of the curved sphere has the expected octant
/// geometry: unit base vertices on the axes with signs taken from the
/// bits of `i`, zero pivots, and quadratic curvature on every edge.
pub open spec fn spec_sphere_part(ct: CurveTriangle, i: int) -> bool {
    let sx: int = if i % 2 == 0 { SCALE as int } else { -(SCALE as int) };
    let sy: int = if (i / 2) % 2 == 0 { SCALE as int } else { -(SCALE as int) };
    let sz: int = if i / 4 == 0 { SCALE as int } else { -(SCALE as int) };
    &&& ct.base.vertexes[0]@ == (sx, 0int, 0int)
    &&& ct.base.vertexes[1]@ == (0int, sy, 0int)
    &&& ct.base.vertexes[2]@ == (0int, 0int, sz)
    &&& ct.pivots[0]@ == (0int, 0int, 0int)
    &&& ct.pivots[1]@ == (0int, 0int, 0int)
    &&& ct.pivots[2]@ == (0int, 0int, 0int)
    &&& ct.curve_koefs[0]@ == 2 * SCALE as int
    &&& ct.curve_koefs[1]@ == 2 * SCALE as int
    &&& ct.curve_koefs[2]@ == 2 * SCALE as int
    &&& ct.root_point@ == (0int, 0int, 0int)
    &&& ct.tr_shell is Some
    &&& spec_koefs_pos(ct)
    &&& ct.triangulation@.len() == 0
}

/// A unit-radius sphere centred at the origin, assembled from eight
/// curved octant patches: base corners on the axes, pivots at the
/// origin, quadratic curvature.
pub fn get_curve_sphere() -> (r: Vec<CurveTriangle>)
    ensures
        r@.len() == 8,
        forall|i: int| 0 <= i < 8 ==> spec_sphere_part(#[trigger] r@[i], i),
        spec_scene_wf(r@),
{
    let mut sphere: Vec<CurveTriangle> = Vec::new();

    let mut index: usize = 0;
    while index < 8
        invariant
            index <= 8,
            sphere@.len() == index,
            forall|i: int| 0 <= i < index ==> spec_sphere_part(#[trigger] sphere@[i], i),
        decreases 8 - index,
    {
        let one = Fx::one();
        let zero = Fx::zero();
        let two = Fx::from_int(2);
        let x = if index % 2 == 0 {
            one
        } else {
            one.neg()
        };
        let y = if (index / 2) % 2 == 0 {
            one
        } else {
            one.neg()
        };
        let z = if index / 4 == 0 {
            one
        } else {
            one.neg()
        };
        let verts = [
            Vec3::new(x, zero, zero),
            Vec3::new(zero, y, zero),
            Vec3::new(zero, zero, z),
        ];
        let pivots = [Vec3::zero(), Vec3::zero(), Vec3::zero()];
        let koefs = [two, two, two];
        let sphere_part = CurveTriangle::new(Triangle::new(verts), pivots, koefs);
        proof {
            crate::fx::lemma_div_zero(3 * SCALE as int);
        }
        sphere.push(sphere_part);
        index = index + 1;
    }
    sphere
}

/// The curved sphere the authored scene draws.
pub fn get_sphere() -> (r: Vec<CurveTriangle>)
    ensures
        r@.len() == 8,
        forall|i: int| 0 <= i < 8 ==> spec_sphere_part(#[trigger] r@[i], i),
        spec_scene_wf(r@),
{
    get_curve_sphere()
}

/// One wall: a unit floor quad at height minus one, as two triangles.
pub fn get_wall() -> (r: Vec<Triangle>)
    ensures
        r@.len() == 2,
        r@[0].vertexes[0]@ == (-(SCALE as int), -(SCALE as int), -(SCALE as int)),
        r@[0].vertexes[1]@ == (SCALE as int, -(SCALE as int), -(SCALE as int)),
        r@[0].vertexes[2]@ == (SCALE as int, -(SCALE as int), SCALE as int),
        r@[1].vertexes[0]@ == (-(SCALE as int), -(SCALE as int), -(SCALE as int)),
        r@[1].vertexes[1]@ == (SCALE as int, -(SCALE as int), SCALE as int),
        r@[1].vertexes[2]@ == (-(SCALE as int), -(SCALE as int), SCALE as int),
{
    let one = Fx::one();
    let m = one.neg();
    let a = Vec3::new(m, m, m);
    let b = Vec3::new(one, m, m);
    let c = Vec3::new(one, m, one);
    let d = Vec3::new(m, m, one);
    let mut wall: Vec<Triangle> = Vec::new();
    wall.push(Triangle::new([a, b, c]));
    wall.push(Triangle::new([a, c, d]));
    wall
}

/// A half-unit box centred at the origin, as twelve triangles; every
/// vertex coordinate has magnitude one half.
pub fn get_box() -> (r: Vec<Triangle>)
    ensures
        r@.len() == 12,
        forall|i: int|
            0 <= i < 12 ==> {
                &&& crate::fx::iabs((#[trigger] r@[i]).vertexes[0]@.0) == 32768
                &&& crate::fx::iabs(r@[i].vertexes[0]@.1) == 32768
                &&& crate::fx::iabs(r@[i].vertexes[0]@.2) == 32768
                &&& crate::fx::iabs(r@[i].vertexes[1]@.0) == 32768
                &&& crate::fx::iabs(r@[i].vertexes[1]@.1) == 32768
                &&& crate::fx::iabs(r@[i].vertexes[1]@.2) == 32768
                &&& crate::fx::iabs(r@[i].vertexes[2]@.0) == 32768
                &&& crate::fx::iabs(r@[i].vertexes[2]@.1) == 32768
                &&& crate::fx::iabs(r@[i].vertexes[2]@.2) == 32768
            },
{
    let h = Fx::half();
    let m = h.neg();
    let c000 = Vec3::new(m, m, m);
    let c100 = Vec3::new(h, m, m);
    let c010 = Vec3::new(m, h, m);
    let c110 = Vec3::new(h, h, m);
    let c001 = Vec3::new(m, m, h);
    let c101 = Vec3::new(h, m, h);
    let c011 = Vec3::new(m, h, h);
    let c111 = Vec3::new(h, h, h);
    let mut bx: Vec<Triangle> = Vec::new();
    bx.push(Triangle::new([c000, c100, c110]));
    bx.push(Triangle::new([c000, c110, c010]));
    bx.push(Triangle::new([c001, c111, c101]));
    bx.push(Triangle::new([c001, c011, c111]));
    bx.push(Triangle::new([c000, c101, c100]));
    bx.push(Triangle::new([c000, c001, c101]));
    bx.push(Triangle::new([c010, c110, c111]));
    bx.push(Triangle::new([c010, c111, c011]));
    bx.push(Triangle::new([c000, c010, c011]));
    bx.push(Triangle::new([c000, c011, c001]));
    bx.push(Triangle::new([c100, c111, c110]));
    bx.push(Triangle::new([c100, c101, c111]));
    bx
}

/// The authored scene: five walls and a box as flat triangles, and
/// the curved sphere as patches.
pub fn get_scene() -> (r: (Vec<Triangle>, Vec<CurveTriangle>))
    ensures
        r.0@.len() == 22,
        r.1@.len() == 8,
        spec_scene_wf(r.1@),
{
    let mut triangles: Vec<Triangle> = Vec::new();

    let mut wall = get_wall();
    triangles.append(&mut wall);
    let mut wall = get_wall();
    triangles.append(&mut wall);
    let mut wall = get_wall();
    triangles.append(&mut wall);
    let mut wall = get_wall();
    triangles.append(&mut wall);
    let mut wall = get_wall();
    triangles.append(&mut wall);

    let mut bx = get_box();
    triangles.append(&mut bx);

    let sphere = get_sphere();
    (triangles, sphere)
}

} // verus!
