//! Rays: an origin and a direction.
//!
//! The plane-intersection math does not require a unit direction, but
//! distance-field comparisons assume a consistent scale, so callers
//! should normalize the direction before casting.

use vstd::prelude::*;

use crate::fx::Fx;
use crate::vec3::{spec_v3_add, spec_v3_scale, Vec3};

verus! {

#[derive(Clone, Copy)]
pub struct Ray {
    pub origin: Vec3,
    pub direction: Vec3,
}

/// The ray whose origin and direction views are the given triples;
/// ghost-level constructor.
pub open spec fn ray_of(o: (int, int, int), d: (int, int, int)) -> Ray {
    Ray { origin: crate::vec3::vec3_of(o), direction: crate::vec3::vec3_of(d) }
}

/// A ray is recovered from its own views.
pub broadcast proof fn lemma_ray_of_views(r: Ray)
    ensures
        #[trigger] ray_of(r.origin@, r.direction@) == r,
{
    crate::vec3::lemma_vec3_of_view(r.origin);
    crate::vec3::lemma_vec3_of_view(r.direction);
}

/// The point `origin + t * direction`.
pub open spec fn spec_ray_point(ray: Ray, t: int) -> (int, int, int) {
    spec_v3_add(ray.origin@, spec_v3_scale(ray.direction@, t))
}

impl Ray {
    /// The point at parameter `t` along the ray.
    pub fn get_point(&self, t: Fx) -> (r: Vec3)
        ensures
            r@ == spec_ray_point(*self, t@),
    {
        self.origin.add(self.direction.scale(t))
    }
}

} // verus!
