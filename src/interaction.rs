use vstd::prelude::*;
use crate::geometry::{Ray, Vector3};

verus! {

/// Shading geometry of a hit point: the possibly perturbed normal and its derivatives.
#[derive(Clone, Copy, Debug, PartialEq, Eq, Structural)]
pub struct Shading {
    pub n: Vector3,
    pub dndu: Vector3,
    pub dndv: Vector3,
}

/// The point where a ray meets geometry, with the handle of its compiled BSDF once there is one.
#[derive(Clone, Copy, Debug, PartialEq, Eq, Structural)]
pub struct SurfaceInteraction {
    pub p: Vector3,
    pub n: Vector3,
    pub wo: Vector3,
    pub shading: Shading,
    pub dpdx: Vector3,
    pub dpdy: Vector3,
    pub dudx: i64,
    pub dvdx: i64,
    pub dudy: i64,
    pub dvdy: i64,
    pub bsdf: Option<usize>,
}

pub open spec fn spawned(si: SurfaceInteraction, d: Vector3) -> Ray {
    Ray { o: si.p, d, differential: None }
}

impl SurfaceInteraction {
    /// A ray leaving the hit point along `d`, without a differential.
    pub fn spawn_ray(&self, d: &Vector3) -> (r: Ray)
        ensures
            r == spawned(*self, *d),
    {
        Ray { o: self.p, d: *d, differential: None }
    }
}

} // verus!
