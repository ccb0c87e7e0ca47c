use vstd::prelude::*;
use crate::geometry::{Ray, Vector3};
use crate::interaction::SurfaceInteraction;
use crate::reflection::{Bsdf, Bxdf, Fresnel, TransportMode, TrowbridgeReitz};
use crate::spectrum::Spectrum;

verus! {

/// `b` extends `a`: every entry of `a` stays where it was.
pub open spec fn keeps<T>(a: Seq<T>, b: Seq<T>) -> bool {
    a.len() <= b.len() && b.subrange(0, a.len() as int) == a
}

/// Every lobe index of the BSDF is below `n`.
pub open spec fn lobes_in(b: Bsdf, n: nat) -> bool {
    forall|j: int| 0 <= j < b.bxdfs@.len() ==> (#[trigger] b.bxdfs@[j]) < n
}

/// The two end points that a shadow ray must connect.
#[derive(Clone, Copy, Debug, PartialEq, Eq, Structural)]
pub struct VisibilityTester {
    pub p0: Vector3,
    pub p1: Vector3,
}

/// One sample of the light arriving at a point from one light source.
#[derive(Clone, Copy, Debug, PartialEq, Eq, Structural)]
pub struct LightSample {
    pub li: Spectrum,
    pub wi: Vector3,
    pub pdf: i64,
    pub vis: VisibilityTester,
}

/// A stream of two-dimensional sample values, each coordinate in `[0, ONE)`:
/// `spec_peek` is the next pair and `spec_next` the stream after it.
pub trait Sampler: Sized {
    spec fn spec_peek(&self) -> (i64, i64);

    spec fn spec_next(&self) -> Self;

    fn get_2d(&mut self) -> (r: (i64, i64))
        ensures
            r == old(self).spec_peek(),
            *final(self) == old(self).spec_next(),
    ;
}

/// The renderer around the estimator: geometry, lights, materials and the
/// scattering formulas that need square roots or transcendental functions.
pub trait Scene {
    spec fn spec_intersect(&self, ray: Ray) -> Option<SurfaceInteraction>;

    spec fn spec_num_lights(&self) -> usize;

    spec fn spec_le(&self, light: usize, ray: Ray) -> Spectrum;

    spec fn spec_area_le(&self, si: SurfaceInteraction, w: Vector3) -> Spectrum;

    spec fn spec_sample_li(&self, light: usize, si: SurfaceInteraction, u: (i64, i64)) -> LightSample;

    spec fn spec_unoccluded(&self, vis: VisibilityTester) -> bool;

    /// The hit point as its material leaves it (a bump map may perturb its
    /// shading geometry), before the BSDF handle is set.
    spec fn spec_shade_point(&self, si: SurfaceInteraction) -> SurfaceInteraction;

    /// The surface at the hit point has no BSDF: light passes through it unchanged.
    spec fn spec_passes(&self, si: SurfaceInteraction) -> bool;

    spec fn spec_microfacet_f(
        &self,
        distrib: TrowbridgeReitz,
        fresnel: Fresnel,
        r: Spectrum,
        ns: Vector3,
        wo: Vector3,
        wi: Vector3,
    ) -> Spectrum;

    spec fn spec_fresnel_dielectric(&self, cos_i: i64, eta_i: i64, eta_t: i64) -> i64;

    spec fn spec_refract(&self, wi: Vector3, n: Vector3, eta: i64) -> Option<Vector3>;

    /// Closest hit along the ray, if any.
    fn intersect(&self, ray: &Ray) -> (r: Option<SurfaceInteraction>)
        ensures
            r == self.spec_intersect(*ray),
    ;

    fn num_lights(&self) -> (r: usize)
        ensures
            r == self.spec_num_lights(),
    ;

    /// Radiance that a light sends along a ray that leaves the scene.
    fn le(&self, light: usize, ray: &Ray) -> (r: Spectrum)
        requires
            light < self.spec_num_lights(),
        ensures
            r == self.spec_le(light, *ray),
    ;

    /// Samples the light arriving at the hit point from one light source.
    fn sample_li(&self, light: usize, si: &SurfaceInteraction, u: (i64, i64)) -> (r: LightSample)
        requires
            light < self.spec_num_lights(),
        ensures
            r == self.spec_sample_li(light, *si, u),
    ;

    fn unoccluded(&self, vis: &VisibilityTester) -> (r: bool)
        ensures
            r == self.spec_unoccluded(*vis),
    ;

    /// Radiance emitted by the surface at the hit point, if it is an area light.
    fn area_le(&self, si: &SurfaceInteraction, w: &Vector3) -> (r: Spectrum)
        ensures
            r == self.spec_area_le(*si, *w),
    ;

    /// Compiles the material of the surface hit into the arenas: existing
    /// entries are kept, and either one BSDF whose lobes are all in the lobe
    /// arena is appended and its handle recorded in `si`, or, for a surface
    /// that light passes through unchanged, `si.bsdf` is left empty and no
    /// BSDF is appended.
    fn compute_scattering_functions(
        &self,
        si: &mut SurfaceInteraction,
        arena_bsdf: &mut Vec<Bsdf>,
        arena_bxdf: &mut Vec<Bxdf>,
        mode: TransportMode,
    )
        ensures
            keeps(old(arena_bsdf)@, final(arena_bsdf)@),
            keeps(old(arena_bxdf)@, final(arena_bxdf)@),
            *final(si) == (SurfaceInteraction { bsdf: final(si).bsdf, ..self.spec_shade_point(*old(si)) }),
            self.spec_passes(*old(si)) ==> final(si).bsdf is None && final(arena_bsdf)@ == old(arena_bsdf)@ && final(arena_bxdf)@ == old(arena_bxdf)@,
            !self.spec_passes(*old(si)) ==> {
                &&& final(si).bsdf == Some(old(arena_bsdf)@.len() as usize)
                &&& final(arena_bsdf)@.len() == old(arena_bsdf)@.len() + 1
                &&& lobes_in(final(arena_bsdf)@.last(), final(arena_bxdf)@.len())
            },
    ;

    /// Value of a microfacet reflection lobe for a pair of directions.
    fn microfacet_f(
        &self,
        distrib: &TrowbridgeReitz,
        fresnel: &Fresnel,
        r: &Spectrum,
        ns: &Vector3,
        wo: &Vector3,
        wi: &Vector3,
    ) -> (f: Spectrum)
        ensures
            f == self.spec_microfacet_f(*distrib, *fresnel, *r, *ns, *wo, *wi),
    ;

    /// Fraction of light reflected at a dielectric boundary.
    fn fresnel_dielectric(&self, cos_i: i64, eta_i: i64, eta_t: i64) -> (r: i64)
        ensures
            r == self.spec_fresnel_dielectric(cos_i, eta_i, eta_t),
    ;

    /// Direction refracted from `wi` through a boundary with normal `n` and
    /// relative index `eta`, or none under total internal reflection.
    fn refract(&self, wi: &Vector3, n: &Vector3, eta: i64) -> (r: Option<Vector3>)
        ensures
            r == self.spec_refract(*wi, *n, eta),
    ;
}

} // verus!
