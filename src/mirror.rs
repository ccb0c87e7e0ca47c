use vstd::prelude::*;
use crate::geometry::{lemma_mul_one, v_reflect, Vector3, ONE};
use crate::interaction::SurfaceInteraction;
use crate::material::{push_if, bumped, index_range, or_default, push_lobe, run_bump, store_bsdf, with_bsdf, TextureParams};
use crate::reflection::{lemma_single_mirror_lobe, f_sum, spec_sample, Bsdf, BsdfSample, Bxdf, Fresnel, TransportMode, BSDF_REFLECTION, BSDF_SPECULAR};
use crate::scene::Scene;
use crate::spectrum::{Spectrum, s_black, s_is_black, s_clamp, s_scale, uniform};
use crate::uber::lit;
use crate::texture::{BumpMap, ConstantSpectrumTexture, SpectrumTexture};

verus! {

/// Reflectance of a mirror whose parameters leave it unset: 0.9.
pub const DEFAULT_MIRROR_KR: i64 = 58982;

/// An idealised mirror: perfect specular reflection with no Fresnel falloff.
pub struct MirrorMaterial<S, B> {
    pub kr: S,
    pub bump_map: Option<B>,
}

impl<B: BumpMap + Copy> MirrorMaterial<ConstantSpectrumTexture, B> {
    /// A mirror from named parameters: `kr` defaults to 0.9; the bump map is
    /// the one given, if any.
    pub fn create(mp: &TextureParams<B>) -> (r: Self)
        ensures
            r.kr.value == or_default(mp.kr, uniform(DEFAULT_MIRROR_KR as int)),
            r.bump_map == mp.bump_map,
    {
        let kr = match mp.kr {
            Some(v) => v,
            None => Spectrum::new(DEFAULT_MIRROR_KR),
        };
        MirrorMaterial::new(ConstantSpectrumTexture { value: kr }, mp.bump_map)
    }
}

impl<S: SpectrumTexture, B: BumpMap> MirrorMaterial<S, B> {
    /// The single lobe of the mirror at the (already bumped) hit point.
    pub open spec fn lobe(&self, si: SurfaceInteraction, sc: Option<Spectrum>) -> Bxdf {
        Bxdf::SpecRefl { r: s_clamp(self.kr.spec_evaluate(si)), fresnel: Fresnel::NoOp, sc }
    }

    /// The compiled mirror (with a reflectance that is not black), unscaled, has no value for any pair of
    /// directions, and its specular-reflection sample is the mirror direction
    /// with exactly the clamped reflectance: no Fresnel falloff.
    pub proof fn lemma_mirror_scattering<T: Scene>(
        &self,
        scene: &T,
        si: SurfaceInteraction,
        arena: Seq<Bxdf>,
        wo: Vector3,
        wi: Vector3,
        u: int,
        flags: u8,
        reflect: bool,
    )
        requires
            arena.len() < usize::MAX,
            !s_is_black(s_clamp(self.kr.spec_evaluate(bumped(self.bump_map, si)))),
        ensures
            ({
                let si1 = bumped(self.bump_map, si);
                let arena1 = arena.push(self.lobe(si1, None));
                let lobes = index_range(arena.len() as int, 1);
                &&& f_sum(scene, lobes, arena1, si1.shading.n, wo, wi, flags, reflect) == s_black()
                &&& spec_sample(scene, lobes, arena1, si1.shading.n, wo, u, (BSDF_REFLECTION + BSDF_SPECULAR) as u8)
                    == (BsdfSample {
                    f: s_clamp(self.kr.spec_evaluate(si1)),
                    wi: v_reflect(wo, si1.shading.n),
                    pdf: ONE,
                })
            }),
    {
        let si1 = bumped(self.bump_map, si);
        let arena1 = arena.push(self.lobe(si1, None));
        let lobes = index_range(arena.len() as int, 1);
        assert(arena1[arena.len() as int] == self.lobe(si1, None));
        lemma_single_mirror_lobe(scene, lobes, arena1, s_clamp(self.kr.spec_evaluate(si1)), si1.shading.n, wo, wi, u, flags, reflect);
    }

    pub fn new(kr: S, bump_map: Option<B>) -> (r: Self)
        ensures
            r.kr == kr,
            r.bump_map == bump_map,
    {
        MirrorMaterial { kr, bump_map }
    }

    /// Compiles the mirror at the hit point: one specular reflection lobe with
    /// the clamped reflectance, unless that is black, in a BSDF of relative
    /// index one.
    pub fn compute_scattering_functions(
        &self,
        si: &mut SurfaceInteraction,
        arena_bsdf: &mut Vec<Bsdf>,
        arena_bxdf: &mut Vec<Bxdf>,
        mode: TransportMode,
        _allow_multiple_lobes: bool,
        scale_opt: Option<Spectrum>,
    )
        ensures
            ({
                let si1 = bumped(self.bump_map, *old(si));
                let bsdf = final(arena_bsdf)@.last();
                let r = s_clamp(self.kr.spec_evaluate(si1));
                &&& final(arena_bxdf)@ == push_if(old(arena_bxdf)@, !s_is_black(r), self.lobe(si1, scale_opt))
                &&& final(arena_bsdf)@ == old(arena_bsdf)@.push(bsdf)
                &&& bsdf.eta == ONE
                &&& bsdf.ns == si1.shading.n
                &&& bsdf.ng == si1.n
                &&& bsdf.bxdfs@ == index_range(old(arena_bxdf)@.len() as int, lit(r))
                &&& *final(si) == with_bsdf(si1, old(arena_bsdf)@.len() as int)
                &&& *final(si) == (SurfaceInteraction { shading: final(si).shading, bsdf: final(si).bsdf, ..*old(si) })
            }),
    {
        run_bump(&self.bump_map, si);
        let r: Spectrum = self.kr.evaluate(si).clamp_nonneg();
        let mut bsdf = Bsdf::new(si, ONE);
        let ghost start = arena_bxdf@.len() as int;
        if !r.is_black() {
            push_lobe(arena_bxdf, &mut bsdf, Bxdf::SpecRefl { r, fresnel: Fresnel::NoOp, sc: scale_opt });
        }
        assert(bsdf.bxdfs@ =~= index_range(start, lit(r)));
        store_bsdf(arena_bsdf, si, bsdf);
    }
}

} // verus!
