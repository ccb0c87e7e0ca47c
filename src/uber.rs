use vstd::prelude::*;
use crate::geometry::{lemma_mul_one, lemma_mul_zero, ONE};
use crate::interaction::SurfaceInteraction;
use crate::material::{or_default, TextureParams, bumped, index_range, push_if, push_lobe, run_bump, store_bsdf, with_bsdf};
use crate::reflection::{driving, Bsdf, Bxdf, Fresnel, TransportMode, TrowbridgeReitz};
use crate::spectrum::{Spectrum, s_clamp, s_is_black, s_mul, s_sub, uniform};
use crate::texture::{BumpMap, ConstantFloatTexture, ConstantSpectrumTexture, FloatTexture, SpectrumTexture};

verus! {

/// A general-purpose material: diffuse, glossy, specular reflection and
/// transmission, and partial opacity, each driven by a texture.
pub struct UberMaterial<S, F, B> {
    pub kd: S,
    pub ks: S,
    pub kr: S,
    pub kt: S,
    pub opacity: S,
    pub roughness: F,
    pub u_roughness: Option<F>,
    pub v_roughness: Option<F>,
    pub eta: F,
    pub bump_map: Option<B>,
    pub remap_roughness: bool,
}

/// The values that the textures of an uber material take at one hit point,
/// with opacity applied.
pub struct UberValues {
    pub eta: i64,
    pub op: Spectrum,
    pub t: Spectrum,
    pub kd: Spectrum,
    pub ks: Spectrum,
    pub kr: Spectrum,
    pub kt: Spectrum,
    pub u_rough: i64,
    pub v_rough: i64,
}

/// Diffuse and glossy reflectance of an uber material whose parameters leave them unset: 0.25.
pub const DEFAULT_UBER_KD: i64 = 16384;

/// Roughness of an uber material whose parameters leave it unset: 0.1.
pub const DEFAULT_UBER_ROUGHNESS: i64 = 6554;

/// Index of refraction of an uber material whose parameters leave it unset: 1.5.
pub const DEFAULT_UBER_INDEX: i64 = 98304;

fn spectrum_or(v: Option<Spectrum>, d: i64) -> (r: Spectrum)
    ensures
        r == or_default(v, uniform(d as int)),
{
    match v {
        Some(x) => x,
        None => Spectrum::new(d),
    }
}

fn float_texture(v: Option<i64>) -> (r: Option<ConstantFloatTexture>)
    ensures
        r == (match v {
            Some(x) => Some(ConstantFloatTexture { value: x }),
            None => None,
        }),
{
    match v {
        Some(x) => Some(ConstantFloatTexture { value: x }),
        None => None,
    }
}

/// One for a non-black spectrum, zero for a black one.
pub open spec fn lit(s: Spectrum) -> int {
    if s_is_black(s) { 0 } else { 1 }
}

impl<B: BumpMap + Copy> UberMaterial<ConstantSpectrumTexture, ConstantFloatTexture, B> {
    /// An uber material from named parameters. Unset values default to: `kd`
    /// and `ks` 0.25, `kr` and `kt` 0, opacity 1, roughness 0.1, remapped
    /// roughness on; the index is `eta`, else `index`, else 1.5. The bump map is
    /// the one given, if any.
    pub fn create(mp: &TextureParams<B>) -> (r: Self)
        ensures
            r.kd.value == or_default(mp.kd, uniform(DEFAULT_UBER_KD as int)),
            r.ks.value == or_default(mp.ks, uniform(DEFAULT_UBER_KD as int)),
            r.kr.value == or_default(mp.kr, uniform(0)),
            r.kt.value == or_default(mp.kt, uniform(0)),
            r.opacity.value == or_default(mp.opacity, uniform(ONE as int)),
            r.roughness.value == or_default(mp.roughness, DEFAULT_UBER_ROUGHNESS),
            r.u_roughness == (match mp.u_roughness {
                Some(x) => Some(ConstantFloatTexture { value: x }),
                None => None,
            }),
            r.v_roughness == (match mp.v_roughness {
                Some(x) => Some(ConstantFloatTexture { value: x }),
                None => None,
            }),
            r.eta.value == (match mp.eta {
                Some(e) => e,
                None => or_default(mp.index, DEFAULT_UBER_INDEX),
            }),
            r.bump_map == mp.bump_map,
            r.remap_roughness == or_default(mp.remap_roughness, true),
    {
        let kd = ConstantSpectrumTexture { value: spectrum_or(mp.kd, DEFAULT_UBER_KD) };
        let ks = ConstantSpectrumTexture { value: spectrum_or(mp.ks, DEFAULT_UBER_KD) };
        let kr = ConstantSpectrumTexture { value: spectrum_or(mp.kr, 0) };
        let kt = ConstantSpectrumTexture { value: spectrum_or(mp.kt, 0) };
        let opacity = ConstantSpectrumTexture { value: spectrum_or(mp.opacity, ONE) };
        let roughness = ConstantFloatTexture {
            value: match mp.roughness {
                Some(x) => x,
                None => DEFAULT_UBER_ROUGHNESS,
            },
        };
        let remap_roughness: bool = match mp.remap_roughness {
            Some(b) => b,
            None => true,
        };
        let eta: i64 = match mp.eta {
            Some(e) => e,
            None => match mp.index {
                Some(i) => i,
                None => DEFAULT_UBER_INDEX,
            },
        };
        UberMaterial::new(
            kd,
            ks,
            kr,
            kt,
            roughness,
            float_texture(mp.u_roughness),
            float_texture(mp.v_roughness),
            opacity,
            ConstantFloatTexture { value: eta },
            mp.bump_map,
            remap_roughness,
        )
    }
}

impl<S: SpectrumTexture, F: FloatTexture, B: BumpMap> UberMaterial<S, F, B> {
    /// Texture values at the (already bumped) hit point: reflectances are
    /// clamped at zero and scaled by the clamped opacity, and the opacity's
    /// complement, clamped at zero, drives the pass-through lobe.
    pub open spec fn values(&self, si: SurfaceInteraction) -> UberValues {
        let op = s_clamp(self.opacity.spec_evaluate(si));
        UberValues {
            eta: self.eta.spec_evaluate(si),
            op,
            t: s_clamp(s_sub(uniform(ONE as int), op)),
            kd: s_mul(op, s_clamp(self.kd.spec_evaluate(si))),
            ks: s_mul(op, s_clamp(self.ks.spec_evaluate(si))),
            kr: s_mul(op, s_clamp(self.kr.spec_evaluate(si))),
            kt: s_mul(op, s_clamp(self.kt.spec_evaluate(si))),
            u_rough: match self.u_roughness {
                Some(u) => u.spec_evaluate(si),
                None => self.roughness.spec_evaluate(si),
            },
            v_rough: match self.v_roughness {
                Some(v) => v.spec_evaluate(si),
                None => self.roughness.spec_evaluate(si),
            },
        }
    }

    /// Relative index of the compiled BSDF: one where the surface lets light
    /// through its holes, the evaluated index otherwise.
    pub open spec fn bsdf_eta(&self, si: SurfaceInteraction) -> i64 {
        let v = self.values(si);
        if !s_is_black(v.t) { ONE } else { v.eta }
    }

    /// The lobes, in order, that the material compiles at the hit point: each
    /// present exactly when the spectrum that drives it is not black.
    pub open spec fn lobes(&self, si: SurfaceInteraction, mode: TransportMode, sc: Option<Spectrum>) -> Seq<Bxdf> {
        let v = self.values(si);
        let dielectric = Fresnel::Dielectric { eta_i: ONE, eta_t: v.eta };
        let s0 = push_if(Seq::empty(), !s_is_black(v.t), Bxdf::SpecTrans { t: v.t, eta_a: ONE, eta_b: ONE, mode, sc });
        let s1 = push_if(s0, !s_is_black(v.kd), Bxdf::LambertianRefl { r: v.kd, sc });
        let s2 = push_if(s1, !s_is_black(v.ks), Bxdf::MicrofacetRefl {
            r: v.ks,
            distrib: TrowbridgeReitz { u_rough: v.u_rough, v_rough: v.v_rough, remap: self.remap_roughness },
            fresnel: dielectric,
            sc,
        });
        let s3 = push_if(s2, !s_is_black(v.kr), Bxdf::SpecRefl { r: v.kr, fresnel: dielectric, sc });
        push_if(s3, !s_is_black(v.kt), Bxdf::SpecTrans { t: v.kt, eta_a: ONE, eta_b: v.eta, mode, sc })
    }

    /// Every lobe compiled is driven by a non-black spectrum, and there is
    /// one lobe for each of `t, kd, ks, kr, kt` that is not black: a black
    /// driving spectrum adds nothing to the arena.
    pub proof fn lemma_black_spectra_add_no_lobe(&self, si: SurfaceInteraction, mode: TransportMode, sc: Option<Spectrum>)
        ensures
            ({
                let v = self.values(si);
                let l = self.lobes(si, mode, sc);
                &&& forall|j: int| 0 <= j < l.len() ==> !s_is_black(#[trigger] driving(l[j]))
                &&& l.len() == lit(v.t) + lit(v.kd) + lit(v.ks) + lit(v.kr) + lit(v.kt)
            }),
    {
        let v = self.values(si);
        let dielectric = Fresnel::Dielectric { eta_i: ONE, eta_t: v.eta };
        let s0 = push_if(Seq::empty(), !s_is_black(v.t), Bxdf::SpecTrans { t: v.t, eta_a: ONE, eta_b: ONE, mode, sc });
        let s1 = push_if(s0, !s_is_black(v.kd), Bxdf::LambertianRefl { r: v.kd, sc });
        let s2 = push_if(s1, !s_is_black(v.ks), Bxdf::MicrofacetRefl {
            r: v.ks,
            distrib: TrowbridgeReitz { u_rough: v.u_rough, v_rough: v.v_rough, remap: self.remap_roughness },
            fresnel: dielectric,
            sc,
        });
        let s3 = push_if(s2, !s_is_black(v.kr), Bxdf::SpecRefl { r: v.kr, fresnel: dielectric, sc });
        let s4 = push_if(s3, !s_is_black(v.kt), Bxdf::SpecTrans { t: v.kt, eta_a: ONE, eta_b: v.eta, mode, sc });
        assert(forall|j: int| 0 <= j < s0.len() ==> !s_is_black(#[trigger] driving(s0[j])));
        assert(forall|j: int| 0 <= j < s1.len() ==> !s_is_black(#[trigger] driving(s1[j])));
        assert(forall|j: int| 0 <= j < s2.len() ==> !s_is_black(#[trigger] driving(s2[j])));
        assert(forall|j: int| 0 <= j < s3.len() ==> !s_is_black(#[trigger] driving(s3[j])));
        assert(forall|j: int| 0 <= j < s4.len() ==> !s_is_black(#[trigger] driving(s4[j])));
    }

    /// A fully opaque surface with black specular reflectance and
    /// transmittance has no transmission lobe, and its BSDF keeps the
    /// evaluated index of refraction.
    pub proof fn lemma_opaque_no_transmission(&self, si: SurfaceInteraction, mode: TransportMode, sc: Option<Spectrum>)
        requires
            self.opacity.spec_evaluate(si) == uniform(ONE as int),
            s_is_black(self.kr.spec_evaluate(si)),
            s_is_black(self.kt.spec_evaluate(si)),
        ensures
            forall|j: int| 0 <= j < self.lobes(si, mode, sc).len() ==> !(#[trigger] self.lobes(si, mode, sc)[j] is SpecTrans),
            self.bsdf_eta(si) == self.eta.spec_evaluate(si),
    {
        let v = self.values(si);
        lemma_mul_one(0);
        assert(s_is_black(v.t));
        assert(s_is_black(v.kr));
        assert(s_is_black(v.kt));
        let l = self.lobes(si, mode, sc);
        assert forall|j: int| 0 <= j < l.len() implies !(#[trigger] l[j] is SpecTrans) by {}
    }

    /// A fully transparent surface compiles to the pass-through lobe alone, of
    /// transmittance one between equal indices, whatever its other textures
    /// hold: opacity scales every reflectance to black.
    pub proof fn lemma_transparent_passes_through(&self, si: SurfaceInteraction, mode: TransportMode, sc: Option<Spectrum>)
        requires
            s_is_black(self.opacity.spec_evaluate(si)),
        ensures
            s_is_black(self.values(si).kd),
            s_is_black(self.values(si).ks),
            s_is_black(self.values(si).kr),
            s_is_black(self.values(si).kt),
            self.lobes(si, mode, sc) == seq![Bxdf::SpecTrans { t: uniform(ONE as int), eta_a: ONE, eta_b: ONE, mode, sc }],
            self.bsdf_eta(si) == ONE,
    {
        let v = self.values(si);
        lemma_mul_zero();
        assert(v.t == uniform(ONE as int));
        assert(s_is_black(v.kd));
        assert(s_is_black(v.ks));
        assert(s_is_black(v.kr));
        assert(s_is_black(v.kt));
        assert(self.lobes(si, mode, sc) =~= seq![Bxdf::SpecTrans { t: uniform(ONE as int), eta_a: ONE, eta_b: ONE, mode, sc }]);
    }

    /// Compiling twice at the same hit point appends two equal runs of lobes,
    /// whose BSDFs have the same relative index and the same lobe count.
    pub proof fn lemma_compile_twice(&self, si: SurfaceInteraction, mode: TransportMode, sc: Option<Spectrum>, arena: Seq<Bxdf>)
        ensures
            ({
                let si1 = bumped(self.bump_map, si);
                let l = self.lobes(si1, mode, sc);
                let a1 = arena + l;
                let a2 = a1 + l;
                &&& a2.subrange(a1.len() as int, a2.len() as int) == a1.subrange(arena.len() as int, a1.len() as int)
                &&& a2.len() - a1.len() == a1.len() - arena.len()
            }),
    {
        let si1 = bumped(self.bump_map, si);
        let l = self.lobes(si1, mode, sc);
        let a1 = arena + l;
        let a2 = a1 + l;
        assert(a2.subrange(a1.len() as int, a2.len() as int) =~= l);
        assert(a1.subrange(arena.len() as int, a1.len() as int) =~= l);
    }

    pub fn new(
        kd: S,
        ks: S,
        kr: S,
        kt: S,
        roughness: F,
        u_roughness: Option<F>,
        v_roughness: Option<F>,
        opacity: S,
        eta: F,
        bump_map: Option<B>,
        remap_roughness: bool,
    ) -> (r: Self)
        ensures
            r.kd == kd,
            r.ks == ks,
            r.kr == kr,
            r.kt == kt,
            r.roughness == roughness,
            r.u_roughness == u_roughness,
            r.v_roughness == v_roughness,
            r.opacity == opacity,
            r.eta == eta,
            r.bump_map == bump_map,
            r.remap_roughness == remap_roughness,
    {
        UberMaterial {
            kd,
            ks,
            kr,
            kt,
            opacity,
            roughness,
            u_roughness,
            v_roughness,
            eta,
            bump_map,
            remap_roughness,
        }
    }

    /// Compiles the material at the hit point: runs the bump map, appends the
    /// lobes to `arena_bxdf` and one BSDF listing them to `arena_bsdf`, and
    /// records the BSDF's handle in `si`.
    #[verifier::rlimit(50)]
    pub fn compute_scattering_functions(
        &self,
        si: &mut SurfaceInteraction,
        arena_bsdf: &mut Vec<Bsdf>,
        arena_bxdf: &mut Vec<Bxdf>,
        mode: TransportMode,
        _allow_multiple_lobes: bool,
        scale_opt: Option<Spectrum>,
    )
        ensures
            ({
                let si1 = bumped(self.bump_map, *old(si));
                let lobes = self.lobes(si1, mode, scale_opt);
                let bsdf = final(arena_bsdf)@.last();
                &&& final(arena_bxdf)@ == old(arena_bxdf)@ + lobes
                &&& final(arena_bsdf)@ == old(arena_bsdf)@.push(bsdf)
                &&& bsdf.eta == self.bsdf_eta(si1)
                &&& bsdf.ns == si1.shading.n
                &&& bsdf.ng == si1.n
                &&& bsdf.bxdfs@ == index_range(old(arena_bxdf)@.len() as int, lobes.len() as int)
                &&& *final(si) == with_bsdf(si1, old(arena_bsdf)@.len() as int)
                &&& *final(si) == (SurfaceInteraction { shading: final(si).shading, bsdf: final(si).bsdf, ..*old(si) })
            }),
    {
        run_bump(&self.bump_map, si);
        let ghost si1 = *si;
        let ghost v = self.values(si1);
        let ghost v_eta = v.eta;
        let ghost v_t = v.t;
        let ghost v_kd = v.kd;
        let ghost v_ks = v.ks;
        let ghost v_kr = v.kr;
        let ghost v_kt = v.kt;
        let ghost v_u = v.u_rough;
        let ghost v_v = v.v_rough;
        let e: i64 = self.eta.evaluate(si);
        let op: Spectrum = self.opacity.evaluate(si).clamp_nonneg();
        let t: Spectrum = Spectrum::new(ONE).sub(&op).clamp_nonneg();
        let kd: Spectrum = op.mul(&self.kd.evaluate(si).clamp_nonneg());
        let ks: Spectrum = op.mul(&self.ks.evaluate(si).clamp_nonneg());
        let u_rough: i64 = match &self.u_roughness {
            Some(u) => u.evaluate(si),
            None => self.roughness.evaluate(si),
        };
        let v_rough: i64 = match &self.v_roughness {
            Some(v) => v.evaluate(si),
            None => self.roughness.evaluate(si),
        };
        let kr: Spectrum = op.mul(&self.kr.evaluate(si).clamp_nonneg());
        let kt: Spectrum = op.mul(&self.kt.evaluate(si).clamp_nonneg());
        let mut bsdf: Bsdf = if !t.is_black() {
            Bsdf::new(si, ONE)
        } else {
            Bsdf::new(si, e)
        };
        assert(e == v_eta && t == v_t && kd == v_kd && ks == v_ks && kr == v_kr && kt == v_kt);
        assert(u_rough == v_u && v_rough == v_v);
        let ghost start = arena_bxdf@.len() as int;
        let ghost a0 = arena_bxdf@;
        let ghost dielectric = Fresnel::Dielectric { eta_i: ONE, eta_t: e };
        let ghost s0 = push_if(Seq::empty(), !s_is_black(v.t), Bxdf::SpecTrans { t: v.t, eta_a: ONE, eta_b: ONE, mode, sc: scale_opt });
        if !t.is_black() {
            push_lobe(arena_bxdf, &mut bsdf, Bxdf::SpecTrans { t, eta_a: ONE, eta_b: ONE, mode, sc: scale_opt });
        }
        assert(arena_bxdf@ == a0 + s0);
        assert(bsdf.bxdfs@ =~= index_range(start, s0.len() as int));
        let ghost s1 = push_if(s0, !s_is_black(v.kd), Bxdf::LambertianRefl { r: v.kd, sc: scale_opt });
        if !kd.is_black() {
            push_lobe(arena_bxdf, &mut bsdf, Bxdf::LambertianRefl { r: kd, sc: scale_opt });
        }
        assert(arena_bxdf@ =~= a0 + s1);
        assert(bsdf.bxdfs@ =~= index_range(start, s1.len() as int));
        let ghost s2 = push_if(s1, !s_is_black(v.ks), Bxdf::MicrofacetRefl {
            r: v.ks,
            distrib: TrowbridgeReitz { u_rough: v.u_rough, v_rough: v.v_rough, remap: self.remap_roughness },
            fresnel: dielectric,
            sc: scale_opt,
        });
        if !ks.is_black() {
            let distrib = TrowbridgeReitz { u_rough, v_rough, remap: self.remap_roughness };
            push_lobe(
                arena_bxdf,
                &mut bsdf,
                Bxdf::MicrofacetRefl { r: ks, distrib, fresnel: Fresnel::Dielectric { eta_i: ONE, eta_t: e }, sc: scale_opt },
            );
        }
        assert(arena_bxdf@ =~= a0 + s2);
        assert(bsdf.bxdfs@ =~= index_range(start, s2.len() as int));
        let ghost s3 = push_if(s2, !s_is_black(v.kr), Bxdf::SpecRefl { r: v.kr, fresnel: dielectric, sc: scale_opt });
        if !kr.is_black() {
            push_lobe(
                arena_bxdf,
                &mut bsdf,
                Bxdf::SpecRefl { r: kr, fresnel: Fresnel::Dielectric { eta_i: ONE, eta_t: e }, sc: scale_opt },
            );
        }
        assert(arena_bxdf@ =~= a0 + s3);
        assert(bsdf.bxdfs@ =~= index_range(start, s3.len() as int));
        if !kt.is_black() {
            push_lobe(arena_bxdf, &mut bsdf, Bxdf::SpecTrans { t: kt, eta_a: ONE, eta_b: e, mode, sc: scale_opt });
        }
        assert(arena_bxdf@ =~= a0 + self.lobes(si1, mode, scale_opt));
        assert(bsdf.bxdfs@ =~= index_range(start, self.lobes(si1, mode, scale_opt).len() as int));
        store_bsdf(arena_bsdf, si, bsdf);
    }
}

} // verus!
