use vstd::prelude::*;
use crate::geometry::{lemma_mul_one, Vector3, v_dot, v_reflect, v_neg, ONE, div_fx, sub_fx, fx_div, fx_sub};
use crate::interaction::SurfaceInteraction;
use crate::scene::Scene;
use crate::spectrum::{Spectrum, s_add, s_black, s_mul, s_nonneg, s_scale, uniform};

verus! {

pub const BSDF_REFLECTION: u8 = 1;
pub const BSDF_TRANSMISSION: u8 = 2;
pub const BSDF_DIFFUSE: u8 = 4;
pub const BSDF_GLOSSY: u8 = 8;
pub const BSDF_SPECULAR: u8 = 16;
pub const BSDF_ALL: u8 = 31;

/// `ONE / pi`, rounded.
pub const INV_PI: i64 = 20861;

/// Whether light or importance is carried; only non-reciprocal transmission tells them apart.
#[derive(Clone, Copy, Debug, PartialEq, Eq, Structural)]
pub enum TransportMode {
    Radiance,
    Importance,
}

/// How much light a boundary reflects as a function of angle.
#[derive(Clone, Copy, Debug, PartialEq, Eq, Structural)]
pub enum Fresnel {
    /// Full reflectance at every angle.
    NoOp,
    Dielectric { eta_i: i64, eta_t: i64 },
}

/// Trowbridge-Reitz microfacet roughness, as the material evaluated it. The
/// perceptual remapping of roughness to distribution widths needs a
/// logarithm, so it is not applied here: `remap` records that it is asked
/// for, and the scene's `microfacet_f`, which evaluates the distribution,
/// applies it.
#[derive(Clone, Copy, Debug, PartialEq, Eq, Structural)]
pub struct TrowbridgeReitz {
    pub u_rough: i64,
    pub v_rough: i64,
    pub remap: bool,
}

/// One scattering lobe; `sc` is an optional uniform scale on its value.
#[derive(Clone, Copy, Debug, PartialEq, Eq, Structural)]
pub enum Bxdf {
    LambertianRefl { r: Spectrum, sc: Option<Spectrum> },
    SpecRefl { r: Spectrum, fresnel: Fresnel, sc: Option<Spectrum> },
    SpecTrans { t: Spectrum, eta_a: i64, eta_b: i64, mode: TransportMode, sc: Option<Spectrum> },
    MicrofacetRefl { r: Spectrum, distrib: TrowbridgeReitz, fresnel: Fresnel, sc: Option<Spectrum> },
}

pub open spec fn bxdf_type(b: Bxdf) -> u8 {
    match b {
        Bxdf::LambertianRefl { .. } => 5u8,
        Bxdf::SpecRefl { .. } => 17u8,
        Bxdf::SpecTrans { .. } => 18u8,
        Bxdf::MicrofacetRefl { .. } => 9u8,
    }
}

/// The spectrum that scales a lobe's response.
pub open spec fn driving(b: Bxdf) -> Spectrum {
    match b {
        Bxdf::LambertianRefl { r, .. } => r,
        Bxdf::SpecRefl { r, .. } => r,
        Bxdf::SpecTrans { t, .. } => t,
        Bxdf::MicrofacetRefl { r, .. } => r,
    }
}

pub open spec fn is_reflective(b: Bxdf) -> bool {
    !(b is SpecTrans)
}

pub open spec fn is_specular(b: Bxdf) -> bool {
    b is SpecRefl || b is SpecTrans
}

/// The lobe's type flags are all among `flags`.
pub open spec fn matches_flags(b: Bxdf, flags: u8) -> bool {
    (bxdf_type(b) & flags) == bxdf_type(b)
}

pub open spec fn scaled(v: Spectrum, sc: Option<Spectrum>) -> Spectrum {
    match sc {
        Some(s) => s_mul(s, v),
        None => v,
    }
}

/// Value of one lobe for a pair of directions; delta lobes have none.
pub open spec fn lobe_f<S: Scene>(scene: &S, b: Bxdf, ns: Vector3, wo: Vector3, wi: Vector3) -> Spectrum {
    match b {
        Bxdf::LambertianRefl { r, sc } => scaled(s_scale(r, INV_PI as int), sc),
        Bxdf::MicrofacetRefl { r, distrib, fresnel, sc } => scaled(
            scene.spec_microfacet_f(distrib, fresnel, r, ns, wo, wi),
            sc,
        ),
        _ => s_black(),
    }
}

/// Whether a lobe takes part in evaluating a pair of directions that lie on the
/// same side (`reflect`) or on opposite sides of the surface.
pub open spec fn lobe_applies(b: Bxdf, flags: u8, reflect: bool) -> bool {
    matches_flags(b, flags) && (if reflect { is_reflective(b) } else { !is_reflective(b) })
}

/// Sum of the values of the lobes listed in `lobes` that apply.
pub open spec fn f_sum<S: Scene>(
    scene: &S,
    lobes: Seq<usize>,
    arena: Seq<Bxdf>,
    ns: Vector3,
    wo: Vector3,
    wi: Vector3,
    flags: u8,
    reflect: bool,
) -> Spectrum
    decreases lobes.len(),
{
    if lobes.len() == 0 {
        s_black()
    } else {
        let prev = f_sum(scene, lobes.drop_last(), arena, ns, wo, wi, flags, reflect);
        let i = lobes.last() as int;
        if i < arena.len() && lobe_applies(arena[i], flags, reflect) {
            s_add(prev, lobe_f(scene, arena[i], ns, wo, wi))
        } else {
            prev
        }
    }
}

/// Both directions lie strictly on the same side of the geometric normal.
pub open spec fn same_side(ng: Vector3, wo: Vector3, wi: Vector3) -> bool {
    (v_dot(wo, ng) > 0 && v_dot(wi, ng) > 0) || (v_dot(wo, ng) < 0 && v_dot(wi, ng) < 0)
}

/// A composed scattering function: the relative index, the normals of the
/// point, and the arena indices of its lobes.
#[derive(Clone, Debug)]
pub struct Bsdf {
    pub eta: i64,
    pub ns: Vector3,
    pub ng: Vector3,
    pub bxdfs: Vec<usize>,
}

/// A direction sampled from a delta lobe: `f` is the lobe's value already
/// multiplied by the cosine of `wi` with the shading normal.
#[derive(Clone, Copy, Debug, PartialEq, Eq, Structural)]
pub struct BsdfSample {
    pub f: Spectrum,
    pub wi: Vector3,
    pub pdf: i64,
}

pub open spec fn no_sample() -> BsdfSample {
    BsdfSample { f: s_black(), wi: Vector3 { x: 0, y: 0, z: 0 }, pdf: 0 }
}

pub open spec fn fresnel_value<S: Scene>(scene: &S, fr: Fresnel, cos_i: int) -> int {
    match fr {
        Fresnel::NoOp => ONE as int,
        Fresnel::Dielectric { eta_i, eta_t } => scene.spec_fresnel_dielectric(cos_i as i64, eta_i, eta_t) as int,
    }
}

/// The sample that a specular reflection lobe gives for `wo`.
pub open spec fn spec_reflect_sample<S: Scene>(
    scene: &S,
    r: Spectrum,
    fresnel: Fresnel,
    sc: Option<Spectrum>,
    ns: Vector3,
    wo: Vector3,
) -> BsdfSample {
    let wi = v_reflect(wo, ns);
    BsdfSample {
        f: scaled(s_scale(r, fresnel_value(scene, fresnel, v_dot(wi, ns))), sc),
        wi,
        pdf: ONE,
    }
}

/// The sample that a specular transmission lobe gives for `wo`.
pub open spec fn spec_transmit_sample<S: Scene>(
    scene: &S,
    t: Spectrum,
    eta_a: i64,
    eta_b: i64,
    mode: TransportMode,
    sc: Option<Spectrum>,
    ns: Vector3,
    wo: Vector3,
) -> BsdfSample {
    let entering = v_dot(wo, ns) > 0;
    let ei = if entering { eta_a } else { eta_b };
    let et = if entering { eta_b } else { eta_a };
    if eta_a == eta_b {
        BsdfSample { f: scaled(t, sc), wi: v_neg(wo), pdf: ONE }
    } else if et == 0 {
        no_sample()
    } else {
        let eta = fx_div(ei as int, et as int);
        let nf = if entering { ns } else { v_neg(ns) };
        match scene.spec_refract(wo, nf, eta as i64) {
            None => no_sample(),
            Some(wi) => {
                let fr = scene.spec_fresnel_dielectric(v_dot(wi, ns) as i64, eta_a, eta_b);
                let ft = s_scale(t, fx_sub(ONE as int, fr as int));
                let ft2 = if mode == TransportMode::Radiance { s_scale(s_scale(ft, eta), eta) } else { ft };
                BsdfSample { f: scaled(ft2, sc), wi, pdf: ONE }
            },
        }
    }
}

/// The sample that one delta lobe gives for `wo`.
pub open spec fn spec_lobe_sample<S: Scene>(scene: &S, b: Bxdf, ns: Vector3, wo: Vector3) -> BsdfSample {
    match b {
        Bxdf::SpecRefl { r, fresnel, sc } => spec_reflect_sample(scene, r, fresnel, sc, ns, wo),
        Bxdf::SpecTrans { t, eta_a, eta_b, mode, sc } => spec_transmit_sample(scene, t, eta_a, eta_b, mode, sc, ns, wo),
        _ => no_sample(),
    }
}

/// The lobe takes part in a delta sample for `flags`.
pub open spec fn sample_candidate(b: Bxdf, flags: u8) -> bool {
    is_specular(b) && matches_flags(b, flags)
}

/// Arena indices, in order, of the listed lobes that take part in a delta sample.
pub open spec fn candidates(lobes: Seq<usize>, arena: Seq<Bxdf>, flags: u8) -> Seq<usize>
    decreases lobes.len(),
{
    if lobes.len() == 0 {
        Seq::empty()
    } else {
        let prev = candidates(lobes.drop_last(), arena, flags);
        let i = lobes.last() as int;
        if i < arena.len() && sample_candidate(arena[i], flags) {
            prev.push(lobes.last())
        } else {
            prev
        }
    }
}

/// Which of `m` candidate lobes the sample value `u` picks.
pub open spec fn choice(u: int, m: int) -> int {
    let uc = if u < 0 { 0 } else if u >= ONE { ONE - 1 } else { u };
    let c = uc * m / (ONE as int);
    if c < m - 1 { c } else { m - 1 }
}

/// The delta sample of a BSDF: one candidate lobe, picked by `u`, sampled,
/// with its density shared among the `m` candidates.
pub open spec fn spec_sample<S: Scene>(
    scene: &S,
    lobes: Seq<usize>,
    arena: Seq<Bxdf>,
    ns: Vector3,
    wo: Vector3,
    u: int,
    flags: u8,
) -> BsdfSample {
    let cs = candidates(lobes, arena, flags);
    let m = cs.len() as int;
    if m == 0 {
        no_sample()
    } else {
        let s = spec_lobe_sample(scene, arena[cs[choice(u, m)] as int], ns, wo);
        if s.pdf == 0 { s } else { BsdfSample { f: s.f, wi: s.wi, pdf: (ONE as int / m) as i64 } }
    }
}

impl Bxdf {
    pub fn get_type(&self) -> (r: u8)
        ensures
            r == bxdf_type(*self),
    {
        match self {
            Bxdf::LambertianRefl { .. } => BSDF_REFLECTION + BSDF_DIFFUSE,
            Bxdf::SpecRefl { .. } => BSDF_REFLECTION + BSDF_SPECULAR,
            Bxdf::SpecTrans { .. } => BSDF_TRANSMISSION + BSDF_SPECULAR,
            Bxdf::MicrofacetRefl { .. } => BSDF_REFLECTION + BSDF_GLOSSY,
        }
    }

    pub fn matches_flags(&self, flags: u8) -> (r: bool)
        ensures
            r == matches_flags(*self, flags),
    {
        let t = self.get_type();
        (t & flags) == t
    }

    /// Value of the lobe for a pair of directions.
    pub fn f<S: Scene>(&self, scene: &S, ns: &Vector3, wo: &Vector3, wi: &Vector3) -> (r: Spectrum)
        ensures
            r == lobe_f(scene, *self, *ns, *wo, *wi),
    {
        let (v, sc) = match self {
            Bxdf::LambertianRefl { r, sc } => (r.scale(INV_PI), *sc),
            Bxdf::MicrofacetRefl { r, distrib, fresnel, sc } => (
                scene.microfacet_f(distrib, fresnel, r, ns, wo, wi),
                *sc,
            ),
            _ => (Spectrum::black(), None),
        };
        match sc {
            Some(s) => s.mul(&v),
            None => v,
        }
    }
}

fn fresnel_eval<S: Scene>(fr: &Fresnel, cos_i: i64, scene: &S) -> (r: i64)
    ensures
        r == fresnel_value(scene, *fr, cos_i as int),
{
    match fr {
        Fresnel::NoOp => ONE,
        Fresnel::Dielectric { eta_i, eta_t } => scene.fresnel_dielectric(cos_i, *eta_i, *eta_t),
    }
}

fn apply_scale(v: Spectrum, sc: &Option<Spectrum>) -> (r: Spectrum)
    ensures
        r == scaled(v, *sc),
{
    match sc {
        Some(s) => s.mul(&v),
        None => v,
    }
}

/// Samples the direction of one delta lobe.
fn sample_lobe<S: Scene>(b: &Bxdf, ns: &Vector3, wo: &Vector3, scene: &S) -> (r: BsdfSample)
    ensures
        r == spec_lobe_sample(scene, *b, *ns, *wo),
{
    match b {
        Bxdf::SpecRefl { r, fresnel, sc } => {
            let wi = wo.reflect(ns);
            let fr = fresnel_eval(fresnel, wi.dot(ns), scene);
            BsdfSample { f: apply_scale(r.scale(fr), sc), wi, pdf: ONE }
        },
        Bxdf::SpecTrans { t, eta_a, eta_b, mode, sc } => {
            let entering: bool = wo.dot(ns) > 0;
            let ei: i64 = if entering { *eta_a } else { *eta_b };
            let et: i64 = if entering { *eta_b } else { *eta_a };
            if *eta_a == *eta_b {
                BsdfSample { f: apply_scale(*t, sc), wi: wo.neg(), pdf: ONE }
            } else if et == 0 {
                BsdfSample { f: Spectrum::black(), wi: Vector3 { x: 0, y: 0, z: 0 }, pdf: 0 }
            } else {
                let eta = div_fx(ei, et);
                let nf = if entering { *ns } else { ns.neg() };
                match scene.refract(wo, &nf, eta) {
                    None => BsdfSample { f: Spectrum::black(), wi: Vector3 { x: 0, y: 0, z: 0 }, pdf: 0 },
                    Some(wi) => {
                        let fr = scene.fresnel_dielectric(wi.dot(ns), *eta_a, *eta_b);
                        let ft = t.scale(sub_fx(ONE, fr));
                        let ft2 = match mode {
                            TransportMode::Radiance => ft.scale(eta).scale(eta),
                            TransportMode::Importance => ft,
                        };
                        BsdfSample { f: apply_scale(ft2, sc), wi, pdf: ONE }
                    },
                }
            }
        },
        _ => BsdfSample { f: Spectrum::black(), wi: Vector3 { x: 0, y: 0, z: 0 }, pdf: 0 },
    }
}

impl Bsdf {
    /// An empty BSDF at the hit point with relative index `eta`.
    pub fn new(si: &SurfaceInteraction, eta: i64) -> (r: Bsdf)
        ensures
            r.eta == eta,
            r.ns == si.shading.n,
            r.ng == si.n,
            r.bxdfs@ == Seq::<usize>::empty(),
    {
        Bsdf { eta, ns: si.shading.n, ng: si.n, bxdfs: Vec::new() }
    }

    /// Adds the lobe stored at `index` of the lobe arena.
    pub fn add(&mut self, index: usize)
        ensures
            final(self).bxdfs@ == old(self).bxdfs@.push(index),
            final(self).eta == old(self).eta,
            final(self).ns == old(self).ns,
            final(self).ng == old(self).ng,
    {
        self.bxdfs.push(index);
    }

    /// Samples a direction from one delta lobe that matches `flags`.
    pub fn sample_specular<S: Scene>(
        &self,
        wo: &Vector3,
        u: (i64, i64),
        flags: u8,
        arena: &Vec<Bxdf>,
        scene: &S,
    ) -> (r: BsdfSample)
        ensures
            r == spec_sample(scene, self.bxdfs@, arena@, self.ns, *wo, u.0 as int, flags),
    {
        let mut cs: Vec<usize> = Vec::new();
        let mut k: usize = 0;
        while k < self.bxdfs.len()
            invariant
                k <= self.bxdfs@.len(),
                cs@ == candidates(self.bxdfs@.take(k as int), arena@, flags),
                cs@.len() <= k,
                forall|j: int| 0 <= j < cs@.len() ==> cs@[j] < arena@.len(),
            decreases self.bxdfs@.len() - k,
        {
            proof {
                assert(self.bxdfs@.take(k as int + 1).drop_last() =~= self.bxdfs@.take(k as int));
            }
            let i = self.bxdfs[k];
            if i < arena.len() {
                let b = &arena[i];
                let spec: bool = match b {
                    Bxdf::SpecRefl { .. } => true,
                    Bxdf::SpecTrans { .. } => true,
                    _ => false,
                };
                if spec && b.matches_flags(flags) {
                    cs.push(i);
                }
            }
            k = k + 1;
        }
        proof {
            assert(self.bxdfs@.take(k as int) =~= self.bxdfs@);
        }
        let m: usize = cs.len();
        if m == 0 {
            return BsdfSample { f: Spectrum::black(), wi: Vector3 { x: 0, y: 0, z: 0 }, pdf: 0 };
        }
        let uc: i64 = if u.0 < 0 { 0 } else if u.0 >= ONE { ONE - 1 } else { u.0 };
        proof {
            assert(uc * m <= ONE * m) by (nonlinear_arith)
                requires 0 <= uc < ONE, m >= 0;
            assert(uc * m / (ONE as int) <= m) by (nonlinear_arith)
                requires 0 <= uc * m <= ONE * m, m >= 0;
        }
        let c0: u128 = (uc as u128) * (m as u128) / (ONE as u128);
        let c: usize = if c0 < (m - 1) as u128 { c0 as usize } else { m - 1 };
        assert(c == choice(u.0 as int, m as int));
        let s = sample_lobe(&arena[cs[c]], &self.ns, wo, scene);
        assert(s == spec_lobe_sample(scene, arena@[cs@[choice(u.0 as int, m as int)] as int], self.ns, *wo));
        if s.pdf == 0 {
            s
        } else {
            let pdf: i64 = if m > ONE as usize { 0 } else { ONE / (m as i64) };
            proof {
                if m > ONE as usize {
                    assert(65536int / (m as int) == 0) by (nonlinear_arith)
                        requires m > 65536;
                }
            }
            BsdfSample { f: s.f, wi: s.wi, pdf }
        }
    }

    /// Sum of the values of the lobes that match `flags` for the pair `(wo, wi)`:
    /// reflective lobes when both lie on one side of the surface, transmissive ones otherwise.
    pub fn f<S: Scene>(&self, wo: &Vector3, wi: &Vector3, flags: u8, arena: &Vec<Bxdf>, scene: &S) -> (r: Spectrum)
        ensures
            r == f_sum(scene, self.bxdfs@, arena@, self.ns, *wo, *wi, flags, same_side(self.ng, *wo, *wi)),
    {
        let dwo = wo.dot(&self.ng);
        let dwi = wi.dot(&self.ng);
        let reflect: bool = (dwo > 0 && dwi > 0) || (dwo < 0 && dwi < 0);
        let mut sum = Spectrum::black();
        let mut k: usize = 0;
        while k < self.bxdfs.len()
            invariant
                k <= self.bxdfs@.len(),
                reflect == same_side(self.ng, *wo, *wi),
                sum == f_sum(scene, self.bxdfs@.take(k as int), arena@, self.ns, *wo, *wi, flags, reflect),
            decreases self.bxdfs@.len() - k,
        {
            proof {
                assert(self.bxdfs@.take(k as int + 1).drop_last() =~= self.bxdfs@.take(k as int));
            }
            let i = self.bxdfs[k];
            if i < arena.len() {
                let b = &arena[i];
                let applies: bool = b.matches_flags(flags) && (match b {
                    Bxdf::SpecTrans { .. } => !reflect,
                    _ => reflect,
                });
                if applies {
                    let v = b.f(scene, &self.ns, wo, wi);
                    sum = sum.add(&v);
                }
            }
            k = k + 1;
        }
        proof {
            assert(self.bxdfs@.take(k as int) =~= self.bxdfs@);
        }
        sum
    }
}

/// A BSDF whose only lobe is an unscaled, Fresnel-free specular reflection
/// with a non-negative reflectance `r` has no value for any pair of
/// directions, and its specular-reflection sample is the mirror direction of
/// `wo` with exactly `r` and unit density.
pub proof fn lemma_single_mirror_lobe<S: Scene>(
    scene: &S,
    lobes: Seq<usize>,
    arena: Seq<Bxdf>,
    r: Spectrum,
    ns: Vector3,
    wo: Vector3,
    wi: Vector3,
    u: int,
    flags: u8,
    reflect: bool,
)
    requires
        lobes.len() == 1,
        (lobes[0] as int) < arena.len(),
        arena[lobes[0] as int] == (Bxdf::SpecRefl { r, fresnel: Fresnel::NoOp, sc: None }),
        s_nonneg(r),
    ensures
        f_sum(scene, lobes, arena, ns, wo, wi, flags, reflect) == s_black(),
        spec_sample(scene, lobes, arena, ns, wo, u, (BSDF_REFLECTION + BSDF_SPECULAR) as u8)
            == (BsdfSample { f: r, wi: v_reflect(wo, ns), pdf: ONE }),
{
    assert(lobes.drop_last() =~= Seq::<usize>::empty());
    assert(lobes.last() == lobes[0]);
    assert(f_sum(scene, lobes.drop_last(), arena, ns, wo, wi, flags, reflect) == s_black());
    assert((17u8 & 17u8) == 17u8) by (bit_vector);
    assert(candidates(lobes.drop_last(), arena, 17u8) =~= Seq::<usize>::empty());
    assert(candidates(lobes, arena, 17u8) =~= seq![lobes[0]]);
    assert(choice(u, 1) == 0);
    lemma_mul_one(r.r as int);
    lemma_mul_one(r.g as int);
    lemma_mul_one(r.b as int);
    assert(s_scale(r, ONE as int) == r);
    assert(65536int / 1 == 65536) by (nonlinear_arith);
}

} // verus!
