use vstd::prelude::*;
use crate::geometry::{Bounds2i, Ray, RayDifferential, Vector3, div_fx, mul_fx, sub_fx, fx_add, fx_div, fx_mul, fx_sub, clamp64, abs, is_axis_normal, is_bounded_dir, lemma_mul_one, lemma_parallel_mirrors_round_trip, v_reflect, v_add, v_dot, v_neg, v_scale, v_sub, ONE};
use crate::interaction::{spawned, SurfaceInteraction};
use crate::reflection::{lemma_single_mirror_lobe, Fresnel, f_sum, same_side, spec_sample, BsdfSample, Bsdf, Bxdf, TransportMode, BSDF_ALL, BSDF_REFLECTION, BSDF_SPECULAR, BSDF_TRANSMISSION};
use crate::scene::{keeps, lobes_in, Sampler, Scene};
use crate::material::with_bsdf;
use crate::spectrum::{Spectrum, s_add, s_black, s_div, s_is_black, s_mul, s_nonneg, s_scale};

verus! {

/// Longest chain of surfaces without a BSDF that one ray passes through
/// before it is taken as absorbed.
pub const MAX_PASS_THROUGH: u32 = 64;

/// Sum of what the first `n` lights send along a ray that leaves the scene.
pub open spec fn le_sum<S: Scene>(scene: &S, ray: Ray, n: nat) -> Spectrum
    decreases n,
{
    if n == 0 {
        s_black()
    } else {
        s_add(le_sum(scene, ray, (n - 1) as nat), scene.spec_le((n - 1) as usize, ray))
    }
}

/// Radiance along a ray that hits nothing: the sum over all lights of their
/// contribution along it.
pub open spec fn background<S: Scene>(scene: &S, ray: Ray) -> Spectrum {
    le_sum(scene, ray, scene.spec_num_lights() as nat)
}

/// One light's share of the direct lighting: `f * li * cos / pdf`.
pub open spec fn spec_light_term(f: Spectrum, li: Spectrum, cos: int, pdf: int) -> Spectrum {
    s_div(s_scale(s_mul(f, li), cos), pdf)
}

/// Derivative of the shading normal along one screen axis.
pub open spec fn spec_dndx(si: SurfaceInteraction, du: int, dv: int) -> Vector3 {
    v_add(v_scale(si.shading.dndu, du), v_scale(si.shading.dndv, dv))
}

/// Direction of a neighbouring ray after a mirror bounce.
pub open spec fn spec_reflected_dir(si: SurfaceInteraction, wo: Vector3, wi: Vector3, rd: Vector3, dn: Vector3) -> Vector3 {
    let ns = si.shading.n;
    let dwo = v_sub(v_neg(rd), wo);
    let ddn = fx_add(v_dot(dwo, ns), v_dot(wo, dn));
    let bent = v_add(v_scale(dn, v_dot(wo, ns)), v_scale(ns, ddn));
    v_add(v_sub(wi, dwo), v_scale(bent, 2 * ONE))
}

/// Differential of a ray reflected at the hit point.
pub open spec fn spec_reflect_differential(si: SurfaceInteraction, wo: Vector3, wi: Vector3, d: RayDifferential) -> RayDifferential {
    RayDifferential {
        rx_origin: v_add(si.p, si.dpdx),
        ry_origin: v_add(si.p, si.dpdy),
        rx_direction: spec_reflected_dir(si, wo, wi, d.rx_direction, spec_dndx(si, si.dudx as int, si.dvdx as int)),
        ry_direction: spec_reflected_dir(si, wo, wi, d.ry_direction, spec_dndx(si, si.dudy as int, si.dvdy as int)),
    }
}

/// The BSDF's relative index as seen from `wo`: inverted for a ray that
/// exits the surface.
pub open spec fn spec_facing_eta(si: SurfaceInteraction, wo: Vector3, eta: int) -> int {
    if v_dot(wo, si.shading.n) < 0 { fx_div(ONE as int, eta) } else { eta }
}

/// Flips `v` to the side of the surface that `wo` leaves from.
pub open spec fn spec_facing(si: SurfaceInteraction, wo: Vector3, v: Vector3) -> Vector3 {
    if v_dot(wo, si.shading.n) < 0 { v_neg(v) } else { v }
}

/// Direction of a neighbouring ray after refraction with relative index
/// `eta`, for the normal `ns` and normal derivative `dn` on the side of `wo`:
/// `wi - eta dwo + (mu dn + dmu ns)`, with `mu = eta (wo . ns) - |wi . ns|`.
/// An index-matched boundary leaves the neighbouring direction unchanged.
pub open spec fn spec_refracted_dir(ns: Vector3, wo: Vector3, wi: Vector3, eta: int, rd: Vector3, dn: Vector3) -> Vector3 {
    let dwo = v_sub(v_neg(rd), wo);
    let ddn = fx_add(v_dot(dwo, ns), v_dot(wo, dn));
    let cos_i = v_dot(wo, ns);
    let cos_t = clamp64(abs(v_dot(wi, ns)));
    let mu = fx_sub(fx_mul(eta, cos_i), cos_t);
    let k = fx_sub(eta, fx_div(fx_mul(fx_mul(eta, eta), cos_i), cos_t));
    let dmu = fx_mul(k, ddn);
    v_add(v_sub(wi, v_scale(dwo, eta)), v_add(v_scale(dn, mu), v_scale(ns, dmu)))
}

/// Differential of a ray refracted at the hit point.
pub open spec fn spec_transmit_differential(si: SurfaceInteraction, wo: Vector3, wi: Vector3, eta: int, d: RayDifferential) -> RayDifferential {
    let e = spec_facing_eta(si, wo, eta);
    let ns = spec_facing(si, wo, si.shading.n);
    RayDifferential {
        rx_origin: v_add(si.p, si.dpdx),
        ry_origin: v_add(si.p, si.dpdy),
        rx_direction: spec_refracted_dir(ns, wo, wi, e, d.rx_direction, spec_facing(si, wo, spec_dndx(si, si.dudx as int, si.dvdx as int))),
        ry_direction: spec_refracted_dir(ns, wo, wi, e, d.ry_direction, spec_facing(si, wo, spec_dndx(si, si.dudy as int, si.dvdy as int))),
    }
}

/// One light's share of the direct lighting at a shading point.
pub fn light_term(f: &Spectrum, li: &Spectrum, cos: i64, pdf: i64) -> (r: Spectrum)
    requires
        pdf != 0,
    ensures
        r == spec_light_term(*f, *li, cos as int, pdf as int),
{
    f.mul(li).scale(cos).div(pdf)
}

fn dndx(si: &SurfaceInteraction, du: i64, dv: i64) -> (r: Vector3)
    ensures
        r == spec_dndx(*si, du as int, dv as int),
{
    si.shading.dndu.scale(du).add(&si.shading.dndv.scale(dv))
}

fn reflected_dir(si: &SurfaceInteraction, wo: &Vector3, wi: &Vector3, rd: &Vector3, dn: &Vector3) -> (r: Vector3)
    ensures
        r == spec_reflected_dir(*si, *wo, *wi, *rd, *dn),
{
    let ns = si.shading.n;
    let dwo = rd.neg().sub(wo);
    let ddn = crate::geometry::add_fx(dwo.dot(&ns), wo.dot(dn));
    let bent = dn.scale(wo.dot(&ns)).add(&ns.scale(ddn));
    wi.sub(&dwo).add(&bent.scale(2 * ONE))
}

/// Footprint of a ray reflected at the hit point along `wi`: the neighbouring
/// rays start one positional differential away and bend with the normal.
pub fn reflect_differential(si: &SurfaceInteraction, wo: &Vector3, wi: &Vector3, d: &RayDifferential) -> (r: RayDifferential)
    ensures
        r == spec_reflect_differential(*si, *wo, *wi, *d),
{
    let dnx = dndx(si, si.dudx, si.dvdx);
    let dny = dndx(si, si.dudy, si.dvdy);
    RayDifferential {
        rx_origin: si.p.add(&si.dpdx),
        ry_origin: si.p.add(&si.dpdy),
        rx_direction: reflected_dir(si, wo, wi, &d.rx_direction, &dnx),
        ry_direction: reflected_dir(si, wo, wi, &d.ry_direction, &dny),
    }
}

fn refracted_dir(ns: &Vector3, wo: &Vector3, wi: &Vector3, eta: i64, rd: &Vector3, dn: &Vector3) -> (r: Vector3)
    requires
        clamp64(abs(v_dot(*wi, *ns))) != 0,
    ensures
        r == spec_refracted_dir(*ns, *wo, *wi, eta as int, *rd, *dn),
{
    let dwo = rd.neg().sub(wo);
    let ddn = crate::geometry::add_fx(dwo.dot(ns), wo.dot(dn));
    let cos_i = wo.dot(ns);
    let cos_t = wi.abs_dot(ns);
    let mu = sub_fx(mul_fx(eta, cos_i), cos_t);
    let k = sub_fx(eta, div_fx(mul_fx(mul_fx(eta, eta), cos_i), cos_t));
    let dmu = mul_fx(k, ddn);
    wi.sub(&dwo.scale(eta)).add(&dn.scale(mu).add(&ns.scale(dmu)))
}

/// Footprint of a ray refracted at the hit point along `wi`, with the BSDF's
/// relative index `eta`; for a ray that exits the surface the index is
/// inverted and the normal and its derivatives are flipped.
pub fn transmit_differential(si: &SurfaceInteraction, wo: &Vector3, wi: &Vector3, eta: i64, d: &RayDifferential) -> (r: Option<RayDifferential>)
    ensures
        r == (if clamp64(abs(v_dot(*wi, spec_facing(*si, *wo, si.shading.n)))) == 0 || (eta == 0 && v_dot(*wo, si.shading.n) < 0) {
            None
        } else {
            Some(spec_transmit_differential(*si, *wo, *wi, eta as int, *d))
        }),
{
    let n0 = si.shading.n;
    let exiting: bool = wo.dot(&n0) < 0;
    let ns = if exiting { n0.neg() } else { n0 };
    if wi.abs_dot(&ns) == 0 {
        return None;
    }
    if exiting && eta == 0 {
        return None;
    }
    let e: i64 = if exiting { div_fx(ONE, eta) } else { eta };
    let dnx0 = dndx(si, si.dudx, si.dvdx);
    let dny0 = dndx(si, si.dudy, si.dvdy);
    let dnx = if exiting { dnx0.neg() } else { dnx0 };
    let dny = if exiting { dny0.neg() } else { dny0 };
    Some(RayDifferential {
        rx_origin: si.p.add(&si.dpdx),
        ry_origin: si.p.add(&si.dpdy),
        rx_direction: refracted_dir(&ns, wo, wi, e, &d.rx_direction, &dnx),
        ry_direction: refracted_dir(&ns, wo, wi, e, &d.ry_direction, &dny),
    })
}

/// Direct lighting from the first `k` lights at a shading point, and the
/// sample stream after it: each light takes one sample pair, in order, and
/// contributes `f * li * |wi . n| / pdf` when its radiance is not black, its
/// density is not zero, the BSDF value is not black and it is unoccluded.
pub open spec fn spec_direct<S: Scene, Sp: Sampler>(
    scene: &S,
    smp: Sp,
    b: Bsdf,
    bxdfs: Seq<Bxdf>,
    si: SurfaceInteraction,
    wo: Vector3,
    n: Vector3,
    k: nat,
) -> (Spectrum, Sp)
    decreases k,
{
    if k == 0 {
        (s_black(), smp)
    } else {
        let (l, s1) = spec_direct(scene, smp, b, bxdfs, si, wo, n, (k - 1) as nat);
        let ls = scene.spec_sample_li((k - 1) as usize, si, s1.spec_peek());
        let f = f_sum(scene, b.bxdfs@, bxdfs, b.ns, wo, ls.wi, BSDF_ALL, same_side(b.ng, wo, ls.wi));
        let lit = !s_is_black(ls.li) && ls.pdf != 0 && !s_is_black(f) && scene.spec_unoccluded(ls.vis);
        (
            if lit { s_add(l, spec_light_term(f, ls.li, clamp64(abs(v_dot(ls.wi, n))), ls.pdf as int)) } else { l },
            s1.spec_next(),
        )
    }
}

/// Direct lighting at a shading point with BSDF `b`: one sample of every
/// light, in order.
pub fn direct_lighting<S: Scene, Sp: Sampler>(
    scene: &S,
    sampler: &mut Sp,
    b: &Bsdf,
    arena_bxdf: &Vec<Bxdf>,
    si: &SurfaceInteraction,
    wo: &Vector3,
    n: &Vector3,
) -> (r: Spectrum)
    ensures
        (r, *final(sampler)) == spec_direct(scene, *old(sampler), *b, arena_bxdf@, *si, *wo, *n, scene.spec_num_lights() as nat),
{
    let nl = scene.num_lights();
    let mut l = Spectrum::black();
    let mut i: usize = 0;
    while i < nl
        invariant
            i <= nl,
            nl == scene.spec_num_lights(),
            (l, *sampler) == spec_direct(scene, *old(sampler), *b, arena_bxdf@, *si, *wo, *n, i as nat),
        decreases nl - i,
    {
        let u = sampler.get_2d();
        let ls = scene.sample_li(i, si, u);
        if !ls.li.is_black() && ls.pdf != 0 {
            let f = b.f(wo, &ls.wi, BSDF_ALL, arena_bxdf, scene);
            if !f.is_black() && scene.unoccluded(&ls.vis) {
                l = l.add(&light_term(&f, &ls.li, ls.wi.abs_dot(n), ls.pdf));
            }
        }
        i = i + 1;
    }
    l
}

/// A delta sample leads to a bounce: positive density, a value that is not
/// black, and a direction not tangent to the shading normal.
pub open spec fn bounces(s: BsdfSample, ns: Vector3) -> bool {
    s.pdf > 0 && !s_is_black(s.f) && clamp64(abs(v_dot(s.wi, ns))) != 0
}

/// Radiance a bounce brings back: the sampled value times the radiance `l`
/// along the bounce ray, over the density.
pub open spec fn spec_bounce_value(s: BsdfSample, l: Spectrum) -> Spectrum {
    s_div(s_mul(s.f, l), s.pdf as int)
}

/// The ray reflected from the hit point along `wi`, with a differential
/// exactly when the incoming ray has one.
pub open spec fn spec_reflect_ray(si: SurfaceInteraction, ray: Ray, wi: Vector3) -> Ray {
    Ray {
        o: si.p,
        d: wi,
        differential: match ray.differential {
            Some(d) => Some(spec_reflect_differential(si, si.wo, wi, d)),
            None => None,
        },
    }
}

/// The ray refracted from the hit point along `wi`, with a differential
/// only when the incoming ray has one.
pub open spec fn spec_transmit_ray(si: SurfaceInteraction, ray: Ray, wi: Vector3, eta: int) -> Ray {
    Ray {
        o: si.p,
        d: wi,
        differential: match ray.differential {
            Some(d) => if clamp64(abs(v_dot(wi, spec_facing(si, si.wo, si.shading.n)))) == 0 || (eta == 0 && v_dot(si.wo, si.shading.n) < 0) {
                None
            } else {
                Some(spec_transmit_differential(si, si.wo, wi, eta, d))
            },
            None => None,
        },
    }
}

/// The ray of a specular reflection bounce.
pub fn reflect_ray(si: &SurfaceInteraction, ray: &Ray, wi: &Vector3) -> (r: Ray)
    ensures
        r == spec_reflect_ray(*si, *ray, *wi),
{
    let mut rd = si.spawn_ray(wi);
    match ray.differential {
        Some(d) => {
            rd.differential = Some(reflect_differential(si, &si.wo, wi, &d));
        },
        None => {},
    }
    rd
}

/// The ray of a specular transmission bounce, for the BSDF's relative index `eta`.
pub fn transmit_ray(si: &SurfaceInteraction, ray: &Ray, wi: &Vector3, eta: i64) -> (r: Ray)
    ensures
        r == spec_transmit_ray(*si, *ray, *wi, eta as int),
{
    let mut rd = si.spawn_ray(wi);
    match ray.differential {
        Some(d) => {
            rd.differential = transmit_differential(si, &si.wo, wi, eta, &d);
        },
        None => {},
    }
    rd
}

/// Radiance a bounce brings back, given the radiance `l` along its ray.
pub fn bounce_value(s: &BsdfSample, l: &Spectrum) -> (r: Spectrum)
    requires
        s.pdf != 0,
    ensures
        r == spec_bounce_value(*s, *l),
{
    s.f.mul(l).div(s.pdf)
}

/// The delta sample a specular bounce draws at the hit point from the
/// sampler state `smp`; none where the hit point has no BSDF in the arena.
pub open spec fn bounce_sample<S: Scene, Sp: Sampler>(
    scene: &S,
    si: SurfaceInteraction,
    bsdfs: Seq<Bsdf>,
    bxdfs: Seq<Bxdf>,
    smp: Sp,
    flags: u8,
) -> Option<BsdfSample> {
    match si.bsdf {
        Some(h) => if h < bsdfs.len() {
            let b = bsdfs[h as int];
            Some(spec_sample(scene, b.bxdfs@, bxdfs, b.ns, si.wo, smp.spec_peek().0 as int, flags))
        } else {
            None
        },
        None => None,
    }
}

/// The ray a bounce traces: reflected for `flags` of specular reflection,
/// refracted with relative index `eta` otherwise.
pub open spec fn bounce_ray(si: SurfaceInteraction, ray: Ray, wi: Vector3, flags: u8, eta: int) -> Ray {
    if flags == (BSDF_REFLECTION + BSDF_SPECULAR) as u8 {
        spec_reflect_ray(si, ray, wi)
    } else {
        spec_transmit_ray(si, ray, wi, eta)
    }
}

/// What compiling the material at `si0` may leave in the arenas: old entries
/// kept, one BSDF appended, all its lobes present.
pub open spec fn compiled(ab0: Seq<Bsdf>, ax0: Seq<Bxdf>, ab1: Seq<Bsdf>, ax1: Seq<Bxdf>) -> bool {
    &&& keeps(ab0, ab1)
    &&& keeps(ax0, ax1)
    &&& ab1.len() == ab0.len() + 1
    &&& lobes_in(ab1.last(), ax1.len())
}

/// The radiance estimator's outcome along `ray` at `depth`: radiance `r`,
/// with the sampler going from `s0` to `s1` and the arenas from `(ab0, ax0)`
/// to `(ab1, ax1)`, allowing `left` more pass-through surfaces.
/// - A miss gives the background and changes nothing.
/// - A surface without a BSDF is passed through at the same depth; with no
///   pass-through left the ray is absorbed (black).
/// - Otherwise the material is compiled, the emission is added to one sample
///   of every light in order, and, while `depth + 1 < max_depth`, the
///   specular reflection and then the specular transmission bounce.
pub open spec fn li_post<S: Scene, Sp: Sampler>(
    scene: &S,
    max_depth: u32,
    ray: Ray,
    depth: u32,
    s0: Sp,
    ab0: Seq<Bsdf>,
    ax0: Seq<Bxdf>,
    r: Spectrum,
    s1: Sp,
    ab1: Seq<Bsdf>,
    ax1: Seq<Bxdf>,
    left: nat,
) -> bool
    decreases max_depth - depth, 1int, left,
{
    match scene.spec_intersect(ray) {
        None => r == background(scene, ray) && s1 == s0 && ab1 == ab0 && ax1 == ax0,
        Some(si0) => if scene.spec_passes(si0) {
            if left == 0 {
                r == s_black() && s1 == s0 && ab1 == ab0 && ax1 == ax0
            } else {
                li_post(scene, max_depth, spawned(scene.spec_shade_point(si0), ray.d), depth, s0, ab0, ax0, r, s1, ab1, ax1, (left - 1) as nat)
            }
        } else {
            let si1 = with_bsdf(scene.spec_shade_point(si0), ab0.len() as int);
            exists|abc: Seq<Bsdf>, axc: Seq<Bxdf>| #[trigger] compiled(ab0, ax0, abc, axc) && {
                let direct = spec_direct(scene, s0, abc.last(), axc, si1, si1.wo, si1.shading.n, scene.spec_num_lights() as nat);
                let base = s_add(scene.spec_area_le(si1, si1.wo), direct.0);
                if depth + 1 < max_depth {
                    exists|m: (Spectrum, Sp, Seq<Bsdf>, Seq<Bxdf>)|
                        bounce_post(scene, max_depth, ray, si1, depth, direct.1, abc, axc, (BSDF_REFLECTION + BSDF_SPECULAR) as u8, m.0, m.1, m.2, m.3)
                        && exists|lt: Spectrum|
                        bounce_post(scene, max_depth, ray, si1, depth, m.1, m.2, m.3, (BSDF_TRANSMISSION + BSDF_SPECULAR) as u8, lt, s1, ab1, ax1)
                        && r == #[trigger] s_add(#[trigger] s_add(base, m.0), lt)
                } else {
                    r == base && s1 == direct.1 && ab1 == abc && ax1 == axc
                }
            }
        },
    }
}

/// The outcome of one specular bounce (reflection for `flags` with the
/// reflection bit, transmission otherwise) at the hit point `si`: one delta
/// sample from the next sample pair; when it bounces, the sampled value times
/// the estimator's radiance along the bounce ray at `depth + 1`, over the
/// density, with the sampler and arenas that estimate leaves; otherwise black.
pub open spec fn bounce_post<S: Scene, Sp: Sampler>(
    scene: &S,
    max_depth: u32,
    ray: Ray,
    si: SurfaceInteraction,
    depth: u32,
    s0: Sp,
    ab0: Seq<Bsdf>,
    ax0: Seq<Bxdf>,
    flags: u8,
    r: Spectrum,
    s1: Sp,
    ab1: Seq<Bsdf>,
    ax1: Seq<Bxdf>,
) -> bool
    decreases max_depth - depth, 0int, 0nat,
{
    match bounce_sample(scene, si, ab0, ax0, s0, flags) {
        None => r == s_black() && s1 == s0 && ab1 == ab0 && ax1 == ax0,
        Some(s) => if bounces(s, si.shading.n) {
            depth < max_depth && exists|l: Spectrum|
                li_post(scene, max_depth, bounce_ray(si, ray, s.wi, flags, ab0[si.bsdf.unwrap() as int].eta as int), (depth + 1) as u32, s0.spec_next(), ab0, ax0, l, s1, ab1, ax1, MAX_PASS_THROUGH as nat)
                && r == #[trigger] spec_bounce_value(s, l)
        } else {
            r == s_black() && s1 == s0.spec_next() && ab1 == ab0 && ax1 == ax0
        },
    }
}

/// Whitted's recursive ray tracer: direct lighting at each hit, plus
/// recursive perfect-specular reflection and refraction up to a depth bound.
pub struct WhittedIntegrator<C, Sm> {
    pub camera: C,
    pub sampler: Sm,
    pub pixel_bounds: Bounds2i,
    pub max_depth: u32,
}

impl<C, Sm> WhittedIntegrator<C, Sm> {
    pub fn new(max_depth: u32, camera: C, sampler: Sm, pixel_bounds: Bounds2i) -> (r: Self)
        ensures
            r.max_depth == max_depth,
            r.pixel_bounds == pixel_bounds,
            r.camera == camera,
            r.sampler == sampler,
    {
        WhittedIntegrator { camera, sampler, pixel_bounds, max_depth }
    }

    /// Nothing to prepare before rendering.
    pub fn preprocess<S: Scene>(&mut self, _scene: &S)
        ensures
            *final(self) == *old(self),
    {
    }

    pub fn get_camera(&self) -> (r: &C)
        ensures
            *r == self.camera,
    {
        &self.camera
    }

    pub fn get_sampler(&self) -> (r: &Sm)
        ensures
            *r == self.sampler,
    {
        &self.sampler
    }

    pub fn get_pixel_bounds(&self) -> (r: Bounds2i)
        ensures
            r == self.pixel_bounds,
    {
        self.pixel_bounds
    }

    /// Radiance along a ray that hits nothing.
    pub fn background<S: Scene>(&self, ray: &Ray, scene: &S) -> (r: Spectrum)
        ensures
            r == background(scene, *ray),
    {
        let n = scene.num_lights();
        let mut l = Spectrum::black();
        let mut i: usize = 0;
        while i < n
            invariant
                i <= n,
                n == scene.spec_num_lights(),
                l == le_sum(scene, *ray, i as nat),
            decreases n - i,
        {
            l = l.add(&scene.le(i, ray));
            i = i + 1;
        }
        l
    }

    /// Radiance arriving along `ray`, as `li_post` states it: background on
    /// a miss; at a surface with a BSDF its emission, one sample of every
    /// light in order, and, while `depth + 1 < max_depth`, the specular
    /// bounces; surfaces without a BSDF are passed through at the same
    /// depth, for at most `MAX_PASS_THROUGH` in a row, after which the ray is
    /// absorbed. The arenas only grow.
    #[verifier::rlimit(80)]
    pub fn li<S: Scene, Sp: Sampler>(
        &self,
        ray: &Ray,
        scene: &S,
        sampler: &mut Sp,
        arena_bsdf: &mut Vec<Bsdf>,
        arena_bxdf: &mut Vec<Bxdf>,
        depth: u32,
    ) -> (r: Spectrum)
        ensures
            li_post(scene, self.max_depth, *ray, depth, *old(sampler), old(arena_bsdf)@, old(arena_bxdf)@, r, *final(sampler), final(arena_bsdf)@, final(arena_bxdf)@, MAX_PASS_THROUGH as nat),
        decreases self.max_depth - depth, 1int,
    {
        let mut cur: Ray = *ray;
        let mut passes: u32 = 0;
        loop
            invariant
                passes <= MAX_PASS_THROUGH,
                *sampler == *old(sampler),
                arena_bsdf@ == old(arena_bsdf)@,
                arena_bxdf@ == old(arena_bxdf)@,
                forall|r: Spectrum, s1: Sp, ab1: Seq<Bsdf>, ax1: Seq<Bxdf>|
                    #[trigger] li_post(scene, self.max_depth, cur, depth, *old(sampler), old(arena_bsdf)@, old(arena_bxdf)@, r, s1, ab1, ax1, (MAX_PASS_THROUGH - passes) as nat)
                    ==> li_post(scene, self.max_depth, *ray, depth, *old(sampler), old(arena_bsdf)@, old(arena_bxdf)@, r, s1, ab1, ax1, MAX_PASS_THROUGH as nat),
            decreases MAX_PASS_THROUGH - passes,
        {
            let hit = scene.intersect(&cur);
            match hit {
                None => {
                    let l = self.background(&cur, scene);
                    assert(li_post(scene, self.max_depth, cur, depth, *old(sampler), old(arena_bsdf)@, old(arena_bxdf)@, l, *sampler, arena_bsdf@, arena_bxdf@, (MAX_PASS_THROUGH - passes) as nat));
                    return l;
                },
                Some(isect0) => {
                    let mut isect = isect0;
                    let ghost ab0 = arena_bsdf@;
                    let ghost ax0 = arena_bxdf@;
                    let _len_before: usize = arena_bsdf.len();
                    scene.compute_scattering_functions(&mut isect, arena_bsdf, arena_bxdf, TransportMode::Radiance);
                    match isect.bsdf {
                        Some(h) => {
                            let wo: Vector3 = isect.wo;
                            let n: Vector3 = isect.shading.n;
                            let ghost abc = arena_bsdf@;
                            let ghost axc = arena_bxdf@;
                            proof {
                                assert(!scene.spec_passes(isect0));
                                assert(h as int == ab0.len());
                                assert(abc.last() == abc[h as int]);
                                assert(isect == with_bsdf(scene.spec_shade_point(isect0), ab0.len() as int));
                                assert(compiled(ab0, ax0, abc, axc));
                            }
                            let le = scene.area_le(&isect, &wo);
                            let direct = direct_lighting(scene, sampler, &arena_bsdf[h], arena_bxdf, &isect, &wo, &n);
                            let ghost sd = *sampler;
                            let mut l = le.add(&direct);
                            let ghost base = l;
                            if (depth as u64) + 1 < self.max_depth as u64 {
                                let lr = self.specular_reflect(&cur, &isect, scene, sampler, arena_bsdf, arena_bxdf, depth);
                                let ghost sr = *sampler;
                                let ghost abr = arena_bsdf@;
                                let ghost axr = arena_bxdf@;
                                let lt = self.specular_transmit(&cur, &isect, scene, sampler, arena_bsdf, arena_bxdf, depth);
                                l = l.add(&lr);
                                l = l.add(&lt);
                                proof {
                                    assert(bounce_post(scene, self.max_depth, cur, isect, depth, sd, abc, axc, (BSDF_REFLECTION + BSDF_SPECULAR) as u8, lr, sr, abr, axr));
                                    assert(bounce_post(scene, self.max_depth, cur, isect, depth, sr, abr, axr, (BSDF_TRANSMISSION + BSDF_SPECULAR) as u8, lt, *sampler, arena_bsdf@, arena_bxdf@));
                                    assert(l == s_add(s_add(base, lr), lt));
                                    assert(compiled(ab0, ax0, abc, axc));
                                    let si1 = with_bsdf(scene.spec_shade_point(isect0), ab0.len() as int);
                                    let dd = spec_direct(scene, *old(sampler), abc.last(), axc, si1, si1.wo, si1.shading.n, scene.spec_num_lights() as nat);
                                    assert(dd.0 == direct && dd.1 == sd);
                                    assert(base == s_add(scene.spec_area_le(si1, si1.wo), dd.0));
                                    let m = (lr, sr, abr, axr);
                                    assert(m.0 == lr && m.1 == sr && m.2 == abr && m.3 == axr);
                                    assert(l == s_add(s_add(base, m.0), lt));
                                }
                            }
                            assert(li_post(scene, self.max_depth, cur, depth, *old(sampler), old(arena_bsdf)@, old(arena_bxdf)@, l, *sampler, arena_bsdf@, arena_bxdf@, (MAX_PASS_THROUGH - passes) as nat));
                            return l;
                        },
                        None => {
                            if passes == MAX_PASS_THROUGH {
                                assert(li_post(scene, self.max_depth, cur, depth, *old(sampler), old(arena_bsdf)@, old(arena_bxdf)@, s_black(), *sampler, arena_bsdf@, arena_bxdf@, (MAX_PASS_THROUGH - passes) as nat));
                                return Spectrum::black();
                            }
                            let ghost prev = cur;
                            cur = isect.spawn_ray(&cur.d);
                            passes = passes + 1;
                            assert forall|r: Spectrum, s1: Sp, ab1: Seq<Bsdf>, ax1: Seq<Bxdf>|
                                #[trigger] li_post(scene, self.max_depth, cur, depth, *old(sampler), old(arena_bsdf)@, old(arena_bxdf)@, r, s1, ab1, ax1, (MAX_PASS_THROUGH - passes) as nat)
                                implies li_post(scene, self.max_depth, *ray, depth, *old(sampler), old(arena_bsdf)@, old(arena_bxdf)@, r, s1, ab1, ax1, MAX_PASS_THROUGH as nat) by {
                                assert(spawned(scene.spec_shade_point(isect0), prev.d) == cur);
                                assert(li_post(scene, self.max_depth, prev, depth, *old(sampler), old(arena_bsdf)@, old(arena_bxdf)@, r, s1, ab1, ax1, (MAX_PASS_THROUGH - (passes - 1)) as nat));
                            }
                        },
                    }
                },
            }
        }
    }

    /// Radiance brought by a perfect-specular reflection at the hit point, as
    /// `bounce_post` states it: one delta sample from the next sample pair;
    /// when it bounces, the sampled value times the radiance `li` finds along
    /// the reflected ray (with a differential exactly when `ray` has one) at
    /// `depth + 1`, over the density; otherwise black.
    pub fn specular_reflect<S: Scene, Sp: Sampler>(
        &self,
        ray: &Ray,
        isect: &SurfaceInteraction,
        scene: &S,
        sampler: &mut Sp,
        arena_bsdf: &mut Vec<Bsdf>,
        arena_bxdf: &mut Vec<Bxdf>,
        depth: u32,
    ) -> (r: Spectrum)
        requires
            depth < self.max_depth,
        ensures
            bounce_post(scene, self.max_depth, *ray, *isect, depth, *old(sampler), old(arena_bsdf)@, old(arena_bxdf)@, (BSDF_REFLECTION + BSDF_SPECULAR) as u8, r, *final(sampler), final(arena_bsdf)@, final(arena_bxdf)@),
        decreases self.max_depth - depth, 0int,
    {
        let h: usize = match isect.bsdf {
            Some(h) => h,
            None => return Spectrum::black(),
        };
        if h >= arena_bsdf.len() {
            return Spectrum::black();
        }
        let u = sampler.get_2d();
        let s = arena_bsdf[h].sample_specular(&isect.wo, u, BSDF_REFLECTION + BSDF_SPECULAR, arena_bxdf, scene);
        assert((BSDF_REFLECTION + BSDF_SPECULAR) as u8 == (BSDF_REFLECTION + BSDF_SPECULAR) as u8);
        if s.pdf > 0 && !s.f.is_black() && s.wi.abs_dot(&isect.shading.n) != 0 {
            let rd = reflect_ray(isect, ray, &s.wi);
            let li = self.li(&rd, scene, sampler, arena_bsdf, arena_bxdf, depth + 1);
            let r = bounce_value(&s, &li);
            proof {
                assert(bounce_sample(scene, *isect, old(arena_bsdf)@, old(arena_bxdf)@, *old(sampler), (BSDF_REFLECTION + BSDF_SPECULAR) as u8) == Some(s));
                assert(li_post(scene, self.max_depth, rd, (depth + 1) as u32, old(sampler).spec_next(), old(arena_bsdf)@, old(arena_bxdf)@, li, *sampler, arena_bsdf@, arena_bxdf@, MAX_PASS_THROUGH as nat));
                assert(bounces(s, isect.shading.n));
                assert(rd == spec_reflect_ray(*isect, *ray, s.wi));
                assert(r == spec_bounce_value(s, li));
                let eta0 = old(arena_bsdf)@[isect.bsdf.unwrap() as int].eta as int;
                assert(rd == bounce_ray(*isect, *ray, s.wi, (BSDF_REFLECTION + BSDF_SPECULAR) as u8, eta0));
                assert(li_post(scene, self.max_depth, bounce_ray(*isect, *ray, s.wi, (BSDF_REFLECTION + BSDF_SPECULAR) as u8, eta0), (depth + 1) as u32, old(sampler).spec_next(), old(arena_bsdf)@, old(arena_bxdf)@, li, *sampler, arena_bsdf@, arena_bxdf@, MAX_PASS_THROUGH as nat));
                assert(exists|l: Spectrum| #[trigger] li_post(scene, self.max_depth, bounce_ray(*isect, *ray, s.wi, (BSDF_REFLECTION + BSDF_SPECULAR) as u8, eta0), (depth + 1) as u32, old(sampler).spec_next(), old(arena_bsdf)@, old(arena_bxdf)@, l, *sampler, arena_bsdf@, arena_bxdf@, MAX_PASS_THROUGH as nat) && r == spec_bounce_value(s, l));
                assert(depth < self.max_depth);
                reveal_with_fuel(bounce_post, 2);
                assert(bounce_post(scene, self.max_depth, *ray, *isect, depth, *old(sampler), old(arena_bsdf)@, old(arena_bxdf)@, (BSDF_REFLECTION + BSDF_SPECULAR) as u8, r, *sampler, arena_bsdf@, arena_bxdf@));
            }
            r
        } else {
            Spectrum::black()
        }
    }

    /// Radiance brought by a perfect-specular transmission at the hit point,
    /// as for reflection, along the refracted ray, whose differential follows
    /// the BSDF's relative index.
    pub fn specular_transmit<S: Scene, Sp: Sampler>(
        &self,
        ray: &Ray,
        isect: &SurfaceInteraction,
        scene: &S,
        sampler: &mut Sp,
        arena_bsdf: &mut Vec<Bsdf>,
        arena_bxdf: &mut Vec<Bxdf>,
        depth: u32,
    ) -> (r: Spectrum)
        requires
            depth < self.max_depth,
        ensures
            bounce_post(scene, self.max_depth, *ray, *isect, depth, *old(sampler), old(arena_bsdf)@, old(arena_bxdf)@, (BSDF_TRANSMISSION + BSDF_SPECULAR) as u8, r, *final(sampler), final(arena_bsdf)@, final(arena_bxdf)@),
        decreases self.max_depth - depth, 0int,
    {
        let h: usize = match isect.bsdf {
            Some(h) => h,
            None => return Spectrum::black(),
        };
        if h >= arena_bsdf.len() {
            return Spectrum::black();
        }
        let eta = arena_bsdf[h].eta;
        let u = sampler.get_2d();
        let s = arena_bsdf[h].sample_specular(&isect.wo, u, BSDF_TRANSMISSION + BSDF_SPECULAR, arena_bxdf, scene);
        if s.pdf > 0 && !s.f.is_black() && s.wi.abs_dot(&isect.shading.n) != 0 {
            let rd = transmit_ray(isect, ray, &s.wi, eta);
            let li = self.li(&rd, scene, sampler, arena_bsdf, arena_bxdf, depth + 1);
            let r = bounce_value(&s, &li);
            proof {
                assert(bounce_sample(scene, *isect, old(arena_bsdf)@, old(arena_bxdf)@, *old(sampler), (BSDF_TRANSMISSION + BSDF_SPECULAR) as u8) == Some(s));
                assert(li_post(scene, self.max_depth, rd, (depth + 1) as u32, old(sampler).spec_next(), old(arena_bsdf)@, old(arena_bxdf)@, li, *sampler, arena_bsdf@, arena_bxdf@, MAX_PASS_THROUGH as nat));
                assert(bounces(s, isect.shading.n));
                assert(rd == spec_transmit_ray(*isect, *ray, s.wi, old(arena_bsdf)@[h as int].eta as int));
                assert(r == spec_bounce_value(s, li));
                let eta0 = old(arena_bsdf)@[isect.bsdf.unwrap() as int].eta as int;
                assert(rd == bounce_ray(*isect, *ray, s.wi, (BSDF_TRANSMISSION + BSDF_SPECULAR) as u8, eta0));
                assert(li_post(scene, self.max_depth, bounce_ray(*isect, *ray, s.wi, (BSDF_TRANSMISSION + BSDF_SPECULAR) as u8, eta0), (depth + 1) as u32, old(sampler).spec_next(), old(arena_bsdf)@, old(arena_bxdf)@, li, *sampler, arena_bsdf@, arena_bxdf@, MAX_PASS_THROUGH as nat));
                assert(exists|l: Spectrum| #[trigger] li_post(scene, self.max_depth, bounce_ray(*isect, *ray, s.wi, (BSDF_TRANSMISSION + BSDF_SPECULAR) as u8, eta0), (depth + 1) as u32, old(sampler).spec_next(), old(arena_bsdf)@, old(arena_bxdf)@, l, *sampler, arena_bsdf@, arena_bxdf@, MAX_PASS_THROUGH as nat) && r == spec_bounce_value(s, l));
                assert(depth < self.max_depth);
                reveal_with_fuel(bounce_post, 2);
                assert(bounce_post(scene, self.max_depth, *ray, *isect, depth, *old(sampler), old(arena_bsdf)@, old(arena_bxdf)@, (BSDF_TRANSMISSION + BSDF_SPECULAR) as u8, r, *sampler, arena_bsdf@, arena_bxdf@));
            }
            r
        } else {
            Spectrum::black()
        }
    }
}

/// A specular reflection bounce off a mirror BSDF (one unscaled, Fresnel-free
/// reflection lobe with a reflectance that is not black) draws the mirror
/// direction of `wo` with exactly that reflectance and unit density, and its
/// ray leaves along that direction. Two such bounces off parallel
/// axis-aligned mirrors bring a direction back unchanged.
pub proof fn lemma_mirror_bounce<S: Scene, Sp: Sampler>(
    scene: &S,
    si: SurfaceInteraction,
    bsdfs: Seq<Bsdf>,
    bxdfs: Seq<Bxdf>,
    smp: Sp,
    ray: Ray,
    r: Spectrum,
    n2: Vector3,
)
    requires
        si.bsdf is Some,
        (si.bsdf.unwrap() as int) < bsdfs.len(),
        bsdfs[si.bsdf.unwrap() as int].ns == si.shading.n,
        bsdfs[si.bsdf.unwrap() as int].bxdfs@ == seq![(bxdfs.len() - 1) as usize],
        1 <= bxdfs.len() <= usize::MAX,
        bxdfs.last() == (Bxdf::SpecRefl { r, fresnel: Fresnel::NoOp, sc: None }),
        s_nonneg(r),
    ensures
        bounce_sample(scene, si, bsdfs, bxdfs, smp, (BSDF_REFLECTION + BSDF_SPECULAR) as u8) == Some(
            BsdfSample { f: r, wi: v_reflect(si.wo, si.shading.n), pdf: ONE },
        ),
        spec_reflect_ray(si, ray, v_reflect(si.wo, si.shading.n)).d == v_reflect(si.wo, si.shading.n),
        is_axis_normal(si.shading.n) && (n2 == si.shading.n || n2 == v_neg(si.shading.n)) && is_bounded_dir(si.wo)
            ==> v_reflect(v_reflect(si.wo, si.shading.n), n2) == si.wo,
{
    let h = si.bsdf.unwrap() as int;
    let lobes = bsdfs[h].bxdfs@;
    assert(bxdfs[(bxdfs.len() - 1) as int] == bxdfs.last());
    lemma_single_mirror_lobe(scene, lobes, bxdfs, r, si.shading.n, si.wo, si.wo, smp.spec_peek().0 as int, 0u8, true);
    if is_axis_normal(si.shading.n) && (n2 == si.shading.n || n2 == v_neg(si.shading.n)) && is_bounded_dir(si.wo) {
        lemma_parallel_mirrors_round_trip(si.wo, si.shading.n, n2);
    }
}

} // verus!
