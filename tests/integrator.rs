use pbrt_core::geometry::{Bounds2i, Ray, RayDifferential, Vector3, ONE};
use pbrt_core::interaction::{Shading, SurfaceInteraction};
use pbrt_core::mirror::MirrorMaterial;
use pbrt_core::reflection::{Bsdf, Bxdf, Fresnel, TransportMode, TrowbridgeReitz, BSDF_ALL, BSDF_REFLECTION, BSDF_SPECULAR, BSDF_TRANSMISSION, INV_PI};
use pbrt_core::scene::{LightSample, Sampler, Scene, VisibilityTester};
use pbrt_core::spectrum::Spectrum;
use pbrt_core::texture::{ConstantSpectrumTexture, FlatBump};
use pbrt_core::whitted::{light_term, reflect_differential, transmit_differential, transmit_ray, WhittedIntegrator};

fn v(x: i64, y: i64, z: i64) -> Vector3 {
    Vector3::new(x, y, z)
}

fn hit_at(p: Vector3, wo: Vector3) -> SurfaceInteraction {
    SurfaceInteraction {
        p,
        n: v(0, 0, ONE),
        wo,
        shading: Shading { n: v(0, 0, ONE), dndu: v(0, 0, 0), dndv: v(0, 0, 0) },
        dpdx: v(ONE, 0, 0),
        dpdy: v(0, ONE, 0),
        dudx: 0,
        dvdx: 0,
        dudy: 0,
        dvdy: 0,
        bsdf: None,
    }
}

/// A floor mirror at z = 0 facing up, an environment light, and one point light.
struct TestScene {
    with_floor: bool,
    env: Spectrum,
    point: Option<Spectrum>,
}

impl Scene for TestScene {
    fn spec_intersect(&self, ray: Ray) -> Option<SurfaceInteraction> {
        self.intersect(&ray)
    }
    fn spec_num_lights(&self) -> usize {
        self.num_lights()
    }
    fn spec_le(&self, light: usize, ray: Ray) -> Spectrum {
        self.le(light, &ray)
    }
    fn spec_area_le(&self, si: SurfaceInteraction, w: Vector3) -> Spectrum {
        self.area_le(&si, &w)
    }
    fn spec_sample_li(&self, light: usize, si: SurfaceInteraction, u: (i64, i64)) -> LightSample {
        self.sample_li(light, &si, u)
    }
    fn spec_unoccluded(&self, vis: VisibilityTester) -> bool {
        self.unoccluded(&vis)
    }
    fn spec_shade_point(&self, si: SurfaceInteraction) -> SurfaceInteraction {
        si
    }
    fn spec_passes(&self, _si: SurfaceInteraction) -> bool {
        false
    }
    fn spec_microfacet_f(
        &self,
        distrib: TrowbridgeReitz,
        fresnel: Fresnel,
        r: Spectrum,
        ns: Vector3,
        wo: Vector3,
        wi: Vector3,
    ) -> Spectrum {
        self.microfacet_f(&distrib, &fresnel, &r, &ns, &wo, &wi)
    }
    fn spec_fresnel_dielectric(&self, cos_i: i64, eta_i: i64, eta_t: i64) -> i64 {
        self.fresnel_dielectric(cos_i, eta_i, eta_t)
    }
    fn spec_refract(&self, wi: Vector3, n: Vector3, eta: i64) -> Option<Vector3> {
        self.refract(&wi, &n, eta)
    }
    fn intersect(&self, ray: &Ray) -> Option<SurfaceInteraction> {
        if self.with_floor && ray.o.z > 0 && ray.d.z < 0 {
            Some(hit_at(v(ray.o.x, ray.o.y, 0), ray.d.neg()))
        } else {
            None
        }
    }
    fn num_lights(&self) -> usize {
        if self.point.is_some() { 2 } else { 1 }
    }
    fn le(&self, light: usize, _ray: &Ray) -> Spectrum {
        if light == 0 { self.env } else { Spectrum::black() }
    }
    fn sample_li(&self, light: usize, _si: &SurfaceInteraction, _u: (i64, i64)) -> LightSample {
        let vis = VisibilityTester { p0: v(0, 0, 0), p1: v(0, 0, ONE) };
        if light == 1 {
            LightSample { li: self.point.unwrap(), wi: v(0, 0, ONE), pdf: ONE, vis }
        } else {
            LightSample { li: Spectrum::black(), wi: v(0, 0, ONE), pdf: 0, vis }
        }
    }
    fn unoccluded(&self, _vis: &VisibilityTester) -> bool {
        true
    }
    fn area_le(&self, _si: &SurfaceInteraction, _w: &Vector3) -> Spectrum {
        Spectrum::black()
    }
    fn compute_scattering_functions(
        &self,
        si: &mut SurfaceInteraction,
        arena_bsdf: &mut Vec<Bsdf>,
        arena_bxdf: &mut Vec<Bxdf>,
        mode: TransportMode,
    ) {
        let m: MirrorMaterial<ConstantSpectrumTexture, FlatBump> =
            MirrorMaterial::new(ConstantSpectrumTexture { value: Spectrum::new(ONE / 2) }, None);
        m.compute_scattering_functions(si, arena_bsdf, arena_bxdf, mode, false, None);
    }
    fn microfacet_f(
        &self,
        _distrib: &TrowbridgeReitz,
        _fresnel: &Fresnel,
        _r: &Spectrum,
        _ns: &Vector3,
        _wo: &Vector3,
        _wi: &Vector3,
    ) -> Spectrum {
        Spectrum::black()
    }
    fn fresnel_dielectric(&self, _cos_i: i64, _eta_i: i64, _eta_t: i64) -> i64 {
        0
    }
    fn refract(&self, _wi: &Vector3, _n: &Vector3, _eta: i64) -> Option<Vector3> {
        None
    }
}

struct FixedSampler {
    pulls: u32,
}

impl Sampler for FixedSampler {
    fn spec_peek(&self) -> (i64, i64) {
        (ONE / 2, ONE / 2)
    }
    fn spec_next(&self) -> Self {
        FixedSampler { pulls: self.pulls + 1 }
    }
    fn get_2d(&mut self) -> (i64, i64) {
        self.pulls += 1;
        (ONE / 2, ONE / 2)
    }
}

fn bounds() -> Bounds2i {
    Bounds2i { min_x: 0, min_y: 0, max_x: 16, max_y: 16 }
}

fn trace(scene: &TestScene, max_depth: u32, ray: &Ray) -> (Spectrum, u32, usize) {
    let integrator = WhittedIntegrator::new(max_depth, (), FixedSampler { pulls: 0 }, bounds());
    let mut sampler = FixedSampler { pulls: 0 };
    let mut arena_bsdf: Vec<Bsdf> = Vec::new();
    let mut arena_bxdf: Vec<Bxdf> = Vec::new();
    let l = integrator.li(ray, scene, &mut sampler, &mut arena_bsdf, &mut arena_bxdf, 0);
    (l, sampler.pulls, arena_bsdf.len())
}

#[test]
fn miss_returns_background_for_every_depth() {
    let scene = TestScene { with_floor: false, env: Spectrum::rgb(ONE, 2 * ONE, 3), point: None };
    let ray = Ray { o: v(0, 0, ONE), d: v(0, 0, -ONE), differential: None };
    for depth in [1u32, 2, 5] {
        let (l, pulls, _) = trace(&scene, depth, &ray);
        assert_eq!(l, Spectrum::rgb(ONE, 2 * ONE, 3));
        assert_eq!(pulls, 0);
    }
}

#[test]
fn depth_one_skips_specular_bounces() {
    let scene = TestScene { with_floor: true, env: Spectrum::new(ONE), point: Some(Spectrum::new(ONE)) };
    let ray = Ray { o: v(0, 0, ONE), d: v(0, 0, -ONE), differential: None };
    let (l, pulls, compiled) = trace(&scene, 1, &ray);
    // Direct lighting of a pure mirror is black, and no bounce is traced.
    assert_eq!(l, Spectrum::black());
    assert_eq!(pulls, 2);
    assert_eq!(compiled, 1);
}

#[test]
fn depth_two_bounces_once_off_the_mirror() {
    let scene = TestScene { with_floor: true, env: Spectrum::new(ONE), point: None };
    let ray = Ray { o: v(0, 0, ONE), d: v(0, 0, -ONE), differential: None };
    let (l, pulls, compiled) = trace(&scene, 2, &ray);
    // One light sample, one reflection sample, one transmission sample.
    assert_eq!(pulls, 3);
    assert_eq!(compiled, 1);
    // The reflected ray leaves the scene: half the environment comes back.
    assert_eq!(l, Spectrum::new(ONE / 2));
}

#[test]
fn light_term_divides_by_density() {
    let f = Spectrum::new(ONE / 2);
    let li = Spectrum::new(2 * ONE);
    assert_eq!(light_term(&f, &li, ONE, ONE / 2), Spectrum::new(2 * ONE));
}

#[test]
fn reflected_differential_offsets_origins() {
    let si = hit_at(v(0, 0, 0), v(0, 0, ONE));
    let d = RayDifferential {
        rx_origin: v(0, 0, ONE),
        ry_origin: v(0, 0, ONE),
        rx_direction: v(0, 0, -ONE),
        ry_direction: v(0, 0, -ONE),
    };
    let r = reflect_differential(&si, &v(0, 0, ONE), &v(0, 0, ONE), &d);
    assert_eq!(r.rx_origin, v(ONE, 0, 0));
    assert_eq!(r.ry_origin, v(0, ONE, 0));
    assert_eq!(r.rx_direction, v(0, 0, ONE));
}

#[test]
fn transmitted_differential_inverts_index_on_exit() {
    let si = hit_at(v(0, 0, 0), v(0, 0, -ONE));
    let d = RayDifferential {
        rx_origin: v(0, 0, 0),
        ry_origin: v(0, 0, 0),
        rx_direction: v(0, 0, ONE),
        ry_direction: v(0, 0, ONE),
    };
    let r = transmit_differential(&si, &v(0, 0, -ONE), &v(0, 0, ONE), 2 * ONE, &d).unwrap();
    assert_eq!(r.rx_origin, v(ONE, 0, 0));
    assert_eq!(r.rx_direction, v(0, 0, ONE));
    assert!(transmit_differential(&si, &v(0, 0, -ONE), &v(ONE, 0, 0), 2 * ONE, &d).is_none());
}

#[test]
fn accessors_return_construction_values() {
    let mut integrator = WhittedIntegrator::new(3, 7u8, FixedSampler { pulls: 4 }, bounds());
    let scene = TestScene { with_floor: false, env: Spectrum::black(), point: None };
    integrator.preprocess(&scene);
    assert_eq!(*integrator.get_camera(), 7u8);
    assert_eq!(integrator.get_sampler().pulls, 4);
    assert_eq!(integrator.get_pixel_bounds(), bounds());
    assert_eq!(integrator.max_depth, 3);
}

fn compiled_mirror(r: Spectrum) -> (Vec<Bsdf>, Vec<Bxdf>) {
    let m: MirrorMaterial<ConstantSpectrumTexture, FlatBump> =
        MirrorMaterial::new(ConstantSpectrumTexture { value: r }, None);
    let mut si = hit_at(v(0, 0, 0), v(ONE / 2, 0, ONE / 2));
    let mut arena_bsdf: Vec<Bsdf> = Vec::new();
    let mut arena_bxdf: Vec<Bxdf> = Vec::new();
    m.compute_scattering_functions(&mut si, &mut arena_bsdf, &mut arena_bxdf, TransportMode::Radiance, false, None);
    (arena_bsdf, arena_bxdf)
}

#[test]
fn mirror_has_no_value_off_its_direction() {
    let scene = TestScene { with_floor: false, env: Spectrum::black(), point: None };
    let (bsdfs, bxdfs) = compiled_mirror(Spectrum::rgb(ONE / 4, ONE / 2, ONE));
    let wo = v(ONE / 2, 0, ONE / 2);
    for wi in [v(-ONE / 2, 0, ONE / 2), v(0, 0, ONE), v(0, ONE, -ONE)] {
        assert!(bsdfs[0].f(&wo, &wi, BSDF_ALL, &bxdfs, &scene).is_black());
    }
}

#[test]
fn mirror_sample_reflects_with_full_reflectance() {
    let scene = TestScene { with_floor: false, env: Spectrum::black(), point: None };
    let r = Spectrum::rgb(ONE / 4, ONE / 2, ONE);
    let (bsdfs, bxdfs) = compiled_mirror(r);
    let wo = v(ONE / 2, 0, ONE / 2);
    let s = bsdfs[0].sample_specular(&wo, (ONE / 3, 0), BSDF_REFLECTION + BSDF_SPECULAR, &bxdfs, &scene);
    assert_eq!(s.f, r);
    assert_eq!(s.wi, v(-ONE / 2, 0, ONE / 2));
    assert_eq!(s.pdf, ONE);
    let t = bsdfs[0].sample_specular(&wo, (ONE / 3, 0), BSDF_TRANSMISSION + BSDF_SPECULAR, &bxdfs, &scene);
    assert_eq!(t.pdf, 0);
}

#[test]
fn lambertian_value_and_transmission_samples() {
    let scene = TestScene { with_floor: false, env: Spectrum::black(), point: None };
    let si = hit_at(v(0, 0, 0), v(0, 0, ONE));
    let mut bsdf = Bsdf::new(&si, ONE);
    let bxdfs = vec![
        Bxdf::LambertianRefl { r: Spectrum::new(ONE), sc: None },
        Bxdf::SpecTrans { t: Spectrum::new(ONE / 2), eta_a: ONE, eta_b: ONE, mode: TransportMode::Radiance, sc: None },
        Bxdf::SpecTrans { t: Spectrum::new(ONE), eta_a: ONE, eta_b: 2 * ONE, mode: TransportMode::Radiance, sc: None },
    ];
    bsdf.add(0);
    bsdf.add(1);
    let wo = v(0, 0, ONE);
    assert_eq!(bsdf.f(&wo, &v(0, ONE / 2, ONE / 2), BSDF_ALL, &bxdfs, &scene), Spectrum::new(INV_PI));
    assert!(bsdf.f(&wo, &v(0, 0, -ONE), BSDF_ALL, &bxdfs, &scene).is_black());
    let s = bsdf.sample_specular(&wo, (0, 0), BSDF_TRANSMISSION + BSDF_SPECULAR, &bxdfs, &scene);
    assert_eq!(s.wi, v(0, 0, -ONE));
    assert_eq!(s.f, Spectrum::new(ONE / 2));
    assert_eq!(s.pdf, ONE);
    bsdf.add(2);
    // Two candidate lobes share the density; the second refracts through the
    // scene, which here reports total internal reflection.
    let a = bsdf.sample_specular(&wo, (0, 0), BSDF_TRANSMISSION + BSDF_SPECULAR, &bxdfs, &scene);
    assert_eq!(a.pdf, ONE / 2);
    let b = bsdf.sample_specular(&wo, (ONE - 1, 0), BSDF_TRANSMISSION + BSDF_SPECULAR, &bxdfs, &scene);
    assert_eq!(b.pdf, 0);
}

#[test]
fn index_matched_transmission_keeps_differential() {
    let si = hit_at(v(0, 0, 0), v(0, ONE / 2, ONE / 2));
    let d = RayDifferential {
        rx_origin: v(0, 0, ONE),
        ry_origin: v(0, 0, ONE),
        rx_direction: v(ONE / 4, -ONE / 2, -ONE / 2),
        ry_direction: v(0, -ONE / 4, -ONE / 2),
    };
    let ray = Ray { o: v(0, ONE, ONE), d: v(0, -ONE / 2, -ONE / 2), differential: Some(d) };
    let rd = transmit_ray(&si, &ray, &v(0, -ONE / 2, -ONE / 2), ONE);
    let out = rd.differential.unwrap();
    assert_eq!(rd.d, v(0, -ONE / 2, -ONE / 2));
    assert_eq!(out.rx_direction, d.rx_direction);
    assert_eq!(out.ry_direction, d.ry_direction);
}
