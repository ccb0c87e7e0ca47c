use pbrt_core::geometry::{Vector3, ONE};
use pbrt_core::interaction::{Shading, SurfaceInteraction};
use pbrt_core::material::TextureParams;
use pbrt_core::mirror::{MirrorMaterial, DEFAULT_MIRROR_KR};
use pbrt_core::reflection::{Bsdf, Bxdf, Fresnel, TransportMode, TrowbridgeReitz};
use pbrt_core::spectrum::Spectrum;
use pbrt_core::texture::{BumpMap, ConstantFloatTexture, ConstantSpectrumTexture, FlatBump};
use pbrt_core::uber::{UberMaterial, DEFAULT_UBER_INDEX, DEFAULT_UBER_KD, DEFAULT_UBER_ROUGHNESS};

fn v(x: i64, y: i64, z: i64) -> Vector3 {
    Vector3::new(x, y, z)
}

fn surface() -> SurfaceInteraction {
    SurfaceInteraction {
        p: v(0, 0, 0),
        n: v(0, 0, ONE),
        wo: v(0, 0, ONE),
        shading: Shading { n: v(0, 0, ONE), dndu: v(0, 0, 0), dndv: v(0, 0, 0) },
        dpdx: v(0, 0, 0),
        dpdy: v(0, 0, 0),
        dudx: 0,
        dvdx: 0,
        dudy: 0,
        dvdy: 0,
        bsdf: None,
    }
}

fn no_params() -> TextureParams<FlatBump> {
    TextureParams {
        bump_map: None,
        kd: None,
        ks: None,
        kr: None,
        kt: None,
        opacity: None,
        roughness: None,
        u_roughness: None,
        v_roughness: None,
        eta: None,
        index: None,
        remap_roughness: None,
    }
}

type Uber = UberMaterial<ConstantSpectrumTexture, ConstantFloatTexture, FlatBump>;

fn compile(m: &Uber, sc: Option<Spectrum>) -> (Vec<Bsdf>, Vec<Bxdf>, SurfaceInteraction) {
    let mut si = surface();
    let mut arena_bsdf: Vec<Bsdf> = Vec::new();
    let mut arena_bxdf: Vec<Bxdf> = Vec::new();
    m.compute_scattering_functions(&mut si, &mut arena_bsdf, &mut arena_bxdf, TransportMode::Radiance, false, sc);
    (arena_bsdf, arena_bxdf, si)
}

#[test]
fn uber_defaults_give_diffuse_and_glossy_lobes() {
    let m = Uber::create(&no_params());
    assert_eq!(m.kd.value, Spectrum::new(DEFAULT_UBER_KD));
    assert_eq!(m.roughness.value, DEFAULT_UBER_ROUGHNESS);
    assert_eq!(m.eta.value, DEFAULT_UBER_INDEX);
    assert!(m.remap_roughness);
    let (bsdfs, bxdfs, si) = compile(&m, None);
    assert_eq!(si.bsdf, Some(0));
    assert_eq!(bsdfs.len(), 1);
    assert_eq!(bsdfs[0].eta, DEFAULT_UBER_INDEX);
    assert_eq!(bsdfs[0].bxdfs, vec![0, 1]);
    assert_eq!(bxdfs[0], Bxdf::LambertianRefl { r: Spectrum::new(DEFAULT_UBER_KD), sc: None });
    assert_eq!(
        bxdfs[1],
        Bxdf::MicrofacetRefl {
            r: Spectrum::new(DEFAULT_UBER_KD),
            distrib: TrowbridgeReitz { u_rough: DEFAULT_UBER_ROUGHNESS, v_rough: DEFAULT_UBER_ROUGHNESS, remap: true },
            fresnel: Fresnel::Dielectric { eta_i: ONE, eta_t: DEFAULT_UBER_INDEX },
            sc: None,
        }
    );
}

#[test]
fn uber_black_spectra_add_no_lobe() {
    let mut p = no_params();
    p.kd = Some(Spectrum::black());
    p.ks = Some(Spectrum::rgb(-ONE, 0, -5));
    let (bsdfs, bxdfs, _) = compile(&Uber::create(&p), None);
    assert_eq!(bxdfs.len(), 0);
    assert_eq!(bsdfs[0].bxdfs.len(), 0);
}

#[test]
fn uber_opaque_keeps_index_and_has_no_transmission() {
    let mut p = no_params();
    p.opacity = Some(Spectrum::new(ONE));
    p.eta = Some(2 * ONE);
    p.index = Some(3 * ONE);
    let (bsdfs, bxdfs, _) = compile(&Uber::create(&p), None);
    assert_eq!(bsdfs[0].eta, 2 * ONE);
    assert!(bxdfs.iter().all(|b| !matches!(b, Bxdf::SpecTrans { .. })));
}

#[test]
fn uber_index_used_when_eta_unset() {
    let mut p = no_params();
    p.index = Some(3 * ONE);
    let (bsdfs, _, _) = compile(&Uber::create(&p), None);
    assert_eq!(bsdfs[0].eta, 3 * ONE);
}

#[test]
fn uber_transparent_passes_through() {
    let mut p = no_params();
    p.opacity = Some(Spectrum::black());
    p.kr = Some(Spectrum::new(ONE));
    p.kt = Some(Spectrum::new(ONE));
    let (bsdfs, bxdfs, _) = compile(&Uber::create(&p), None);
    assert_eq!(bsdfs[0].eta, ONE);
    assert_eq!(
        bxdfs,
        vec![Bxdf::SpecTrans { t: Spectrum::new(ONE), eta_a: ONE, eta_b: ONE, mode: TransportMode::Radiance, sc: None }]
    );
}

#[test]
fn uber_half_opacity_scales_reflectances() {
    let mut p = no_params();
    p.opacity = Some(Spectrum::new(ONE / 2));
    p.kd = Some(Spectrum::new(ONE));
    p.ks = Some(Spectrum::black());
    p.kr = Some(Spectrum::new(ONE));
    p.kt = Some(Spectrum::new(ONE));
    p.u_roughness = Some(7);
    let sc = Some(Spectrum::new(2 * ONE));
    let (bsdfs, bxdfs, _) = compile(&Uber::create(&p), sc);
    assert_eq!(bsdfs[0].eta, ONE);
    assert_eq!(bsdfs[0].bxdfs, vec![0, 1, 2, 3]);
    let half = Spectrum::new(ONE / 2);
    assert_eq!(bxdfs[0], Bxdf::SpecTrans { t: half, eta_a: ONE, eta_b: ONE, mode: TransportMode::Radiance, sc });
    assert_eq!(bxdfs[1], Bxdf::LambertianRefl { r: half, sc });
    assert_eq!(bxdfs[2], Bxdf::SpecRefl { r: half, fresnel: Fresnel::Dielectric { eta_i: ONE, eta_t: DEFAULT_UBER_INDEX }, sc });
    assert_eq!(
        bxdfs[3],
        Bxdf::SpecTrans { t: half, eta_a: ONE, eta_b: DEFAULT_UBER_INDEX, mode: TransportMode::Radiance, sc }
    );
}

#[test]
fn uber_compiled_twice_appends_equal_lobes() {
    let m = Uber::create(&no_params());
    let si0 = surface();
    let mut si = si0;
    let mut arena_bsdf: Vec<Bsdf> = Vec::new();
    let mut arena_bxdf: Vec<Bxdf> = Vec::new();
    m.compute_scattering_functions(&mut si, &mut arena_bsdf, &mut arena_bxdf, TransportMode::Radiance, false, None);
    let mut si2 = si0;
    m.compute_scattering_functions(&mut si2, &mut arena_bsdf, &mut arena_bxdf, TransportMode::Radiance, false, None);
    assert_eq!(arena_bsdf.len(), 2);
    assert_eq!(arena_bxdf.len(), 4);
    assert_eq!(arena_bxdf[0..2], arena_bxdf[2..4]);
    assert_eq!(arena_bsdf[1].bxdfs, vec![2, 3]);
    assert_eq!(arena_bsdf[0].eta, arena_bsdf[1].eta);
    assert_eq!(si2.bsdf, Some(1));
}

#[test]
fn mirror_default_reflectance() {
    let m = MirrorMaterial::create(&no_params());
    assert_eq!(m.kr.value, Spectrum::new(DEFAULT_MIRROR_KR));
    assert!(m.bump_map.is_none());
    let mut p = no_params();
    p.bump_map = Some(FlatBump);
    assert_eq!(MirrorMaterial::create(&p).bump_map, Some(FlatBump));
    assert_eq!(Uber::create(&p).bump_map, Some(FlatBump));
}

#[test]
fn mirror_clamps_reflectance_and_uses_unit_index() {
    let m: MirrorMaterial<ConstantSpectrumTexture, FlatBump> =
        MirrorMaterial::new(ConstantSpectrumTexture { value: Spectrum::rgb(-ONE, ONE, 3) }, Some(FlatBump));
    let mut si = surface();
    let mut arena_bsdf: Vec<Bsdf> = Vec::new();
    let mut arena_bxdf: Vec<Bxdf> = vec![Bxdf::LambertianRefl { r: Spectrum::black(), sc: None }];
    m.compute_scattering_functions(&mut si, &mut arena_bsdf, &mut arena_bxdf, TransportMode::Radiance, false, None);
    assert_eq!(si.bsdf, Some(0));
    assert_eq!(arena_bsdf[0].eta, ONE);
    assert_eq!(arena_bsdf[0].bxdfs, vec![1]);
    assert_eq!(arena_bxdf[1], Bxdf::SpecRefl { r: Spectrum::rgb(0, ONE, 3), fresnel: Fresnel::NoOp, sc: None });
}

#[test]
fn flat_bump_leaves_surface() {
    let mut si = surface();
    FlatBump.bump(&mut si);
    assert_eq!(si, surface());
}

#[test]
fn mirror_black_reflectance_adds_no_lobe() {
    let m: MirrorMaterial<ConstantSpectrumTexture, FlatBump> =
        MirrorMaterial::new(ConstantSpectrumTexture { value: Spectrum::rgb(-ONE, 0, -1) }, None);
    let mut si = surface();
    let mut arena_bsdf: Vec<Bsdf> = Vec::new();
    let mut arena_bxdf: Vec<Bxdf> = Vec::new();
    m.compute_scattering_functions(&mut si, &mut arena_bsdf, &mut arena_bxdf, TransportMode::Radiance, false, None);
    assert_eq!(si.bsdf, Some(0));
    assert_eq!(arena_bsdf[0].eta, ONE);
    assert!(arena_bsdf[0].bxdfs.is_empty());
    assert!(arena_bxdf.is_empty());
}
