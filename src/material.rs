use vstd::prelude::*;
use crate::interaction::SurfaceInteraction;
use crate::reflection::{Bsdf, Bxdf};
use crate::spectrum::Spectrum;
use crate::texture::BumpMap;

verus! {

/// Named material parameters, each unset or bound to a constant value, and
/// an optional bump map.
#[derive(Clone, Copy, Debug)]
pub struct TextureParams<B> {
    pub bump_map: Option<B>,
    pub kd: Option<Spectrum>,
    pub ks: Option<Spectrum>,
    pub kr: Option<Spectrum>,
    pub kt: Option<Spectrum>,
    pub opacity: Option<Spectrum>,
    pub roughness: Option<i64>,
    pub u_roughness: Option<i64>,
    pub v_roughness: Option<i64>,
    pub eta: Option<i64>,
    pub index: Option<i64>,
    pub remap_roughness: Option<bool>,
}

pub open spec fn or_default<T>(v: Option<T>, d: T) -> T {
    match v {
        Some(x) => x,
        None => d,
    }
}

/// The hit point as the lobes see it: after the bump map, if there is one, has run.
pub open spec fn bumped<B: BumpMap>(bump_map: Option<B>, si: SurfaceInteraction) -> SurfaceInteraction {
    match bump_map {
        Some(b) => b.spec_bump(si),
        None => si,
    }
}

/// `s` with `b` appended when `c` holds.
pub open spec fn push_if(s: Seq<Bxdf>, c: bool, b: Bxdf) -> Seq<Bxdf> {
    if c { s.push(b) } else { s }
}

/// The arena indices `start, start + 1, ..., start + n - 1`.
pub open spec fn index_range(start: int, n: int) -> Seq<usize> {
    Seq::new(n as nat, |j: int| (start + j) as usize)
}

/// The hit point with its BSDF handle set.
pub open spec fn with_bsdf(si: SurfaceInteraction, h: int) -> SurfaceInteraction {
    SurfaceInteraction { bsdf: Some(h as usize), ..si }
}

pub(crate) fn run_bump<B: BumpMap>(bump_map: &Option<B>, si: &mut SurfaceInteraction)
    ensures
        *final(si) == bumped(*bump_map, *old(si)),
        *final(si) == (SurfaceInteraction { shading: final(si).shading, ..*old(si) }),
{
    match bump_map {
        Some(b) => b.bump(si),
        None => {},
    }
}

/// Appends a lobe to the lobe arena and lists its index in the BSDF.
pub(crate) fn push_lobe(arena_bxdf: &mut Vec<Bxdf>, bsdf: &mut Bsdf, lobe: Bxdf)
    ensures
        final(arena_bxdf)@ == old(arena_bxdf)@.push(lobe),
        final(bsdf).bxdfs@ == old(bsdf).bxdfs@.push(old(arena_bxdf)@.len() as usize),
        final(bsdf).eta == old(bsdf).eta,
        final(bsdf).ns == old(bsdf).ns,
        final(bsdf).ng == old(bsdf).ng,
{
    arena_bxdf.push(lobe);
    bsdf.add(arena_bxdf.len() - 1);
}

/// Stores the BSDF in its arena and records its handle in the hit point.
pub(crate) fn store_bsdf(arena_bsdf: &mut Vec<Bsdf>, si: &mut SurfaceInteraction, bsdf: Bsdf)
    ensures
        final(arena_bsdf)@ == old(arena_bsdf)@.push(bsdf),
        *final(si) == with_bsdf(*old(si), old(arena_bsdf)@.len() as int),
{
    arena_bsdf.push(bsdf);
    si.bsdf = Some(arena_bsdf.len() - 1);
}

} // verus!
