use vstd::prelude::*;
use crate::interaction::SurfaceInteraction;
use crate::spectrum::Spectrum;

verus! {

/// A colour that varies over surfaces; the same point always gives the same value.
pub trait SpectrumTexture {
    spec fn spec_evaluate(&self, si: SurfaceInteraction) -> Spectrum;

    fn evaluate(&self, si: &SurfaceInteraction) -> (r: Spectrum)
        ensures
            r == self.spec_evaluate(*si),
    ;
}

/// A fixed-point scalar that varies over surfaces; the same point always gives the same value.
pub trait FloatTexture {
    spec fn spec_evaluate(&self, si: SurfaceInteraction) -> i64;

    fn evaluate(&self, si: &SurfaceInteraction) -> (r: i64)
        ensures
            r == self.spec_evaluate(*si),
    ;
}

/// A displacement map that perturbs the shading geometry of a hit point and
/// nothing else.
pub trait BumpMap {
    spec fn spec_bump(&self, si: SurfaceInteraction) -> SurfaceInteraction;

    fn bump(&self, si: &mut SurfaceInteraction)
        ensures
            *final(si) == self.spec_bump(*old(si)),
            *final(si) == (SurfaceInteraction { shading: final(si).shading, ..*old(si) }),
    ;
}

/// A texture with one colour everywhere.
#[derive(Clone, Copy, Debug, PartialEq, Eq, Structural)]
pub struct ConstantSpectrumTexture {
    pub value: Spectrum,
}

/// A texture with one scalar everywhere.
#[derive(Clone, Copy, Debug, PartialEq, Eq, Structural)]
pub struct ConstantFloatTexture {
    pub value: i64,
}

/// The flat surface: leaves the shading geometry as it is.
#[derive(Clone, Copy, Debug, PartialEq, Eq, Structural)]
pub struct FlatBump;

impl SpectrumTexture for ConstantSpectrumTexture {
    open spec fn spec_evaluate(&self, si: SurfaceInteraction) -> Spectrum {
        self.value
    }

    fn evaluate(&self, si: &SurfaceInteraction) -> (r: Spectrum) {
        self.value
    }
}

impl FloatTexture for ConstantFloatTexture {
    open spec fn spec_evaluate(&self, si: SurfaceInteraction) -> i64 {
        self.value
    }

    fn evaluate(&self, si: &SurfaceInteraction) -> (r: i64) {
        self.value
    }
}

impl BumpMap for FlatBump {
    open spec fn spec_bump(&self, si: SurfaceInteraction) -> SurfaceInteraction {
        si
    }

    fn bump(&self, si: &mut SurfaceInteraction) {
    }
}

} // verus!
