use vstd::prelude::*;
use crate::geometry::{add_fx, sub_fx, mul_fx, div_fx, fx_add, fx_sub, fx_mul, fx_div, ONE};

verus! {

/// A three-channel colour value in fixed-point.
#[derive(Clone, Copy, Debug, PartialEq, Eq, Structural)]
pub struct Spectrum {
    pub r: i64,
    pub g: i64,
    pub b: i64,
}

pub open spec fn rgb(r: int, g: int, b: int) -> Spectrum {
    Spectrum { r: r as i64, g: g as i64, b: b as i64 }
}

pub open spec fn uniform(v: int) -> Spectrum {
    rgb(v, v, v)
}

pub open spec fn s_black() -> Spectrum {
    uniform(0)
}

pub open spec fn s_add(a: Spectrum, b: Spectrum) -> Spectrum {
    rgb(fx_add(a.r as int, b.r as int), fx_add(a.g as int, b.g as int), fx_add(a.b as int, b.b as int))
}

pub open spec fn s_sub(a: Spectrum, b: Spectrum) -> Spectrum {
    rgb(fx_sub(a.r as int, b.r as int), fx_sub(a.g as int, b.g as int), fx_sub(a.b as int, b.b as int))
}

pub open spec fn s_mul(a: Spectrum, b: Spectrum) -> Spectrum {
    rgb(fx_mul(a.r as int, b.r as int), fx_mul(a.g as int, b.g as int), fx_mul(a.b as int, b.b as int))
}

pub open spec fn s_scale(a: Spectrum, s: int) -> Spectrum {
    rgb(fx_mul(a.r as int, s), fx_mul(a.g as int, s), fx_mul(a.b as int, s))
}

pub open spec fn s_div(a: Spectrum, s: int) -> Spectrum {
    rgb(fx_div(a.r as int, s), fx_div(a.g as int, s), fx_div(a.b as int, s))
}

pub open spec fn clamp0(v: int) -> int {
    if v < 0 { 0 } else { v }
}

/// Every channel raised to at least zero.
pub open spec fn s_clamp(a: Spectrum) -> Spectrum {
    rgb(clamp0(a.r as int), clamp0(a.g as int), clamp0(a.b as int))
}

pub open spec fn s_is_black(a: Spectrum) -> bool {
    a.r == 0 && a.g == 0 && a.b == 0
}

pub open spec fn s_nonneg(a: Spectrum) -> bool {
    a.r >= 0 && a.g >= 0 && a.b >= 0
}

impl Spectrum {
    /// The same value in every channel.
    pub fn new(v: i64) -> (r: Spectrum)
        ensures
            r == uniform(v as int),
    {
        Spectrum { r: v, g: v, b: v }
    }

    pub fn rgb(r: i64, g: i64, b: i64) -> (s: Spectrum)
        ensures
            s == (Spectrum { r, g, b }),
    {
        Spectrum { r, g, b }
    }

    pub fn black() -> (r: Spectrum)
        ensures
            r == s_black(),
    {
        Spectrum { r: 0, g: 0, b: 0 }
    }

    /// One in every channel.
    pub fn white() -> (r: Spectrum)
        ensures
            r == uniform(ONE as int),
    {
        Spectrum { r: ONE, g: ONE, b: ONE }
    }

    pub fn add(&self, o: &Spectrum) -> (r: Spectrum)
        ensures
            r == s_add(*self, *o),
    {
        Spectrum { r: add_fx(self.r, o.r), g: add_fx(self.g, o.g), b: add_fx(self.b, o.b) }
    }

    pub fn sub(&self, o: &Spectrum) -> (r: Spectrum)
        ensures
            r == s_sub(*self, *o),
    {
        Spectrum { r: sub_fx(self.r, o.r), g: sub_fx(self.g, o.g), b: sub_fx(self.b, o.b) }
    }

    pub fn mul(&self, o: &Spectrum) -> (r: Spectrum)
        ensures
            r == s_mul(*self, *o),
    {
        Spectrum { r: mul_fx(self.r, o.r), g: mul_fx(self.g, o.g), b: mul_fx(self.b, o.b) }
    }

    pub fn scale(&self, s: i64) -> (r: Spectrum)
        ensures
            r == s_scale(*self, s as int),
    {
        Spectrum { r: mul_fx(self.r, s), g: mul_fx(self.g, s), b: mul_fx(self.b, s) }
    }

    pub fn div(&self, s: i64) -> (r: Spectrum)
        requires
            s != 0,
        ensures
            r == s_div(*self, s as int),
    {
        Spectrum { r: div_fx(self.r, s), g: div_fx(self.g, s), b: div_fx(self.b, s) }
    }

    /// Raises every negative channel to zero; the upper end is unbounded.
    pub fn clamp_nonneg(&self) -> (r: Spectrum)
        ensures
            r == s_clamp(*self),
            s_nonneg(r),
    {
        Spectrum {
            r: if self.r < 0 { 0 } else { self.r },
            g: if self.g < 0 { 0 } else { self.g },
            b: if self.b < 0 { 0 } else { self.b },
        }
    }

    pub fn is_black(&self) -> (r: bool)
        ensures
            r == s_is_black(*self),
    {
        self.r == 0 && self.g == 0 && self.b == 0
    }
}

} // verus!
