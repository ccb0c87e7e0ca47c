use vstd::prelude::*;

verus! {

/// Fixed-point representation of the value one: scalars carry sixteen fraction bits.
pub const ONE: i64 = 65536;

/// Saturates a mathematical integer into the range of `i64`.
pub open spec fn clamp64(x: int) -> int {
    if x < i64::MIN {
        i64::MIN as int
    } else if x > i64::MAX {
        i64::MAX as int
    } else {
        x
    }
}

/// Division rounded toward zero.
pub open spec fn tdiv(a: int, b: int) -> int {
    let q = abs(a) / abs(b);
    if (a < 0) != (b < 0) { -q } else { q }
}

pub open spec fn abs(a: int) -> int {
    if a < 0 { -a } else { a }
}

/// Saturating sum.
pub open spec fn fx_add(a: int, b: int) -> int {
    clamp64(a + b)
}

/// Saturating difference.
pub open spec fn fx_sub(a: int, b: int) -> int {
    clamp64(a - b)
}

/// Fixed-point product, rounded toward zero and saturated.
pub open spec fn fx_mul(a: int, b: int) -> int {
    clamp64(tdiv(a * b, ONE as int))
}

/// Fixed-point quotient, rounded toward zero and saturated.
pub open spec fn fx_div(a: int, b: int) -> int {
    clamp64(tdiv(a * ONE, b))
}

fn clamp_i128(x: i128) -> (r: i64)
    ensures
        r == clamp64(x as int),
{
    if x < i64::MIN as i128 {
        i64::MIN
    } else if x > i64::MAX as i128 {
        i64::MAX
    } else {
        x as i64
    }
}

fn tdiv_i128(a: i128, b: i128) -> (q: i128)
    requires
        b != 0,
        a > i128::MIN,
        b > i128::MIN,
    ensures
        q == tdiv(a as int, b as int),
{
    let ua: u128 = if a < 0 { (-a) as u128 } else { a as u128 };
    let ub: u128 = if b < 0 { (-b) as u128 } else { b as u128 };
    let uq: u128 = ua / ub;
    proof {
        assert(uq <= ua) by (nonlinear_arith)
            requires uq == ua / ub, ub >= 1;
    }
    let q: i128 = uq as i128;
    if (a < 0) != (b < 0) { -q } else { q }
}

proof fn lemma_product_bound(a: int, b: int)
    requires
        i64::MIN <= a <= i64::MAX,
        i64::MIN <= b <= i64::MAX,
    ensures
        -0x4000_0000_0000_0000_0000_0000_0000_0000 <= a * b <= 0x4000_0000_0000_0000_0000_0000_0000_0000,
{
    assert(-0x4000_0000_0000_0000_0000_0000_0000_0000 <= a * b <= 0x4000_0000_0000_0000_0000_0000_0000_0000) by (nonlinear_arith)
        requires i64::MIN <= a <= i64::MAX, i64::MIN <= b <= i64::MAX;
}

/// Saturating sum of two fixed-point scalars.
pub fn add_fx(a: i64, b: i64) -> (r: i64)
    ensures
        r == fx_add(a as int, b as int),
{
    clamp_i128(a as i128 + b as i128)
}

/// Saturating difference of two fixed-point scalars.
pub fn sub_fx(a: i64, b: i64) -> (r: i64)
    ensures
        r == fx_sub(a as int, b as int),
{
    clamp_i128(a as i128 - b as i128)
}

/// Product of two fixed-point scalars.
pub fn mul_fx(a: i64, b: i64) -> (r: i64)
    ensures
        r == fx_mul(a as int, b as int),
{
    proof {
        lemma_product_bound(a as int, b as int);
    }
    let p: i128 = a as i128 * b as i128;
    clamp_i128(tdiv_i128(p, ONE as i128))
}

/// Quotient of two fixed-point scalars.
pub fn div_fx(a: i64, b: i64) -> (r: i64)
    requires
        b != 0,
    ensures
        r == fx_div(a as int, b as int),
{
    proof {
        lemma_product_bound(a as int, ONE as int);
    }
    let p: i128 = a as i128 * ONE as i128;
    clamp_i128(tdiv_i128(p, b as i128))
}


/// A direction, point or normal in fixed-point coordinates.
#[derive(Clone, Copy, Debug, PartialEq, Eq, Structural)]
pub struct Vector3 {
    pub x: i64,
    pub y: i64,
    pub z: i64,
}

pub open spec fn vec3(x: int, y: int, z: int) -> Vector3 {
    Vector3 { x: x as i64, y: y as i64, z: z as i64 }
}

pub open spec fn v_add(a: Vector3, b: Vector3) -> Vector3 {
    vec3(fx_add(a.x as int, b.x as int), fx_add(a.y as int, b.y as int), fx_add(a.z as int, b.z as int))
}

pub open spec fn v_sub(a: Vector3, b: Vector3) -> Vector3 {
    vec3(fx_sub(a.x as int, b.x as int), fx_sub(a.y as int, b.y as int), fx_sub(a.z as int, b.z as int))
}

pub open spec fn v_neg(a: Vector3) -> Vector3 {
    vec3(fx_sub(0, a.x as int), fx_sub(0, a.y as int), fx_sub(0, a.z as int))
}

pub open spec fn v_scale(a: Vector3, s: int) -> Vector3 {
    vec3(fx_mul(a.x as int, s), fx_mul(a.y as int, s), fx_mul(a.z as int, s))
}

/// Fixed-point dot product: the saturating sum of the fixed-point products.
pub open spec fn v_dot(a: Vector3, b: Vector3) -> int {
    fx_add(fx_add(fx_mul(a.x as int, b.x as int), fx_mul(a.y as int, b.y as int)), fx_mul(a.z as int, b.z as int))
}

/// Mirror image of `wo` about the normal `n`: `2 (wo . n) n - wo`.
pub open spec fn v_reflect(wo: Vector3, n: Vector3) -> Vector3 {
    v_add(v_neg(wo), v_scale(n, fx_add(v_dot(wo, n), v_dot(wo, n))))
}

impl Vector3 {
    pub fn new(x: i64, y: i64, z: i64) -> (r: Vector3)
        ensures
            r == (Vector3 { x, y, z }),
    {
        Vector3 { x, y, z }
    }

    pub fn add(&self, o: &Vector3) -> (r: Vector3)
        ensures
            r == v_add(*self, *o),
    {
        Vector3 { x: add_fx(self.x, o.x), y: add_fx(self.y, o.y), z: add_fx(self.z, o.z) }
    }

    pub fn sub(&self, o: &Vector3) -> (r: Vector3)
        ensures
            r == v_sub(*self, *o),
    {
        Vector3 { x: sub_fx(self.x, o.x), y: sub_fx(self.y, o.y), z: sub_fx(self.z, o.z) }
    }

    pub fn neg(&self) -> (r: Vector3)
        ensures
            r == v_neg(*self),
    {
        Vector3 { x: sub_fx(0, self.x), y: sub_fx(0, self.y), z: sub_fx(0, self.z) }
    }

    pub fn scale(&self, s: i64) -> (r: Vector3)
        ensures
            r == v_scale(*self, s as int),
    {
        Vector3 { x: mul_fx(self.x, s), y: mul_fx(self.y, s), z: mul_fx(self.z, s) }
    }

    pub fn dot(&self, o: &Vector3) -> (r: i64)
        ensures
            r == v_dot(*self, *o),
    {
        add_fx(add_fx(mul_fx(self.x, o.x), mul_fx(self.y, o.y)), mul_fx(self.z, o.z))
    }

    /// Absolute value of the dot product.
    pub fn abs_dot(&self, o: &Vector3) -> (r: i64)
        ensures
            r == clamp64(abs(v_dot(*self, *o))),
    {
        let d = self.dot(o);
        if d < 0 {
            sub_fx(0, d)
        } else {
            d
        }
    }

    /// Reflection of `self` about the normal `n`.
    pub fn reflect(&self, n: &Vector3) -> (r: Vector3)
        ensures
            r == v_reflect(*self, *n),
    {
        let d = self.dot(n);
        self.neg().add(&n.scale(add_fx(d, d)))
    }
}

/// Screen-space footprint of a ray: the two neighbouring rays offset by one pixel in x and in y.
#[derive(Clone, Copy, Debug, PartialEq, Eq, Structural)]
pub struct RayDifferential {
    pub rx_origin: Vector3,
    pub ry_origin: Vector3,
    pub rx_direction: Vector3,
    pub ry_direction: Vector3,
}

/// A ray with an origin, a direction and an optional differential.
#[derive(Clone, Copy, Debug, PartialEq, Eq, Structural)]
pub struct Ray {
    pub o: Vector3,
    pub d: Vector3,
    pub differential: Option<RayDifferential>,
}

/// Integer pixel rectangle of the image being rendered.
#[derive(Clone, Copy, Debug, PartialEq, Eq, Structural)]
pub struct Bounds2i {
    pub min_x: i32,
    pub min_y: i32,
    pub max_x: i32,
    pub max_y: i32,
}

/// A unit normal along one coordinate axis.
pub open spec fn is_axis_normal(n: Vector3) -> bool {
    ||| (n.x == ONE || n.x == -ONE) && n.y == 0 && n.z == 0
    ||| n.x == 0 && (n.y == ONE || n.y == -ONE) && n.z == 0
    ||| n.x == 0 && n.y == 0 && (n.z == ONE || n.z == -ONE)
}

/// Every coordinate lies within `[-ONE, ONE]`, as for a unit direction.
pub open spec fn is_bounded_dir(w: Vector3) -> bool {
    -ONE <= w.x <= ONE && -ONE <= w.y <= ONE && -ONE <= w.z <= ONE
}

proof fn lemma_mul_unit(a: int, u: int)
    requires
        -4 * ONE <= a <= 4 * ONE,
        u == ONE || u == -ONE || u == 0,
    ensures
        fx_mul(a, u) == (if u == ONE { a } else if u == -ONE { -a } else { 0 }),
        fx_mul(u, a) == fx_mul(a, u),
{
    assert(u * a == a * u) by (nonlinear_arith);
    if u == 0 {
        assert(a * u == 0) by (nonlinear_arith) requires u == 0;
    } else {
        assert(abs(a * u) == abs(a) * 65536int) by (nonlinear_arith)
            requires u == 65536int || u == -65536int;
        assert((abs(a) * 65536int) / 65536int == abs(a)) by (nonlinear_arith);
        if a != 0 {
            assert((a * u < 0) == ((a < 0) != (u < 0))) by (nonlinear_arith)
                requires u != 0, a != 0;
        } else {
            assert(a * u == 0) by (nonlinear_arith) requires a == 0;
        }
    }
}

/// Multiplying by one leaves a fixed-point value unchanged.
pub proof fn lemma_mul_one(a: int)
    requires
        i64::MIN <= a <= i64::MAX,
    ensures
        fx_mul(a, ONE as int) == a,
        fx_mul(ONE as int, a) == a,
{
    assert(ONE * a == a * ONE) by (nonlinear_arith);
    assert(abs(a * 65536int) == abs(a) * 65536int) by (nonlinear_arith);
    assert((abs(a) * 65536int) / 65536int == abs(a)) by (nonlinear_arith);
    if a != 0 {
        assert((a * 65536int < 0) == (a < 0)) by (nonlinear_arith)
            requires a != 0;
    } else {
        assert(a * 65536int == 0) by (nonlinear_arith) requires a == 0;
    }
}

/// Multiplying by zero gives zero.
pub proof fn lemma_mul_zero()
    ensures
        forall|a: int| #[trigger] fx_mul(0, a) == 0 && fx_mul(a, 0) == 0,
{
    assert forall|a: int| #[trigger] fx_mul(0, a) == 0 && fx_mul(a, 0) == 0 by {
        assert(0 * a == 0 && a * 0 == 0) by (nonlinear_arith);
    }
}

proof fn lemma_reflect_axis(w: Vector3, n: Vector3)
    requires
        is_axis_normal(n),
        is_bounded_dir(w),
    ensures
        is_bounded_dir(v_reflect(w, n)),
        v_reflect(w, n) == (if n.x != 0 {
            vec3(w.x as int, -w.y, -w.z)
        } else if n.y != 0 {
            vec3(-w.x, w.y as int, -w.z)
        } else {
            vec3(-w.x, -w.y, w.z as int)
        }),
{
    lemma_mul_unit(w.x as int, n.x as int);
    lemma_mul_unit(w.y as int, n.y as int);
    lemma_mul_unit(w.z as int, n.z as int);
    let d = v_dot(w, n);
    let d2 = fx_add(d, d);
    assert(-2 * ONE <= d2 <= 2 * ONE);
    lemma_mul_unit(d2, n.x as int);
    lemma_mul_unit(d2, n.y as int);
    lemma_mul_unit(d2, n.z as int);
}

/// A direction reflected off an axis-aligned mirror and then off a second,
/// parallel mirror (facing either way) comes back unchanged.
pub proof fn lemma_parallel_mirrors_round_trip(w: Vector3, n1: Vector3, n2: Vector3)
    requires
        is_axis_normal(n1),
        n2 == n1 || n2 == v_neg(n1),
        is_bounded_dir(w),
    ensures
        v_reflect(v_reflect(w, n1), n2) == w,
{
    lemma_reflect_axis(w, n1);
    assert(is_axis_normal(n2));
    lemma_reflect_axis(v_reflect(w, n1), n2);
}

} // verus!
