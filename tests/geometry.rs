use pbrt_core::geometry::{add_fx, div_fx, mul_fx, sub_fx, Vector3, ONE};
use pbrt_core::spectrum::Spectrum;

#[test]
fn fixed_point_arithmetic() {
    assert_eq!(mul_fx(3 * ONE, ONE / 2), 3 * ONE / 2);
    assert_eq!(mul_fx(-3, ONE / 2), -1);
    assert_eq!(div_fx(ONE, 4 * ONE), ONE / 4);
    assert_eq!(div_fx(-ONE, 3 * ONE), -21845);
    assert_eq!(add_fx(i64::MAX, 1), i64::MAX);
    assert_eq!(sub_fx(i64::MIN, 1), i64::MIN);
    assert_eq!(mul_fx(i64::MAX, i64::MAX), i64::MAX);
}

#[test]
fn dot_and_reflect() {
    let w = Vector3::new(ONE / 2, 0, -ONE / 2);
    let n = Vector3::new(0, 0, ONE);
    assert_eq!(w.dot(&n), -ONE / 2);
    assert_eq!(w.abs_dot(&n), ONE / 2);
    assert_eq!(w.reflect(&n), Vector3::new(-ONE / 2, 0, -ONE / 2));
}

#[test]
fn parallel_mirrors_return_direction() {
    let w = Vector3::new(ONE / 3, -ONE / 5, -ONE / 2);
    for n in [Vector3::new(0, 0, ONE), Vector3::new(-ONE, 0, 0), Vector3::new(0, ONE, 0)] {
        assert_eq!(w.reflect(&n).reflect(&n.neg()), w);
        assert_eq!(w.reflect(&n).reflect(&n), w);
    }
}

#[test]
fn spectrum_operations() {
    let a = Spectrum::rgb(ONE, -ONE, 2 * ONE);
    assert_eq!(a.clamp_nonneg(), Spectrum::rgb(ONE, 0, 2 * ONE));
    assert_eq!(a.mul(&Spectrum::new(ONE / 2)), Spectrum::rgb(ONE / 2, -ONE / 2, ONE));
    assert_eq!(a.scale(2 * ONE), Spectrum::rgb(2 * ONE, -2 * ONE, 4 * ONE));
    assert_eq!(a.div(2 * ONE), Spectrum::rgb(ONE / 2, -ONE / 2, ONE));
    assert_eq!(a.add(&a).sub(&a), a);
    assert!(Spectrum::black().is_black());
    assert!(!Spectrum::white().is_black());
}
