use swoop::fp::{
    EPSILON_BITS, HALF_BITS, NEG_ONE_BITS, ONE_BITS, TWO_BITS, ZERO_BITS,
};
use swoop::minimise_scalar::bounded::{GOLDEN_MEAN_BITS, SQRT_EPS_BITS, XATOL_THIRD_BITS};
use swoop::minimise_scalar::brent::{BRENT_XTOL_DEFAULT_BITS, CG_BITS, MIN_TOL_BITS};
use swoop::minimise_scalar::golden::{GC_BITS, GOLDEN_XTOL_DEFAULT_BITS, GR_BITS};
use swoop::minimise_scalar::{brent, golden, ScalarExpression, GOLD_BITS, GROW_LIMIT_DEFAULT_BITS, VERY_SMALL_BITS};

#[test]
fn small_constants_hold_their_values() {
    assert_eq!(ZERO_BITS, 0f64.to_bits());
    assert_eq!(ONE_BITS, 1f64.to_bits());
    assert_eq!(NEG_ONE_BITS, (-1f64).to_bits());
    assert_eq!(TWO_BITS, 2f64.to_bits());
    assert_eq!(HALF_BITS, 0.5f64.to_bits());
    assert_eq!(EPSILON_BITS, f64::EPSILON.to_bits());
}

#[test]
fn bracketing_constants_hold_their_values() {
    assert_eq!(GOLD_BITS, 1.618_034f64.to_bits());
    assert_eq!(VERY_SMALL_BITS, 1e-21f64.to_bits());
    assert_eq!(GROW_LIMIT_DEFAULT_BITS, 110f64.to_bits());
}

#[test]
fn golden_constants_hold_their_values() {
    assert_eq!(GR_BITS, 0.618_033_99f64.to_bits());
    assert_eq!(GC_BITS, (1.0f64 - 0.618_033_99f64).to_bits());
    assert_eq!(GOLDEN_XTOL_DEFAULT_BITS, 2.22e-16f64.to_bits());
}

#[test]
fn brent_constants_hold_their_values() {
    assert_eq!(BRENT_XTOL_DEFAULT_BITS, 1.48e-8f64.to_bits());
    assert_eq!(MIN_TOL_BITS, 1.0e-11f64.to_bits());
    assert_eq!(CG_BITS, 0.381_966_0f64.to_bits());
}

#[test]
fn bounded_constants_hold_their_values() {
    assert_eq!(SQRT_EPS_BITS, f64::EPSILON.sqrt().to_bits());
    assert_eq!(GOLDEN_MEAN_BITS, (0.5f64 * (3.0f64 - 5.0f64.sqrt())).to_bits());
    assert_eq!(XATOL_THIRD_BITS, (1e-5f64 / 3.0f64).to_bits());
}

/// `(x - 2) * x * (x + 2)^2`, with the square written as a product.
fn quartic() -> ScalarExpression {
    let two = || Box::new(ScalarExpression::Value(2f64.to_bits()));
    let x = || Box::new(ScalarExpression::Var);
    ScalarExpression::Mul(
        Box::new(ScalarExpression::Mul(
            Box::new(ScalarExpression::Sub(x(), two())),
            x(),
        )),
        Box::new(ScalarExpression::Mul(
            Box::new(ScalarExpression::Add(x(), two())),
            Box::new(ScalarExpression::Add(x(), two())),
        )),
    )
}

#[test]
fn passing_the_default_tolerance_changes_nothing() {
    let with_default = golden(quartic(), None, 500usize).unwrap();
    let spelled_out = golden(quartic(), Some(2.22e-16f64.to_bits()), 500usize).unwrap();
    assert_eq!(with_default.fun, spelled_out.fun);
    assert_eq!(with_default.x, spelled_out.x);
    assert_eq!(with_default.nfev, spelled_out.nfev);

    let with_default = brent(quartic(), None, 500usize).unwrap();
    let spelled_out = brent(quartic(), Some(1.48e-8f64.to_bits()), 500usize).unwrap();
    assert_eq!(with_default.fun, spelled_out.fun);
    assert_eq!(with_default.x, spelled_out.x);
    assert_eq!(with_default.nfev, spelled_out.nfev);
}
