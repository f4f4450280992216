use swoop::minimise_scalar::{bounded, brent, golden, ScalarExpression};
use swoop::SwoopErrors;

fn var() -> ScalarExpression {
    ScalarExpression::Var
}

fn val(x: f64) -> ScalarExpression {
    ScalarExpression::Value(x.to_bits())
}

fn plus(a: ScalarExpression, b: ScalarExpression) -> ScalarExpression {
    ScalarExpression::Add(Box::new(a), Box::new(b))
}

fn minus(a: ScalarExpression, b: ScalarExpression) -> ScalarExpression {
    ScalarExpression::Sub(Box::new(a), Box::new(b))
}

fn times(a: ScalarExpression, b: ScalarExpression) -> ScalarExpression {
    ScalarExpression::Mul(Box::new(a), Box::new(b))
}

/// `a * x^2 + b * x + c`, with the square written as a product.
fn quadratic(a: f64, b: f64, c: f64) -> ScalarExpression {
    plus(
        plus(times(val(a), times(var(), var())), times(val(b), var())),
        val(c),
    )
}

/// `(x - 2) * x * (x + 2)^2`, with the square written as a product.
fn quartic() -> ScalarExpression {
    times(
        times(minus(var(), val(2f64)), var()),
        times(plus(var(), val(2f64)), plus(var(), val(2f64))),
    )
}

/// Equality up to an absolute `epsilon`, with bit-level relative slack of
/// one machine epsilon, as the comparisons in this suite need it.
fn approx_eq(a: f64, b: f64, epsilon: f64) -> bool {
    if a == b {
        return true;
    }
    let diff = (a - b).abs();
    diff <= epsilon || diff <= f64::EPSILON * a.abs().max(b.abs())
}

#[test]
fn bounded_test_quadratic() {
    let objective_function = quadratic(3f64, 4f64, 50f64);
    let result = bounded(
        objective_function,
        ((-10f64).to_bits(), (10f64).to_bits()),
        500usize,
    )
    .unwrap();
    println!("{:?}", result);
    assert_eq!(
        approx_eq(f64::from_bits(result.fun), 48.666666666666664, 1e-6),
        true
    );
    assert_eq!(
        approx_eq(f64::from_bits(result.x), -0.666666666666667, 1e-6),
        true
    );
}

#[test]
fn brent_test_quadratic() {
    let objective_function = quartic();
    let result = brent(objective_function, None, 500usize).unwrap();
    assert_eq!(result.success, true);
    assert_eq!(
        approx_eq(f64::from_bits(result.fun), -9.914949590828147, 1e-12),
        true
    );
    assert_eq!(
        approx_eq(f64::from_bits(result.x), 1.2807764040333458, 1e-12),
        true
    );
}

#[test]
fn golden_test_quadratic() {
    let objective_function = quartic();
    let result = golden(objective_function, None, 500usize).unwrap();
    assert_eq!(result.success, true);
    assert_eq!(
        approx_eq(f64::from_bits(result.fun), -9.914949590828147, 1e-6),
        true
    );
    assert_eq!(
        approx_eq(f64::from_bits(result.x), 1.2807764040333458, 1e-6),
        true
    );
}

#[test]
fn bounded_rejects_reversed_bounds() {
    let result = bounded(quartic(), ((10f64).to_bits(), (-10f64).to_bits()), 500usize);
    match result {
        Err(SwoopErrors::ArgumentError(message)) => {
            assert_eq!(message, "The lower bound exceeds the upper bound");
        }
        other => panic!("expected an argument error, got {:?}", other),
    }
}

#[test]
fn brent_rejects_negative_xtol() {
    let result = brent(quartic(), Some((-1e-8f64).to_bits()), 500usize);
    match result {
        Err(SwoopErrors::ArgumentError(message)) => {
            assert_eq!(message, "Tolerance cannot be negative");
        }
        other => panic!("expected an argument error, got {:?}", other),
    }
}

#[test]
fn golden_rejects_negative_xtol() {
    let result = golden(quartic(), Some((-1e-8f64).to_bits()), 500usize);
    assert!(matches!(result, Err(SwoopErrors::ArgumentError(_))));
}

#[test]
fn negative_zero_xtol_is_not_negative() {
    // IEEE-754 orders -0.0 equal to +0.0, so it passes the sign check; the
    // window can then never shrink within a zero tolerance, so the budget
    // runs out instead.
    let result = golden(quartic(), Some((-0.0f64).to_bits()), 500usize);
    assert!(matches!(result, Err(SwoopErrors::MaxIterExceeded)));
    // A genuinely zero tolerance reads the same way.
    let result = golden(quartic(), Some((0.0f64).to_bits()), 500usize);
    assert!(matches!(result, Err(SwoopErrors::MaxIterExceeded)));
}

#[test]
fn bounded_determinism() {
    let r1 = bounded(quartic(), ((-10f64).to_bits(), (10f64).to_bits()), 500usize).unwrap();
    let r2 = bounded(quartic(), ((-10f64).to_bits(), (10f64).to_bits()), 500usize).unwrap();
    assert_eq!(r1.fun, r2.fun);
    assert_eq!(r1.x, r2.x);
    assert_eq!(r1.nfev, r2.nfev);
    assert_eq!(r1.success, r2.success);
}

#[test]
fn brent_determinism() {
    let r1 = brent(quartic(), None, 500usize).unwrap();
    let r2 = brent(quartic(), None, 500usize).unwrap();
    assert_eq!(r1.fun, r2.fun);
    assert_eq!(r1.x, r2.x);
    assert_eq!(r1.nfev, r2.nfev);
    assert_eq!(r1.success, r2.success);
}

#[test]
fn golden_determinism() {
    let r1 = golden(quartic(), None, 500usize).unwrap();
    let r2 = golden(quartic(), None, 500usize).unwrap();
    assert_eq!(r1.fun, r2.fun);
    assert_eq!(r1.x, r2.x);
    assert_eq!(r1.nfev, r2.nfev);
    assert_eq!(r1.success, r2.success);
}

#[test]
fn golden_budget_exhaustion_is_an_error() {
    // One pass cannot reach the default tolerance: a hard failure, never a
    // partial result.
    let result = golden(quartic(), None, 1usize);
    assert!(matches!(result, Err(SwoopErrors::MaxIterExceeded)));
    let result = golden(quartic(), None, 0usize);
    assert!(matches!(result, Err(SwoopErrors::MaxIterExceeded)));
}

#[test]
fn bounded_budget_exhaustion_is_flagged_not_an_error() {
    let result = bounded(quartic(), ((-10f64).to_bits(), (10f64).to_bits()), 5usize).unwrap();
    assert_eq!(result.success, false);
    let x = f64::from_bits(result.x);
    assert!(x.is_finite());
    assert!(-10f64 <= x && x <= 10f64);
}

#[test]
fn bounded_degenerate_interval() {
    let result = bounded(quartic(), ((3f64).to_bits(), (3f64).to_bits()), 500usize).unwrap();
    assert_eq!(result.success, true);
    assert_eq!(f64::from_bits(result.x), 3f64);
    // (3 - 2) * 3 * (3 + 2)^2, exactly
    assert_eq!(f64::from_bits(result.fun), 75f64);
    assert_eq!(result.nfev, 1usize);
}

#[test]
fn evaluation_counts_stay_in_bounds() {
    let r = golden(quartic(), None, 500usize).unwrap();
    assert!(5usize <= r.nfev && r.nfev <= 2511usize);
    let r = brent(quartic(), None, 500usize).unwrap();
    assert!(4usize <= r.nfev && r.nfev <= 2510usize);
    let r = bounded(quartic(), ((-10f64).to_bits(), (10f64).to_bits()), 500usize).unwrap();
    assert!(1usize <= r.nfev && r.nfev <= 502usize);
}

#[test]
fn other_errors_carry_through() {
    let e = SwoopErrors::Other(anyhow::Error::msg("backend failure"));
    assert!(matches!(e, SwoopErrors::Other(_)));
}
