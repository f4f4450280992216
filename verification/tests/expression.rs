use swoop::minimise_scalar::{eval_expression, ScalarExpression};

fn bits(x: f64) -> u64 {
    x.to_bits()
}

#[test]
fn expression_addition_rounds_like_ieee() {
    let e = ScalarExpression::Add(
        Box::new(ScalarExpression::Var),
        Box::new(ScalarExpression::Value(bits(0.2f64))),
    );
    assert_eq!(eval_expression(&e, bits(0.1f64)), bits(0.1f64 + 0.2f64));
}

#[test]
fn expression_subtraction_rounds_like_ieee() {
    let e = ScalarExpression::Sub(
        Box::new(ScalarExpression::Var),
        Box::new(ScalarExpression::Value(bits(0.1f64))),
    );
    assert_eq!(eval_expression(&e, bits(0.3f64)), bits(0.3f64 - 0.1f64));
}

#[test]
fn expression_multiplication_rounds_like_ieee() {
    let e = ScalarExpression::Mul(
        Box::new(ScalarExpression::Var),
        Box::new(ScalarExpression::Value(bits(0.2f64))),
    );
    assert_eq!(eval_expression(&e, bits(0.1f64)), bits(0.1f64 * 0.2f64));
}

#[test]
fn expression_division_rounds_like_ieee() {
    let e = ScalarExpression::Div(
        Box::new(ScalarExpression::Value(bits(1f64))),
        Box::new(ScalarExpression::Value(bits(3f64))),
    );
    assert_eq!(eval_expression(&e, bits(0f64)), bits(1f64 / 3f64));
}

#[test]
fn expression_negation_flips_the_sign_bit() {
    let e = ScalarExpression::Neg(Box::new(ScalarExpression::Var));
    assert_eq!(eval_expression(&e, bits(2.5f64)), bits(-2.5f64));
    assert_eq!(eval_expression(&e, bits(0.0f64)), bits(-0.0f64));
}

#[test]
fn expression_absolute_value_clears_the_sign_bit() {
    let e = ScalarExpression::Abs(Box::new(ScalarExpression::Var));
    assert_eq!(eval_expression(&e, bits(-2.5f64)), bits(2.5f64));
    assert_eq!(eval_expression(&e, bits(-0.0f64)), bits(0.0f64));
}

#[test]
fn expression_value_is_passed_through() {
    let e = ScalarExpression::Value(bits(42.5f64));
    assert_eq!(eval_expression(&e, bits(7f64)), bits(42.5f64));
    let v = ScalarExpression::Var;
    assert_eq!(eval_expression(&v, bits(7f64)), bits(7f64));
}
