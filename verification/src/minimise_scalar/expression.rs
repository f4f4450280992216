//! A small expression language for scalar objective functions.
//!
//! Callers outside the crate describe their objective as an expression tree
//! over the search variable; evaluation is verified to follow the tree
//! exactly, one rounded binary64 operation per node.

use vstd::prelude::*;
use crate::fp::{add_bits, sub_bits, mul_bits, div_bits, abs_bits, neg_bits};
use crate::fp::{fadd, fsub, fmul, fdiv, fabs, fneg};
use crate::minimise_scalar::ScalarObjectiveFunction;

verus! {

/// A scalar expression in one variable, over binary64 bit patterns.
#[derive(Debug)]
pub enum ScalarExpression {
    /// The search variable
    Var,
    /// A constant, as a binary64 bit pattern
    Value(u64),
    /// Rounded sum of the two operands
    Add(Box<ScalarExpression>, Box<ScalarExpression>),
    /// Rounded difference of the two operands
    Sub(Box<ScalarExpression>, Box<ScalarExpression>),
    /// Rounded product of the two operands
    Mul(Box<ScalarExpression>, Box<ScalarExpression>),
    /// Rounded quotient of the two operands
    Div(Box<ScalarExpression>, Box<ScalarExpression>),
    /// Negation of the operand
    Neg(Box<ScalarExpression>),
    /// Absolute value of the operand
    Abs(Box<ScalarExpression>),
}

/// The value of an expression at `x`, node by node.
pub open spec fn eval_expression_spec(e: &ScalarExpression, x: u64) -> u64
    decreases e,
{
    match e {
        ScalarExpression::Var => x,
        ScalarExpression::Value(c) => *c,
        ScalarExpression::Add(a, b) => add_bits(eval_expression_spec(a, x), eval_expression_spec(b, x)),
        ScalarExpression::Sub(a, b) => sub_bits(eval_expression_spec(a, x), eval_expression_spec(b, x)),
        ScalarExpression::Mul(a, b) => mul_bits(eval_expression_spec(a, x), eval_expression_spec(b, x)),
        ScalarExpression::Div(a, b) => div_bits(eval_expression_spec(a, x), eval_expression_spec(b, x)),
        ScalarExpression::Neg(a) => neg_bits(eval_expression_spec(a, x)),
        ScalarExpression::Abs(a) => abs_bits(eval_expression_spec(a, x)),
    }
}

/// Evaluate an expression at `x`.
pub fn eval_expression(e: &ScalarExpression, x: u64) -> (r: u64)
    ensures
        r == eval_expression_spec(e, x),
    decreases e,
{
    match e {
        ScalarExpression::Var => x,
        ScalarExpression::Value(c) => *c,
        ScalarExpression::Add(a, b) => fadd(eval_expression(a, x), eval_expression(b, x)),
        ScalarExpression::Sub(a, b) => fsub(eval_expression(a, x), eval_expression(b, x)),
        ScalarExpression::Mul(a, b) => fmul(eval_expression(a, x), eval_expression(b, x)),
        ScalarExpression::Div(a, b) => fdiv(eval_expression(a, x), eval_expression(b, x)),
        ScalarExpression::Neg(a) => fneg(eval_expression(a, x)),
        ScalarExpression::Abs(a) => fabs(eval_expression(a, x)),
    }
}

impl ScalarObjectiveFunction for ScalarExpression {
    open spec fn eval_spec(&self, x: u64) -> u64 {
        eval_expression_spec(self, x)
    }

    fn evaluate(&self, x: u64) -> (r: u64)
        ensures
            r == self.eval_spec(x),
    {
        eval_expression(self, x)
    }
}

} // verus!
