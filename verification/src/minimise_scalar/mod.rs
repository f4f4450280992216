//! Algorithms for scalar univariate function optimisation.
//!
//! Every coordinate and function value is the IEEE-754 binary64 bit pattern
//! of the real number, carried in a `u64` (see the crate's `fp` module).

pub mod bounded;
pub use bounded::bounded;
pub mod brent;
pub use brent::brent;
pub mod expression;
pub mod golden;
pub use golden::golden;
pub use expression::ScalarExpression;
pub use expression::eval_expression;
pub use expression::eval_expression_spec;

use vstd::prelude::*;
use crate::SwoopErrors;
use crate::fp::{
    add_bits, sub_bits, mul_bits, div_bits, lt_bits, gt_bits, ge_bits, abs_bits,
    fadd, fsub, fmul, fdiv, flt, fgt, fge, fabs,
    ZERO_BITS, ONE_BITS, TWO_BITS,
};

verus! {

/// Bit pattern of the golden ratio constant used by the bracketing step.
pub const GOLD_BITS: u64 = 0x3ff9e3779e9d0e99;
/// Bit pattern of the tiny denominator floor, ten to the minus twenty-one.
pub const VERY_SMALL_BITS: u64 = 0x3b92e3b40a0e9b4f;
/// Bit pattern of the default grow limit of the bracketing step.
pub const GROW_LIMIT_DEFAULT_BITS: u64 = 0x405b800000000000;
/// Iteration budget of the bracketing step run with default arguments.
pub const BRACKET_DEFAULT_MAXITER: usize = 1000;

/// Struct to represent the result of a scalar univariate function optimisation
#[derive(Debug, Clone, PartialEq, Eq, Structural)]
pub struct ScalarOptimisationResult {
    /// Value of the objective function, as a binary64 bit pattern
    pub fun: u64,
    /// Number of evaluations of the objective function
    pub nfev: usize,
    /// Whether the optimisation was successful or not
    pub success: bool,
    /// The solution of the optimisation, as a binary64 bit pattern
    pub x: u64,
}

/// Trait to implement for a scalar univariate objective function.
///
/// `eval_spec` is the mathematical account of the function: `evaluate` must
/// return exactly that pattern, so the function is pure and deterministic,
/// as the search routines assume.
pub trait ScalarObjectiveFunction {
    /// The value of the objective on the pattern `x`, as a spec-level mapping
    spec fn eval_spec(&self, x: u64) -> u64;

    /// Method to implement the objective function that will be used for
    /// evaluation when optimising
    fn evaluate(&self, x: u64) -> (r: u64)
        ensures
            r == self.eval_spec(x),
    ;
}

/// What a whole search ends with, at specification level.  The refinement
/// routines map it onto their return value: which error each case turns
/// into, and which cases can arise at all, differs per routine and is part
/// of each routine's contract.
pub ghost enum ScalarSpecOutcome {
    /// An argument was rejected before any evaluation
    BadArgument,
    /// The bracketing step ran out of iterations
    NoBracket,
    /// The refinement loop ran out of iterations without passing its test
    Exhausted,
    /// The refinement loop finished and these are the fields of the result
    Finished {
        /// Objective value at the minimiser, as a binary64 bit pattern
        fun: u64,
        /// Objective evaluations spent
        nfev: nat,
        /// Whether the routine reports success
        success: bool,
        /// The minimiser, as a binary64 bit pattern
        x: u64,
    },
}

/// The bracketing triple handed to the refinement loops.
pub(crate) struct BracketResult {
    pub(crate) bracket: (u64, u64, u64),
    pub(crate) fun_calls: usize,
}

/// One pass of the bracketing loop, between checks of the loop condition.
pub ghost struct BracketState {
    /// Outer point behind the middle one
    pub xa: u64,
    /// Middle point
    pub xb: u64,
    /// Point past the middle in the downhill direction
    pub xc: u64,
    /// Objective value at `xa`
    pub fa: u64,
    /// Objective value at `xb`
    pub fb: u64,
    /// Objective value at `xc`
    pub fc: u64,
    /// Objective evaluations so far
    pub fun_calls: nat,
    /// Loop passes completed so far
    pub iter: nat,
}

/// What the bracketing step ends with.
pub ghost enum BracketOutcome {
    /// A downhill triple was found
    Bracketed {
        /// Outer point behind the middle one
        xa: u64,
        /// Middle point, whose value undercuts both outer values
        xb: u64,
        /// Point past the middle in the downhill direction
        xc: u64,
        /// Objective evaluations spent
        fun_calls: nat,
    },
    /// The iteration budget ran out before a triple was found
    OutOfIterations,
}

/// The mirror of the bracketing loop: from the state at a loop-condition
/// check to the outcome of the whole search.
pub open spec fn bracket_loop_spec<T: ScalarObjectiveFunction>(
    o: &T,
    s: BracketState,
    grow_limit: u64,
    maxiter: nat,
) -> BracketOutcome
    decreases maxiter + 2 - s.iter,
{
    if !lt_bits(s.fc, s.fb) {
        BracketOutcome::Bracketed { xa: s.xa, xb: s.xb, xc: s.xc, fun_calls: s.fun_calls }
    } else if s.iter > maxiter {
        BracketOutcome::OutOfIterations
    } else {
        let tmp1 = mul_bits(sub_bits(s.xb, s.xa), sub_bits(s.fb, s.fc));
        let tmp2 = mul_bits(sub_bits(s.xb, s.xc), sub_bits(s.fb, s.fa));
        let val = sub_bits(tmp2, tmp1);
        let denom = if lt_bits(abs_bits(val), VERY_SMALL_BITS) {
            mul_bits(TWO_BITS, VERY_SMALL_BITS)
        } else {
            mul_bits(TWO_BITS, val)
        };
        let w = sub_bits(
            s.xb,
            div_bits(
                sub_bits(mul_bits(sub_bits(s.xb, s.xc), tmp2), mul_bits(sub_bits(s.xb, s.xa), tmp1)),
                denom,
            ),
        );
        let wlim = add_bits(s.xb, mul_bits(grow_limit, sub_bits(s.xc, s.xb)));
        if gt_bits(mul_bits(sub_bits(w, s.xc), sub_bits(s.xb, w)), ZERO_BITS) {
            let fw = o.eval_spec(w);
            if lt_bits(fw, s.fc) {
                BracketOutcome::Bracketed { xa: s.xb, xb: w, xc: s.xc, fun_calls: s.fun_calls + 1 }
            } else if gt_bits(fw, s.fb) {
                BracketOutcome::Bracketed { xa: s.xa, xb: s.xb, xc: w, fun_calls: s.fun_calls + 1 }
            } else {
                let w2 = add_bits(s.xc, mul_bits(GOLD_BITS, sub_bits(s.xc, s.xb)));
                let fw2 = o.eval_spec(w2);
                bracket_loop_spec(
                    o,
                    (BracketState {
                        xa: s.xb,
                        xb: s.xc,
                        xc: w2,
                        fa: s.fb,
                        fb: s.fc,
                        fc: fw2,
                        fun_calls: s.fun_calls + 2,
                        iter: s.iter + 1,
                    }),
                    grow_limit,
                    maxiter,
                )
            }
        } else if ge_bits(mul_bits(sub_bits(w, wlim), sub_bits(wlim, s.xc)), ZERO_BITS) {
            let fw = o.eval_spec(wlim);
            bracket_loop_spec(
                o,
                (BracketState {
                    xa: s.xb,
                    xb: s.xc,
                    xc: wlim,
                    fa: s.fb,
                    fb: s.fc,
                    fc: fw,
                    fun_calls: s.fun_calls + 1,
                    iter: s.iter + 1,
                }),
                grow_limit,
                maxiter,
            )
        } else if gt_bits(mul_bits(sub_bits(w, wlim), sub_bits(s.xc, w)), ZERO_BITS) {
            let fw = o.eval_spec(w);
            if lt_bits(fw, s.fc) {
                let w3 = add_bits(w, mul_bits(GOLD_BITS, sub_bits(w, s.xc)));
                let fw3 = o.eval_spec(w3);
                bracket_loop_spec(
                    o,
                    (BracketState {
                        xa: s.xc,
                        xb: w,
                        xc: w3,
                        fa: s.fc,
                        fb: fw,
                        fc: fw3,
                        fun_calls: s.fun_calls + 2,
                        iter: s.iter + 1,
                    }),
                    grow_limit,
                    maxiter,
                )
            } else {
                bracket_loop_spec(
                    o,
                    (BracketState {
                        xa: s.xb,
                        xb: s.xc,
                        xc: w,
                        fa: s.fb,
                        fb: s.fc,
                        fc: fw,
                        fun_calls: s.fun_calls + 1,
                        iter: s.iter + 1,
                    }),
                    grow_limit,
                    maxiter,
                )
            }
        } else {
            let w4 = add_bits(s.xc, mul_bits(GOLD_BITS, sub_bits(s.xc, s.xb)));
            let fw4 = o.eval_spec(w4);
            bracket_loop_spec(
                o,
                (BracketState {
                    xa: s.xb,
                    xb: s.xc,
                    xc: w4,
                    fa: s.fb,
                    fb: s.fc,
                    fc: fw4,
                    fun_calls: s.fun_calls + 1,
                    iter: s.iter + 1,
                }),
                grow_limit,
                maxiter,
            )
        }
    }
}

/// The state the bracketing search enters its loop with: both seeds
/// evaluated, ordered downhill, and a third point extrapolated past the
/// second.
pub open spec fn bracket_init_spec<T: ScalarObjectiveFunction>(
    o: &T,
    xa0: u64,
    xb0: u64,
) -> BracketState {
    let fa0 = o.eval_spec(xa0);
    let fb0 = o.eval_spec(xb0);
    let xa1 = if lt_bits(fa0, fb0) { xb0 } else { xa0 };
    let xb1 = if lt_bits(fa0, fb0) { xa0 } else { xb0 };
    let fa1 = if lt_bits(fa0, fb0) { fb0 } else { fa0 };
    let fb1 = if lt_bits(fa0, fb0) { fa0 } else { fb0 };
    let xc = add_bits(xb1, mul_bits(GOLD_BITS, sub_bits(xb1, xa1)));
    let fc = o.eval_spec(xc);
    BracketState {
        xa: xa1,
        xb: xb1,
        xc: xc,
        fa: fa1,
        fb: fb1,
        fc: fc,
        fun_calls: 3,
        iter: 0,
    }
}

/// The mirror of the whole bracketing search.
pub open spec fn bracket_spec<T: ScalarObjectiveFunction>(
    o: &T,
    xa0: u64,
    xb0: u64,
    grow_limit: u64,
    maxiter: nat,
) -> BracketOutcome {
    bracket_loop_spec(o, bracket_init_spec(o, xa0, xb0), grow_limit, maxiter)
}

/// The mirror of the bracketing search run with its default arguments: seeds
/// zero and one, the default grow limit and the default iteration budget.
pub open spec fn bracket_default_spec<T: ScalarObjectiveFunction>(o: &T) -> BracketOutcome {
    bracket_spec(o, ZERO_BITS, ONE_BITS, GROW_LIMIT_DEFAULT_BITS, BRACKET_DEFAULT_MAXITER as nat)
}

/// Bracket the minimum of the function.
///
/// Given a function and distinct initial points, search in the
/// downhill direction (as defined by the initial points) and return
/// new points `xa, xb, xc` that bracket the minimum of the function:
/// the value at `xb` undercuts the values at `xa` and `xc`.
///
/// It doesn't always mean that the obtained solution will satisfy
/// `xa <= x <= xb`.
///
/// # Parameters
/// * `objective_function` - Objective function to minimize
/// * `xa` - bottom of the bracketing interval
/// * `xb` - top of the bracketing interval
/// * `grow_limit` - Maximum grow limit
/// * `maxiter` - Maximum number of iterations to perform.
pub(crate) fn bracket<T: ScalarObjectiveFunction>(
    objective_function: &T,
    xa0: u64,
    xb0: u64,
    grow_limit: u64,
    maxiter: usize,
) -> (r: Result<BracketResult, SwoopErrors>)
    requires
        2 * maxiter + 9 <= usize::MAX,
    ensures
        match bracket_spec(objective_function, xa0, xb0, grow_limit, maxiter as nat) {
            BracketOutcome::Bracketed { xa: ba, xb: bb, xc: bc, fun_calls } => {
                &&& r matches Ok(br)
                &&& br.bracket == (ba, bb, bc)
                &&& br.fun_calls as nat == fun_calls
                &&& fun_calls <= 2 * maxiter + 9
            },
            BracketOutcome::OutOfIterations => r matches Err(e) && e is MaxIterExceeded,
        },
{
    let mut xa = xa0;
    let mut xb = xb0;

    let mut fa = objective_function.evaluate(xa);
    let mut fb = objective_function.evaluate(xb);

    if flt(fa, fb) {
        let t = xa;
        xa = xb;
        xb = t;
        let tf = fa;
        fa = fb;
        fb = tf;
    }

    let mut xc = fadd(xb, fmul(GOLD_BITS, fsub(xb, xa)));
    let mut fc = objective_function.evaluate(xc);
    let mut fun_calls: usize = 3;
    let mut iter: usize = 0;

    assert(bracket_init_spec(objective_function, xa0, xb0) == (BracketState {
        xa: xa, xb: xb, xc: xc, fa: fa, fb: fb, fc: fc, fun_calls: 3nat, iter: 0nat,
    }));

    loop
        invariant_except_break
            2 * maxiter + 9 <= usize::MAX,
            iter <= maxiter + 1,
            fun_calls <= 2 * iter + 5,
            bracket_loop_spec(
                objective_function,
                (BracketState {
                    xa: xa,
                    xb: xb,
                    xc: xc,
                    fa: fa,
                    fb: fb,
                    fc: fc,
                    fun_calls: fun_calls as nat,
                    iter: iter as nat,
                }),
                grow_limit,
                maxiter as nat,
            ) == bracket_spec(objective_function, xa0, xb0, grow_limit, maxiter as nat),
        ensures
            match bracket_spec(objective_function, xa0, xb0, grow_limit, maxiter as nat) {
                BracketOutcome::Bracketed { xa: ba, xb: bb, xc: bc, fun_calls: fc_n } => {
                    &&& (xa, xb, xc) == (ba, bb, bc)
                    &&& fun_calls as nat == fc_n
                    &&& fc_n <= 2 * maxiter + 9
                },
                BracketOutcome::OutOfIterations => false,
            },
        decreases maxiter + 2 - iter,
    {
        let cont = flt(fc, fb);
        if !cont {
            break;
        }

        let tmp1 = fmul(fsub(xb, xa), fsub(fb, fc));
        let tmp2 = fmul(fsub(xb, xc), fsub(fb, fa));
        let val = fsub(tmp2, tmp1);

        let denom = if flt(fabs(val), VERY_SMALL_BITS) {
            fmul(TWO_BITS, VERY_SMALL_BITS)
        } else {
            fmul(TWO_BITS, val)
        };

        let w = fsub(xb, fdiv(fsub(fmul(fsub(xb, xc), tmp2), fmul(fsub(xb, xa), tmp1)), denom));
        let wlim = fadd(xb, fmul(grow_limit, fsub(xc, xb)));

        if iter > maxiter {
            return Err(SwoopErrors::MaxIterExceeded);
        }
        iter = iter + 1;

        let mut w_cur = w;
        let mut fw: u64;

        if fgt(fmul(fsub(w, xc), fsub(xb, w)), ZERO_BITS) {
            fw = objective_function.evaluate(w);
            fun_calls = fun_calls + 1;
            if flt(fw, fc) {
                xa = xb;
                xb = w;
                return Ok(BracketResult { bracket: (xa, xb, xc), fun_calls });
            } else if fgt(fw, fb) {
                xc = w;
                return Ok(BracketResult { bracket: (xa, xb, xc), fun_calls });
            }

            w_cur = fadd(xc, fmul(GOLD_BITS, fsub(xc, xb)));
            fw = objective_function.evaluate(w_cur);
            fun_calls = fun_calls + 1;
        } else if fge(fmul(fsub(w, wlim), fsub(wlim, xc)), ZERO_BITS) {
            w_cur = wlim;
            fw = objective_function.evaluate(w_cur);
            fun_calls = fun_calls + 1;
        } else if fgt(fmul(fsub(w, wlim), fsub(xc, w)), ZERO_BITS) {
            fw = objective_function.evaluate(w_cur);
            fun_calls = fun_calls + 1;
            if flt(fw, fc) {
                xb = xc;
                xc = w_cur;
                w_cur = fadd(xc, fmul(GOLD_BITS, fsub(xc, xb)));
                fb = fc;
                fc = fw;
                fw = objective_function.evaluate(w_cur);
                fun_calls = fun_calls + 1;
            }
        } else {
            w_cur = fadd(xc, fmul(GOLD_BITS, fsub(xc, xb)));
            fw = objective_function.evaluate(w_cur);
            fun_calls = fun_calls + 1;
        }
        xa = xb;
        xb = xc;
        xc = w_cur;
        fa = fb;
        fb = fc;
        fc = fw;
    }

    Ok(BracketResult { bracket: (xa, xb, xc), fun_calls })
}

/// Bracket the minimum of the function with default arguments
///
/// # Parameters
/// * `objective_function` - Objective function to minimize
pub(crate) fn bracket_default<T: ScalarObjectiveFunction>(
    objective_function: &T,
) -> (r: Result<BracketResult, SwoopErrors>)
    ensures
        match bracket_default_spec(objective_function) {
            BracketOutcome::Bracketed { xa: ba, xb: bb, xc: bc, fun_calls } => {
                &&& r matches Ok(br)
                &&& br.bracket == (ba, bb, bc)
                &&& br.fun_calls as nat == fun_calls
                &&& fun_calls <= 2009
            },
            BracketOutcome::OutOfIterations => r matches Err(e) && e is MaxIterExceeded,
        },
{
    bracket(objective_function, ZERO_BITS, ONE_BITS, GROW_LIMIT_DEFAULT_BITS, BRACKET_DEFAULT_MAXITER)
}


/// Evaluation-count law for the bracketing loop: from any loop state, the
/// final count never falls below the count already spent, and each of the
/// remaining passes adds at most two evaluations.
pub proof fn lemma_bracket_loop_calls<T: ScalarObjectiveFunction>(
    o: &T,
    s: BracketState,
    grow_limit: u64,
    maxiter: nat,
)
    ensures
        bracket_loop_spec(o, s, grow_limit, maxiter) matches BracketOutcome::Bracketed {
            fun_calls: n,
            ..
        } ==> s.fun_calls <= n <= s.fun_calls + 2 * (if s.iter <= maxiter {
            maxiter + 1 - s.iter
        } else {
            0
        }),
    decreases maxiter + 2 - s.iter,
{
    if !lt_bits(s.fc, s.fb) {
    } else if s.iter > maxiter {
    } else {
        let tmp1 = mul_bits(sub_bits(s.xb, s.xa), sub_bits(s.fb, s.fc));
        let tmp2 = mul_bits(sub_bits(s.xb, s.xc), sub_bits(s.fb, s.fa));
        let val = sub_bits(tmp2, tmp1);
        let denom = if lt_bits(abs_bits(val), VERY_SMALL_BITS) {
            mul_bits(TWO_BITS, VERY_SMALL_BITS)
        } else {
            mul_bits(TWO_BITS, val)
        };
        let w = sub_bits(
            s.xb,
            div_bits(
                sub_bits(mul_bits(sub_bits(s.xb, s.xc), tmp2), mul_bits(sub_bits(s.xb, s.xa), tmp1)),
                denom,
            ),
        );
        let wlim = add_bits(s.xb, mul_bits(grow_limit, sub_bits(s.xc, s.xb)));
        if gt_bits(mul_bits(sub_bits(w, s.xc), sub_bits(s.xb, w)), ZERO_BITS) {
            let fw = o.eval_spec(w);
            if lt_bits(fw, s.fc) {
            } else if gt_bits(fw, s.fb) {
            } else {
                let w2 = add_bits(s.xc, mul_bits(GOLD_BITS, sub_bits(s.xc, s.xb)));
                let fw2 = o.eval_spec(w2);
                lemma_bracket_loop_calls(
                    o,
                    (BracketState {
                        xa: s.xb,
                        xb: s.xc,
                        xc: w2,
                        fa: s.fb,
                        fb: s.fc,
                        fc: fw2,
                        fun_calls: s.fun_calls + 2,
                        iter: s.iter + 1,
                    }),
                    grow_limit,
                    maxiter,
                );
            }
        } else if ge_bits(mul_bits(sub_bits(w, wlim), sub_bits(wlim, s.xc)), ZERO_BITS) {
            let fw = o.eval_spec(wlim);
            lemma_bracket_loop_calls(
                o,
                (BracketState {
                    xa: s.xb,
                    xb: s.xc,
                    xc: wlim,
                    fa: s.fb,
                    fb: s.fc,
                    fc: fw,
                    fun_calls: s.fun_calls + 1,
                    iter: s.iter + 1,
                }),
                grow_limit,
                maxiter,
            );
        } else if gt_bits(mul_bits(sub_bits(w, wlim), sub_bits(s.xc, w)), ZERO_BITS) {
            let fw = o.eval_spec(w);
            if lt_bits(fw, s.fc) {
                let w3 = add_bits(w, mul_bits(GOLD_BITS, sub_bits(w, s.xc)));
                let fw3 = o.eval_spec(w3);
                lemma_bracket_loop_calls(
                    o,
                    (BracketState {
                        xa: s.xc,
                        xb: w,
                        xc: w3,
                        fa: s.fc,
                        fb: fw,
                        fc: fw3,
                        fun_calls: s.fun_calls + 2,
                        iter: s.iter + 1,
                    }),
                    grow_limit,
                    maxiter,
                );
            } else {
                lemma_bracket_loop_calls(
                    o,
                    (BracketState {
                        xa: s.xb,
                        xb: s.xc,
                        xc: w,
                        fa: s.fb,
                        fb: s.fc,
                        fc: fw,
                        fun_calls: s.fun_calls + 1,
                        iter: s.iter + 1,
                    }),
                    grow_limit,
                    maxiter,
                );
            }
        } else {
            let w4 = add_bits(s.xc, mul_bits(GOLD_BITS, sub_bits(s.xc, s.xb)));
            let fw4 = o.eval_spec(w4);
            lemma_bracket_loop_calls(
                o,
                (BracketState {
                    xa: s.xb,
                    xb: s.xc,
                    xc: w4,
                    fa: s.fb,
                    fb: s.fc,
                    fc: fw4,
                    fun_calls: s.fun_calls + 1,
                    iter: s.iter + 1,
                }),
                grow_limit,
                maxiter,
            );
        }
    }
}

} // verus!
