//! Bounded univariate scalar optimisation.

use vstd::prelude::*;
use vstd::string::StringExecFns;
use crate::SwoopErrors;
use crate::fp::{
    add_bits, sub_bits, mul_bits, div_bits, lt_bits, le_bits, gt_bits, ge_bits, abs_bits, neg_bits,
    fadd, fsub, fmul, fdiv, flt, fle, fgt, fge, fabs, fneg,
    ZERO_BITS, ONE_BITS, NEG_ONE_BITS, TWO_BITS, HALF_BITS, EPSILON_BITS,
};
use crate::minimise_scalar::{
    ScalarObjectiveFunction, ScalarOptimisationResult, ScalarSpecOutcome,
};

verus! {

/// Bit pattern of the square root of the machine epsilon of binary64.
pub const SQRT_EPS_BITS: u64 = 0x3e50000000000000;
/// Bit pattern of the golden mean, half of three minus the square root of
/// five.
pub const GOLDEN_MEAN_BITS: u64 = 0x3fd8722191a02d60;
/// Bit pattern of a third of the absolute displacement tolerance of the
/// bounded search.
pub const XATOL_THIRD_BITS: u64 = 0x3ecbf647612f3697;

/// The sign of a value: zero for a value within machine epsilon of zero,
/// else one or minus one by the ordered comparison with zero (so minus one
/// for a NaN).
pub open spec fn sign_spec(number: u64) -> u64 {
    if lt_bits(abs_bits(sub_bits(number, ZERO_BITS)), EPSILON_BITS) {
        ZERO_BITS
    } else if gt_bits(number, ZERO_BITS) {
        ONE_BITS
    } else {
        NEG_ONE_BITS
    }
}

/// One when `a - b` is within machine epsilon of zero, else zero.
pub open spec fn zero_diff_spec(a: u64, b: u64) -> u64 {
    if lt_bits(abs_bits(sub_bits(sub_bits(a, b), ZERO_BITS)), EPSILON_BITS) {
        ONE_BITS
    } else {
        ZERO_BITS
    }
}

/// One when `a` is within machine epsilon of zero, else zero.
pub open spec fn zero_or_not_spec(a: u64) -> u64 {
    if lt_bits(abs_bits(sub_bits(a, ZERO_BITS)), EPSILON_BITS) {
        ONE_BITS
    } else {
        ZERO_BITS
    }
}

/// The larger of the two values by ordered comparison, the first when
/// neither compares greater.
pub open spec fn arg_max_spec(a: u64, b: u64) -> u64 {
    if gt_bits(a, b) {
        a
    } else if gt_bits(b, a) {
        b
    } else {
        a
    }
}

/// Returns -1 if x < 0, 0 if x == 0, 1 if x > 0, comparing through the
/// machine-epsilon band around zero.
fn sign(number: u64) -> (r: u64)
    ensures
        r == sign_spec(number),
{
    if flt(fabs(fsub(number, ZERO_BITS)), EPSILON_BITS) {
        ZERO_BITS
    } else if fgt(number, ZERO_BITS) {
        ONE_BITS
    } else {
        NEG_ONE_BITS
    }
}

/// Check if a - b is zero, if it is return 1, else 0
fn zero_diff(a: u64, b: u64) -> (r: u64)
    ensures
        r == zero_diff_spec(a, b),
{
    if flt(fabs(fsub(fsub(a, b), ZERO_BITS)), EPSILON_BITS) {
        ONE_BITS
    } else {
        ZERO_BITS
    }
}

/// Check if a value is 0, if it is return 1 else return 0
fn zero_or_not(a: u64) -> (r: u64)
    ensures
        r == zero_or_not_spec(a),
{
    if flt(fabs(fsub(a, ZERO_BITS)), EPSILON_BITS) {
        ONE_BITS
    } else {
        ZERO_BITS
    }
}

/// Find the maximum of the two arguments
///
/// # Parameters
/// * `a` - arg 1
/// * `b` - arg 2
fn arg_max(a: u64, b: u64) -> (r: u64)
    ensures
        r == arg_max_spec(a, b),
{
    if fgt(a, b) {
        a
    } else if fgt(b, a) {
        b
    } else {
        a
    }
}

/// One pass of the bounded loop, between checks of the loop condition.  The
/// midpoint and the two tolerances of the pass are derived from these
/// fields.
pub ghost struct BoundedState {
    /// Lower end of the current interval
    pub a: u64,
    /// Upper end of the current interval
    pub b: u64,
    /// Third-best point
    pub fulc: u64,
    /// Second-best point
    pub nfc: u64,
    /// Best point so far
    pub xf: u64,
    /// Objective value at `xf`
    pub fx: u64,
    /// Objective value at `fulc`
    pub ffulc: u64,
    /// Objective value at `nfc`
    pub fnfc: u64,
    /// Displacement taken two steps back
    pub e: u64,
    /// Displacement taken last step
    pub rat: u64,
    /// Objective evaluations so far
    pub num: nat,
}

/// The midpoint of the current interval.
pub open spec fn bounded_xm_spec(s: BoundedState) -> u64 {
    mul_bits(HALF_BITS, add_bits(s.a, s.b))
}

/// The displacement tolerance of the pass: a relative part scaled by the
/// best point and a third of the absolute tolerance.
pub open spec fn bounded_tol1_spec(s: BoundedState) -> u64 {
    add_bits(mul_bits(SQRT_EPS_BITS, abs_bits(s.xf)), XATOL_THIRD_BITS)
}

/// The pair (new `e`, new `rat`) one pass decides on: a parabolic step
/// through the three best points when the last displacements allow one and
/// its candidate stays acceptably inside the interval, else a golden-section
/// step from the best point away from the wider side.  A parabolic candidate
/// that lands within `tol2` of either end is replaced by a `tol1` step
/// towards the midpoint.
pub open spec fn bounded_dr_spec(s: BoundedState, xm: u64, tol1: u64, tol2: u64) -> (u64, u64) {
    if gt_bits(abs_bits(s.e), tol1) {
        let r0 = mul_bits(sub_bits(s.xf, s.nfc), sub_bits(s.fx, s.ffulc));
        let q0 = mul_bits(sub_bits(s.xf, s.fulc), sub_bits(s.fx, s.fnfc));
        let p0 = sub_bits(mul_bits(sub_bits(s.xf, s.fulc), q0), mul_bits(sub_bits(s.xf, s.nfc), r0));
        let q1 = mul_bits(TWO_BITS, sub_bits(q0, r0));
        let p1 = if gt_bits(q1, ZERO_BITS) { neg_bits(p0) } else { p0 };
        let q2 = abs_bits(q1);
        let r1 = s.e;
        let e1 = s.rat;
        if lt_bits(abs_bits(p1), abs_bits(mul_bits(mul_bits(HALF_BITS, q2), r1)))
            && gt_bits(p1, mul_bits(q2, sub_bits(s.a, s.xf)))
            && lt_bits(p1, mul_bits(q2, sub_bits(s.b, s.xf))) {
            let rat_p = div_bits(add_bits(p1, ZERO_BITS), q2);
            let x0 = add_bits(s.xf, rat_p);
            if lt_bits(sub_bits(x0, s.a), tol2) || lt_bits(sub_bits(s.b, x0), tol2) {
                let si = add_bits(sign_spec(sub_bits(xm, s.xf)), zero_diff_spec(xm, s.xf));
                (e1, mul_bits(tol1, si))
            } else {
                (e1, rat_p)
            }
        } else {
            let e2 = if ge_bits(s.xf, xm) { sub_bits(s.a, s.xf) } else { sub_bits(s.b, s.xf) };
            (e2, mul_bits(GOLDEN_MEAN_BITS, e2))
        }
    } else {
        let e2 = if ge_bits(s.xf, xm) { sub_bits(s.a, s.xf) } else { sub_bits(s.b, s.xf) };
        (e2, mul_bits(GOLDEN_MEAN_BITS, e2))
    }
}

/// The bookkeeping of one pass: decide the displacement, floor its length at
/// the pass tolerance, evaluate, and fold the new point into the best triple
/// and the interval, with near-equal points (within machine epsilon) treated
/// as coincident.
pub open spec fn bounded_step_spec<T: ScalarObjectiveFunction>(
    o: &T,
    s: BoundedState,
    xm: u64,
    tol1: u64,
    tol2: u64,
) -> BoundedState {
    let dr = bounded_dr_spec(s, xm, tol1, tol2);
    let si = add_bits(sign_spec(dr.1), zero_or_not_spec(dr.1));
    let x = add_bits(s.xf, mul_bits(si, arg_max_spec(abs_bits(dr.1), tol1)));
    let fu = o.eval_spec(x);
    if le_bits(fu, s.fx) {
        BoundedState {
            a: if ge_bits(x, s.xf) { s.xf } else { s.a },
            b: if ge_bits(x, s.xf) { s.b } else { s.xf },
            fulc: s.nfc,
            nfc: s.xf,
            xf: x,
            fx: fu,
            ffulc: s.fnfc,
            fnfc: s.fx,
            e: dr.0,
            rat: dr.1,
            num: s.num + 1,
        }
    } else {
        let a2 = if lt_bits(x, s.xf) { x } else { s.a };
        let b2 = if lt_bits(x, s.xf) { s.b } else { x };
        if le_bits(fu, s.fnfc) || lt_bits(abs_bits(sub_bits(s.nfc, s.xf)), EPSILON_BITS) {
            BoundedState {
                a: a2,
                b: b2,
                fulc: s.nfc,
                nfc: x,
                xf: s.xf,
                fx: s.fx,
                ffulc: s.fnfc,
                fnfc: fu,
                e: dr.0,
                rat: dr.1,
                num: s.num + 1,
            }
        } else if le_bits(fu, s.ffulc)
            || lt_bits(abs_bits(sub_bits(s.fulc, s.xf)), EPSILON_BITS)
            || lt_bits(abs_bits(sub_bits(s.fulc, s.nfc)), EPSILON_BITS) {
            BoundedState {
                a: a2,
                b: b2,
                fulc: x,
                nfc: s.nfc,
                xf: s.xf,
                fx: s.fx,
                ffulc: fu,
                fnfc: s.fnfc,
                e: dr.0,
                rat: dr.1,
                num: s.num + 1,
            }
        } else {
            BoundedState {
                a: a2,
                b: b2,
                fulc: s.fulc,
                nfc: s.nfc,
                xf: s.xf,
                fx: s.fx,
                ffulc: s.ffulc,
                fnfc: s.fnfc,
                e: dr.0,
                rat: dr.1,
                num: s.num + 1,
            }
        }
    }
}

/// The mirror of the bounded loop: from the state at a loop-condition check
/// to the outcome of the whole search.  Running out of passes keeps the best
/// estimate and reports it with `success` false; passing the convergence
/// test reports `success` true.
pub open spec fn bounded_loop_spec<T: ScalarObjectiveFunction>(
    o: &T,
    s: BoundedState,
    maxiter: nat,
) -> ScalarSpecOutcome
    decreases maxiter + 1 - s.num,
{
    let xm = bounded_xm_spec(s);
    let tol1 = bounded_tol1_spec(s);
    let tol2 = mul_bits(TWO_BITS, tol1);
    if !gt_bits(abs_bits(sub_bits(s.xf, xm)), sub_bits(tol2, mul_bits(HALF_BITS, sub_bits(s.b, s.a)))) {
        ScalarSpecOutcome::Finished { fun: s.fx, nfev: s.num, success: true, x: s.xf }
    } else {
        let s2 = bounded_step_spec(o, s, xm, tol1, tol2);
        if s2.num >= maxiter {
            ScalarSpecOutcome::Finished { fun: s2.fx, nfev: s2.num, success: false, x: s2.xf }
        } else {
            bounded_loop_spec(o, s2, maxiter)
        }
    }
}

/// The state the bounded search enters its loop with: the golden-section
/// interior point of the given interval seeds the whole best triple.
pub open spec fn bounded_init_spec<T: ScalarObjectiveFunction>(o: &T, x1: u64, x2: u64) -> BoundedState {
    let fulc = add_bits(x1, mul_bits(GOLDEN_MEAN_BITS, sub_bits(x2, x1)));
    let fx = o.eval_spec(fulc);
    BoundedState {
        a: x1,
        b: x2,
        fulc: fulc,
        nfc: fulc,
        xf: fulc,
        fx: fx,
        ffulc: fx,
        fnfc: fx,
        e: ZERO_BITS,
        rat: ZERO_BITS,
        num: 1,
    }
}

/// The mirror of the whole bounded search.
pub open spec fn bounded_spec<T: ScalarObjectiveFunction>(
    o: &T,
    bounds: (u64, u64),
    maxiter: nat,
) -> ScalarSpecOutcome {
    if lt_bits(bounds.1, bounds.0) {
        ScalarSpecOutcome::BadArgument
    } else {
        bounded_loop_spec(o, bounded_init_spec(o, bounds.0, bounds.1), maxiter)
    }
}

/// How a return value of `bounded` reads off the mirror's outcome: a lower
/// bound above the upper bound is an argument error, and the loop always
/// hands back `Ok` with exactly the mirrored fields — `success` false, and
/// never an error, when the iteration budget ran out first.
pub open spec fn bounded_ensures<T: ScalarObjectiveFunction>(
    o: &T,
    bounds: (u64, u64),
    maxiter: nat,
    r: Result<ScalarOptimisationResult, SwoopErrors>,
) -> bool {
    match bounded_spec(o, bounds, maxiter) {
        ScalarSpecOutcome::BadArgument => {
            &&& r matches Err(SwoopErrors::ArgumentError(m))
            &&& m@ == "The lower bound exceeds the upper bound"@
        },
        ScalarSpecOutcome::NoBracket => false,
        ScalarSpecOutcome::Exhausted => false,
        ScalarSpecOutcome::Finished { fun, nfev, success, x } => {
            &&& r matches Ok(res)
            &&& res.fun == fun
            &&& res.nfev as nat == nfev
            &&& res.success == success
            &&& res.x == x
        },
    }
}

/// Bounded univariate scalar optimisation
///
/// # Parameters
/// * `objective_function` - objective struct that implements the trait
///   `ScalarObjectiveFunction`
/// * `bounds` - bounds for the optimisation
/// * `maxiter` - maximum iterations
///
/// # Errors
/// Will return `SwoopErrors::ArgumentError` if the lower bound exceeds the
/// upper bound
pub fn bounded<T: ScalarObjectiveFunction>(
    objective_function: T,
    bounds: (u64, u64),
    maxiter: usize,
) -> (r: Result<ScalarOptimisationResult, SwoopErrors>)
    ensures
        bounded_ensures(&objective_function, bounds, maxiter as nat, r),
        r matches Ok(res) ==> res.nfev <= maxiter + 2,
{
    let (x1, x2) = bounds;
    if flt(x2, x1) {
        return Err(SwoopErrors::ArgumentError(String::from_str(
            "The lower bound exceeds the upper bound",
        )));
    }

    let mut a = x1;
    let mut b = x2;
    let mut fulc = fadd(a, fmul(GOLDEN_MEAN_BITS, fsub(b, a)));
    let mut nfc = fulc;
    let mut xf = fulc;

    let mut rat: u64 = ZERO_BITS;
    let mut e: u64 = ZERO_BITS;

    let mut x = xf;

    let mut fx = objective_function.evaluate(x);
    let mut num: usize = 1;

    let mut ffulc = fx;
    let mut fnfc = fx;

    let mut xm = fmul(HALF_BITS, fadd(a, b));

    let mut tol1 = fadd(fmul(SQRT_EPS_BITS, fabs(xf)), XATOL_THIRD_BITS);
    let mut tol2 = fmul(TWO_BITS, tol1);

    let mut success = true;

    assert(bounded_init_spec(&objective_function, x1, x2) == (BoundedState {
        a: a, b: b, fulc: fulc, nfc: nfc, xf: xf, fx: fx, ffulc: ffulc, fnfc: fnfc,
        e: e, rat: rat, num: 1nat,
    }));

    loop
        invariant_except_break
            num == 1 || (2 <= num && num < maxiter),
            success == true,
            xm == bounded_xm_spec(
                (BoundedState {
                    a: a, b: b, fulc: fulc, nfc: nfc, xf: xf, fx: fx, ffulc: ffulc, fnfc: fnfc,
                    e: e, rat: rat, num: num as nat,
                }),
            ),
            tol1 == bounded_tol1_spec(
                (BoundedState {
                    a: a, b: b, fulc: fulc, nfc: nfc, xf: xf, fx: fx, ffulc: ffulc, fnfc: fnfc,
                    e: e, rat: rat, num: num as nat,
                }),
            ),
            tol2 == mul_bits(TWO_BITS, tol1),
            bounded_loop_spec(
                &objective_function,
                (BoundedState {
                    a: a, b: b, fulc: fulc, nfc: nfc, xf: xf, fx: fx, ffulc: ffulc, fnfc: fnfc,
                    e: e, rat: rat, num: num as nat,
                }),
                maxiter as nat,
            ) == bounded_spec(&objective_function, bounds, maxiter as nat),
        ensures
            num <= maxiter + 2,
            bounded_spec(&objective_function, bounds, maxiter as nat)
                == (ScalarSpecOutcome::Finished {
                    fun: fx, nfev: num as nat, success: success, x: xf,
                }),
        decreases maxiter + 1 - num,
    {
        let cond = fgt(fabs(fsub(xf, xm)), fsub(tol2, fmul(HALF_BITS, fsub(b, a))));
        if !cond {
            break;
        }

        let ghost pre = BoundedState {
            a: a, b: b, fulc: fulc, nfc: nfc, xf: xf, fx: fx, ffulc: ffulc, fnfc: fnfc,
            e: e, rat: rat, num: num as nat,
        };
        let ghost oxm = xm;
        let ghost otol1 = tol1;
        let ghost otol2 = tol2;

        let mut golden = true;

        // Check for parabolic fit
        if fgt(fabs(e), tol1) {
            golden = false;
            let mut r = fmul(fsub(xf, nfc), fsub(fx, ffulc));
            let mut q = fmul(fsub(xf, fulc), fsub(fx, fnfc));
            let mut p = fsub(fmul(fsub(xf, fulc), q), fmul(fsub(xf, nfc), r));
            q = fmul(TWO_BITS, fsub(q, r));
            if fgt(q, ZERO_BITS) {
                p = fneg(p);
            }
            q = fabs(q);
            r = e;
            e = rat;

            // Check for acceptability of parabola
            if flt(fabs(p), fabs(fmul(fmul(HALF_BITS, q), r)))
                && fgt(p, fmul(q, fsub(a, xf)))
                && flt(p, fmul(q, fsub(b, xf))) {
                rat = fdiv(fadd(p, ZERO_BITS), q);
                x = fadd(xf, rat);

                if flt(fsub(x, a), tol2) || flt(fsub(b, x), tol2) {
                    let si = fadd(sign(fsub(xm, xf)), zero_diff(xm, xf));
                    rat = fmul(tol1, si);
                }
            } else {
                golden = true;
            }
        }

        if golden {
            if fge(xf, xm) {
                e = fsub(a, xf);
            } else {
                e = fsub(b, xf);
            }

            rat = fmul(GOLDEN_MEAN_BITS, e);
        }

        let si = fadd(sign(rat), zero_or_not(rat));
        x = fadd(xf, fmul(si, arg_max(fabs(rat), tol1)));
        let fu = objective_function.evaluate(x);
        num = num + 1;

        if fle(fu, fx) {
            if fge(x, xf) {
                a = xf;
            } else {
                b = xf;
            }

            fulc = nfc;
            ffulc = fnfc;
            nfc = xf;
            fnfc = fx;
            xf = x;
            fx = fu;
        } else {
            if flt(x, xf) {
                a = x;
            } else {
                b = x;
            }

            if fle(fu, fnfc) || flt(fabs(fsub(nfc, xf)), EPSILON_BITS) {
                fulc = nfc;
                ffulc = fnfc;
                nfc = x;
                fnfc = fu;
            } else if fle(fu, ffulc)
                || flt(fabs(fsub(fulc, xf)), EPSILON_BITS)
                || flt(fabs(fsub(fulc, nfc)), EPSILON_BITS) {
                fulc = x;
                ffulc = fu;
            }
        }

        xm = fmul(HALF_BITS, fadd(a, b));
        tol1 = fadd(fmul(SQRT_EPS_BITS, fabs(xf)), XATOL_THIRD_BITS);
        tol2 = fmul(TWO_BITS, tol1);

        assert((BoundedState {
            a: a, b: b, fulc: fulc, nfc: nfc, xf: xf, fx: fx, ffulc: ffulc, fnfc: fnfc,
            e: e, rat: rat, num: num as nat,
        }) == bounded_step_spec(&objective_function, pre, oxm, otol1, otol2));

        if num >= maxiter {
            success = false;
            break;
        }
    }

    Ok(ScalarOptimisationResult { fun: fx, nfev: num, success: success, x: xf })
}


/// Determinism law: two runs of the bounded search on the same objective and
/// the same parameters end the same way, bit for bit — the same result
/// fields on success, and the same error case otherwise.
pub proof fn lemma_bounded_deterministic<T: ScalarObjectiveFunction>(
    o: &T,
    bounds: (u64, u64),
    maxiter: nat,
    r1: Result<ScalarOptimisationResult, SwoopErrors>,
    r2: Result<ScalarOptimisationResult, SwoopErrors>,
)
    requires
        bounded_ensures(o, bounds, maxiter, r1),
        bounded_ensures(o, bounds, maxiter, r2),
    ensures
        r1 is Ok <==> r2 is Ok,
        r1 matches Ok(a) ==> (r2 matches Ok(b) && a == b),
        r1 matches Err(SwoopErrors::MaxIterExceeded) ==> r2 matches Err(SwoopErrors::MaxIterExceeded),
        r1 matches Err(SwoopErrors::ArgumentError(m1)) ==> (r2 matches Err(
            SwoopErrors::ArgumentError(m2),
        ) && m1@ == m2@),
{
}


/// Evaluation-count law for the bounded loop: from any loop state, the
/// finished search's count never falls below the count already spent, and a
/// search that converges within the budget spends at most `maxiter`
/// evaluations; one that runs out spends at most one more than it had.
pub proof fn lemma_bounded_loop_calls<T: ScalarObjectiveFunction>(
    o: &T,
    s: BoundedState,
    maxiter: nat,
)
    ensures
        bounded_loop_spec(o, s, maxiter) matches ScalarSpecOutcome::Finished { nfev, .. }
            ==> s.num <= nfev <= (if s.num < maxiter {
                maxiter
            } else {
                s.num + 1
            }),
    decreases maxiter + 1 - s.num,
{
    let xm = bounded_xm_spec(s);
    let tol1 = bounded_tol1_spec(s);
    let tol2 = mul_bits(TWO_BITS, tol1);
    if !gt_bits(abs_bits(sub_bits(s.xf, xm)), sub_bits(tol2, mul_bits(HALF_BITS, sub_bits(s.b, s.a)))) {
    } else {
        let s2 = bounded_step_spec(o, s, xm, tol1, tol2);
        if s2.num >= maxiter {
        } else {
            lemma_bounded_loop_calls(o, s2, maxiter);
        }
    }
}


/// From any loop state whose best value is the objective at its best point,
/// a finished bounded search reports the objective's value at the minimiser
/// it returns.
pub proof fn lemma_bounded_loop_fun_at_x<T: ScalarObjectiveFunction>(
    o: &T,
    s: BoundedState,
    maxiter: nat,
)
    requires
        s.fx == o.eval_spec(s.xf),
    ensures
        bounded_loop_spec(o, s, maxiter) matches ScalarSpecOutcome::Finished { fun, x, .. }
            ==> fun == o.eval_spec(x),
    decreases maxiter + 1 - s.num,
{
    let xm = bounded_xm_spec(s);
    let tol1 = bounded_tol1_spec(s);
    let tol2 = mul_bits(TWO_BITS, tol1);
    if gt_bits(abs_bits(sub_bits(s.xf, xm)), sub_bits(tol2, mul_bits(HALF_BITS, sub_bits(s.b, s.a)))) {
        let s2 = bounded_step_spec(o, s, xm, tol1, tol2);
        if s2.num < maxiter {
            lemma_bounded_loop_fun_at_x(o, s2, maxiter);
        }
    }
}

/// The value-at-minimiser law: whenever the bounded search hands back a
/// result, converged or not, its `fun` is the objective's value at its `x`.
pub proof fn lemma_bounded_fun_at_x<T: ScalarObjectiveFunction>(
    o: &T,
    bounds: (u64, u64),
    maxiter: nat,
)
    ensures
        bounded_spec(o, bounds, maxiter) matches ScalarSpecOutcome::Finished { fun, x, .. }
            ==> fun == o.eval_spec(x),
{
    if !lt_bits(bounds.1, bounds.0) {
        lemma_bounded_loop_fun_at_x(o, bounded_init_spec(o, bounds.0, bounds.1), maxiter);
    }
}

} // verus!
