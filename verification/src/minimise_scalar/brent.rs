//! Brent univariate scalar optimisation.

use vstd::prelude::*;
use vstd::string::StringExecFns;
use crate::SwoopErrors;
use crate::fp::{
    add_bits, sub_bits, mul_bits, div_bits, lt_bits, le_bits, gt_bits, ge_bits, abs_bits, neg_bits,
    fadd, fsub, fmul, fdiv, flt, fle, fgt, fge, fabs, fneg,
    ZERO_BITS, ONE_BITS, TWO_BITS, HALF_BITS, EPSILON_BITS,
};
use crate::minimise_scalar::{
    bracket_default, bracket_default_spec, BracketOutcome, ScalarObjectiveFunction,
    ScalarOptimisationResult, ScalarSpecOutcome,
};

verus! {

/// Bit pattern of the default displacement tolerance of the Brent search.
pub const BRENT_XTOL_DEFAULT_BITS: u64 = 0x3e4fc862d3e17360;
/// Bit pattern of the absolute floor added to the displacement tolerance.
pub const MIN_TOL_BITS: u64 = 0x3da5fd7fe1796495;
/// Bit pattern of the golden-section step factor of the Brent search.
pub const CG_BITS: u64 = 0x3fd87221858bc59c;

/// One pass of the Brent loop, between checks of the loop condition.
pub ghost struct BrentState {
    /// Best point so far
    pub x: u64,
    /// Second-best point
    pub w: u64,
    /// Third-best point
    pub v: u64,
    /// Objective value at `x`
    pub fx: u64,
    /// Objective value at `w`
    pub fw: u64,
    /// Objective value at `v`
    pub fv: u64,
    /// Lower end of the enclosing interval
    pub a: u64,
    /// Upper end of the enclosing interval
    pub b: u64,
    /// Displacement taken two steps back
    pub deltax: u64,
    /// Displacement taken last step
    pub rat: u64,
    /// Objective evaluations so far
    pub fun_calls: nat,
    /// Loop passes completed so far
    pub iter: nat,
}

/// The golden-section displacement: away from the interval end on the side
/// of the midpoint that holds `x`.
pub open spec fn brent_golden_delta_spec(s: BrentState, xmid: u64) -> u64 {
    if ge_bits(s.x, xmid) {
        sub_bits(s.a, s.x)
    } else {
        sub_bits(s.b, s.x)
    }
}

/// The pair (new `deltax`, new `rat`) one pass decides on: a parabolic step
/// through the three best points when the last displacements allow one and
/// its candidate stays inside the interval, else a golden-section step.
pub open spec fn brent_next_dr_spec(s: BrentState, tol1: u64, tol2: u64, xmid: u64) -> (u64, u64) {
    if le_bits(abs_bits(s.deltax), tol1) {
        let d = brent_golden_delta_spec(s, xmid);
        (d, mul_bits(CG_BITS, d))
    } else {
        let tmp1 = mul_bits(sub_bits(s.x, s.w), sub_bits(s.fx, s.fv));
        let tmp2 = mul_bits(sub_bits(s.x, s.v), sub_bits(s.fx, s.fw));
        let p0 = sub_bits(mul_bits(sub_bits(s.x, s.v), tmp2), mul_bits(sub_bits(s.x, s.w), tmp1));
        let q0 = mul_bits(TWO_BITS, sub_bits(tmp2, tmp1));
        let p = if gt_bits(q0, ZERO_BITS) { neg_bits(p0) } else { p0 };
        let q = abs_bits(q0);
        let dx_temp = s.deltax;
        if gt_bits(p, mul_bits(q, sub_bits(s.a, s.x)))
            && lt_bits(p, mul_bits(q, sub_bits(s.b, s.x)))
            && lt_bits(abs_bits(p), abs_bits(mul_bits(mul_bits(HALF_BITS, q), dx_temp))) {
            let rat_p = div_bits(mul_bits(p, ONE_BITS), q);
            let u0 = add_bits(s.x, rat_p);
            if lt_bits(sub_bits(u0, s.a), tol2) || lt_bits(sub_bits(s.b, u0), tol2) {
                let rat_c = if ge_bits(sub_bits(xmid, s.x), ZERO_BITS) { tol1 } else { neg_bits(tol1) };
                (s.rat, rat_c)
            } else {
                (s.rat, rat_p)
            }
        } else {
            let d = brent_golden_delta_spec(s, xmid);
            (d, mul_bits(CG_BITS, d))
        }
    }
}

/// The point the pass evaluates: `x` displaced by `rat`, with displacements
/// under `tol1` pushed out to exactly `tol1` in their own direction.
pub open spec fn brent_u_spec(x: u64, rat: u64, tol1: u64) -> u64 {
    if lt_bits(abs_bits(rat), tol1) {
        if ge_bits(rat, ZERO_BITS) {
            add_bits(x, tol1)
        } else {
            sub_bits(x, tol1)
        }
    } else {
        add_bits(x, rat)
    }
}

/// The bookkeeping of one pass: fold the evaluated point `u` into the best
/// triple and tighten the interval, with near-equal points (within machine
/// epsilon) treated as coincident.
pub open spec fn brent_update_spec(s: BrentState, u: u64, fu: u64, deltax: u64, rat: u64) -> BrentState {
    if gt_bits(fu, s.fx) {
        let a2 = if lt_bits(u, s.x) { u } else { s.a };
        let b2 = if lt_bits(u, s.x) { s.b } else { u };
        if le_bits(fu, s.fw) || lt_bits(abs_bits(sub_bits(s.w, s.x)), EPSILON_BITS) {
            brent_keep_best_spec(s, a2, b2, s.w, u, s.fw, fu, deltax, rat)
        } else if le_bits(fu, s.fv)
            || lt_bits(abs_bits(sub_bits(s.v, s.x)), EPSILON_BITS)
            || lt_bits(abs_bits(sub_bits(s.v, s.w)), EPSILON_BITS) {
            brent_keep_best_spec(s, a2, b2, u, s.w, fu, s.fw, deltax, rat)
        } else {
            brent_keep_best_spec(s, a2, b2, s.v, s.w, s.fv, s.fw, deltax, rat)
        }
    } else {
        let a2 = if ge_bits(u, s.x) { s.x } else { s.a };
        let b2 = if ge_bits(u, s.x) { s.b } else { s.x };
        BrentState {
            x: u,
            w: s.x,
            v: s.w,
            fx: fu,
            fw: s.fx,
            fv: s.fw,
            a: a2,
            b: b2,
            deltax: deltax,
            rat: rat,
            fun_calls: s.fun_calls + 1,
            iter: s.iter + 1,
        }
    }
}

/// Helper assembling the state of a pass that kept its best point.
pub open spec fn brent_keep_best_spec(
    s: BrentState,
    a2: u64,
    b2: u64,
    v2: u64,
    w2: u64,
    fv2: u64,
    fw2: u64,
    deltax: u64,
    rat: u64,
) -> BrentState {
    BrentState {
        x: s.x,
        w: w2,
        v: v2,
        fx: s.fx,
        fw: fw2,
        fv: fv2,
        a: a2,
        b: b2,
        deltax: deltax,
        rat: rat,
        fun_calls: s.fun_calls + 1,
        iter: s.iter + 1,
    }
}

/// The mirror of the Brent loop: from the state at a loop-condition check to
/// the outcome of the whole search.  The loop only ever finishes: running out
/// of passes is reported no differently from passing the convergence test.
pub open spec fn brent_loop_spec<T: ScalarObjectiveFunction>(
    o: &T,
    s: BrentState,
    tol: u64,
    maxiter: nat,
) -> ScalarSpecOutcome
    decreases maxiter - s.iter,
{
    if s.iter >= maxiter {
        ScalarSpecOutcome::Finished { fun: s.fx, nfev: s.fun_calls, success: true, x: s.x }
    } else {
        let tol1 = add_bits(mul_bits(tol, abs_bits(s.x)), MIN_TOL_BITS);
        let tol2 = mul_bits(TWO_BITS, tol1);
        let xmid = mul_bits(HALF_BITS, add_bits(s.a, s.b));
        if lt_bits(abs_bits(sub_bits(s.x, xmid)), sub_bits(tol2, mul_bits(HALF_BITS, sub_bits(s.b, s.a)))) {
            ScalarSpecOutcome::Finished { fun: s.fx, nfev: s.fun_calls, success: true, x: s.x }
        } else {
            let dr = brent_next_dr_spec(s, tol1, tol2, xmid);
            let u = brent_u_spec(s.x, dr.1, tol1);
            let fu = o.eval_spec(u);
            brent_loop_spec(o, brent_update_spec(s, u, fu, dr.0, dr.1), tol, maxiter)
        }
    }
}

/// The state the Brent search enters its loop with, given the bracketing
/// triple: the middle point seeds the whole best triple, and the outer points
/// give the enclosing interval.
pub open spec fn brent_init_spec<T: ScalarObjectiveFunction>(
    o: &T,
    xa: u64,
    xb: u64,
    xc: u64,
    fun_calls: nat,
) -> BrentState {
    let fb = o.eval_spec(xb);
    BrentState {
        x: xb,
        w: xb,
        v: xb,
        fx: fb,
        fw: fb,
        fv: fb,
        a: if lt_bits(xa, xc) { xa } else { xc },
        b: if lt_bits(xa, xc) { xc } else { xa },
        deltax: ZERO_BITS,
        rat: mul_bits(ZERO_BITS, CG_BITS),
        fun_calls: fun_calls + 1,
        iter: 0,
    }
}

/// The mirror of the whole Brent search.
pub open spec fn brent_spec<T: ScalarObjectiveFunction>(
    o: &T,
    xtol: Option<u64>,
    maxiter: nat,
) -> ScalarSpecOutcome {
    if xtol matches Some(t) && lt_bits(t, ZERO_BITS) {
        ScalarSpecOutcome::BadArgument
    } else {
        let tol = match xtol {
            Some(t) => t,
            None => BRENT_XTOL_DEFAULT_BITS,
        };
        match bracket_default_spec(o) {
            BracketOutcome::OutOfIterations => ScalarSpecOutcome::NoBracket,
            BracketOutcome::Bracketed { xa, xb, xc, fun_calls } => brent_loop_spec(
                o,
                brent_init_spec(o, xa, xb, xc, fun_calls),
                tol,
                maxiter,
            ),
        }
    }
}

/// How a return value of `brent` reads off the mirror's outcome: a negative
/// tolerance is an argument error, a spent bracketing budget is
/// `MaxIterExceeded`, and the loop always hands back `Ok` with exactly the
/// mirrored fields and `success` true, whether or not its convergence test
/// was ever passed.
pub open spec fn brent_ensures<T: ScalarObjectiveFunction>(
    o: &T,
    xtol: Option<u64>,
    maxiter: nat,
    r: Result<ScalarOptimisationResult, SwoopErrors>,
) -> bool {
    match brent_spec(o, xtol, maxiter) {
        ScalarSpecOutcome::BadArgument => {
            &&& r matches Err(SwoopErrors::ArgumentError(m))
            &&& m@ == "Tolerance cannot be negative"@
        },
        ScalarSpecOutcome::NoBracket => r matches Err(e) && e is MaxIterExceeded,
        ScalarSpecOutcome::Exhausted => false,
        ScalarSpecOutcome::Finished { fun, nfev, success, x } => {
            &&& r matches Ok(res)
            &&& res.fun == fun
            &&& res.nfev as nat == nfev
            &&& res.success == success
            &&& res.x == x
        },
    }
}

/// Brent univariate scalar optimisation
///
/// # Parameters
/// * `objective_function` - objective struct that implements the trait
///   `ScalarObjectiveFunction`
/// * `xtol` - relative error in solution that is acceptable for convergence
/// * `maxiter` - maximum iterations
///
/// # Errors
/// Will return `SwoopErrors::ArgumentError` if the passed tolerance `xtol`
/// is negative
pub fn brent<T: ScalarObjectiveFunction>(
    objective_function: T,
    xtol: Option<u64>,
    maxiter: usize,
) -> (r: Result<ScalarOptimisationResult, SwoopErrors>)
    requires
        maxiter + 2010 <= usize::MAX,
    ensures
        brent_ensures(&objective_function, xtol, maxiter as nat, r),
        r matches Ok(res) ==> res.nfev <= 2010 + maxiter,
{
    let tol: u64;
    if let Some(i) = xtol {
        tol = i;
        if flt(tol, ZERO_BITS) {
            return Err(SwoopErrors::ArgumentError(String::from_str("Tolerance cannot be negative")));
        }
    } else {
        tol = BRENT_XTOL_DEFAULT_BITS;
    }

    let bracket_result = match bracket_default(&objective_function) {
        Ok(b) => b,
        Err(e) => {
            return Err(e);
        },
    };
    let (xa, xb, xc) = bracket_result.bracket;
    let mut fun_calls = bracket_result.fun_calls;

    let mut x = xb;
    let mut w = xb;
    let mut v = xb;
    let mut a: u64;
    let mut b: u64;

    let mut fw = objective_function.evaluate(x);
    let mut fv = fw;
    let mut fx = fw;

    if flt(xa, xc) {
        a = xa;
        b = xc;
    } else {
        a = xc;
        b = xa;
    }

    let mut deltax: u64 = ZERO_BITS;
    fun_calls = fun_calls + 1;
    let mut iter: usize = 0;

    let mut rat: u64 = fmul(deltax, CG_BITS);

    assert(brent_init_spec(
        &objective_function,
        xa,
        xb,
        xc,
        (fun_calls - 1) as nat,
    ) == (BrentState {
        x: x, w: w, v: v, fx: fx, fw: fw, fv: fv, a: a, b: b,
        deltax: deltax, rat: rat, fun_calls: fun_calls as nat, iter: 0nat,
    }));

    loop
        invariant_except_break
            maxiter + 2010 <= usize::MAX,
            iter <= maxiter,
            fun_calls <= 2010 + iter,
            brent_loop_spec(
                &objective_function,
                (BrentState {
                    x: x, w: w, v: v, fx: fx, fw: fw, fv: fv, a: a, b: b,
                    deltax: deltax, rat: rat, fun_calls: fun_calls as nat, iter: iter as nat,
                }),
                tol,
                maxiter as nat,
            ) == brent_spec(&objective_function, xtol, maxiter as nat),
        ensures
            fun_calls <= 2010 + maxiter,
            brent_spec(&objective_function, xtol, maxiter as nat)
                == (ScalarSpecOutcome::Finished {
                    fun: fx, nfev: fun_calls as nat, success: true, x: x,
                }),
        decreases maxiter - iter,
    {
        if !(iter < maxiter) {
            break;
        }

        let tol1 = fadd(fmul(tol, fabs(x)), MIN_TOL_BITS);
        let tol2 = fmul(TWO_BITS, tol1);
        let xmid = fmul(HALF_BITS, fadd(a, b));

        // check for convergence
        if flt(fabs(fsub(x, xmid)), fsub(tol2, fmul(HALF_BITS, fsub(b, a)))) {
            break;
        }

        let ghost pre = BrentState {
            x: x, w: w, v: v, fx: fx, fw: fw, fv: fv, a: a, b: b,
            deltax: deltax, rat: rat, fun_calls: fun_calls as nat, iter: iter as nat,
        };

        if fle(fabs(deltax), tol1) {
            if fge(x, xmid) {
                // do a golden section step
                deltax = fsub(a, x);
            } else {
                deltax = fsub(b, x);
            }
            rat = fmul(CG_BITS, deltax);
        } else {
            // do a parabolic step
            let tmp1 = fmul(fsub(x, w), fsub(fx, fv));
            let tmp2 = fmul(fsub(x, v), fsub(fx, fw));
            let mut p = fsub(fmul(fsub(x, v), tmp2), fmul(fsub(x, w), tmp1));
            let mut q = fmul(TWO_BITS, fsub(tmp2, tmp1));
            if fgt(q, ZERO_BITS) {
                p = fneg(p);
            }
            q = fabs(q);
            let dx_temp = deltax;
            deltax = rat;
            // check parabolic fit
            if fgt(p, fmul(q, fsub(a, x)))
                && flt(p, fmul(q, fsub(b, x)))
                && flt(fabs(p), fabs(fmul(fmul(HALF_BITS, q), dx_temp))) {
                rat = fdiv(fmul(p, ONE_BITS), q);
                let u0 = fadd(x, rat);
                if flt(fsub(u0, a), tol2) || flt(fsub(b, u0), tol2) {
                    if fge(fsub(xmid, x), ZERO_BITS) {
                        rat = tol1;
                    } else {
                        rat = fneg(tol1);
                    }
                }
            } else {
                if fge(x, xmid) {
                    // if it's not, do a golden section step
                    deltax = fsub(a, x);
                } else {
                    deltax = fsub(b, x);
                }
                rat = fmul(CG_BITS, deltax);
            }
        }

        assert((deltax, rat) == brent_next_dr_spec(pre, tol1, tol2, xmid));

        let u: u64;
        if flt(fabs(rat), tol1) {
            if fge(rat, ZERO_BITS) {
                u = fadd(x, tol1);
            } else {
                u = fsub(x, tol1);
            }
        } else {
            u = fadd(x, rat);
        }
        let fu = objective_function.evaluate(u);
        fun_calls = fun_calls + 1;

        if fgt(fu, fx) {
            if flt(u, x) {
                a = u;
            } else {
                b = u;
            }

            if fle(fu, fw) || flt(fabs(fsub(w, x)), EPSILON_BITS) {
                v = w;
                w = u;
                fv = fw;
                fw = fu;
            } else if fle(fu, fv)
                || flt(fabs(fsub(v, x)), EPSILON_BITS)
                || flt(fabs(fsub(v, w)), EPSILON_BITS) {
                v = u;
                fv = fu;
            }
        } else {
            if fge(u, x) {
                a = x;
            } else {
                b = x;
            }
            v = w;
            w = x;
            x = u;
            fv = fw;
            fw = fx;
            fx = fu;
        }
        iter = iter + 1;

        assert((BrentState {
            x: x, w: w, v: v, fx: fx, fw: fw, fv: fv, a: a, b: b,
            deltax: deltax, rat: rat, fun_calls: fun_calls as nat, iter: iter as nat,
        }) == brent_update_spec(pre, u, fu, deltax, rat));
    }

    Ok(ScalarOptimisationResult { fun: fx, nfev: fun_calls, success: true, x: x })
}


/// Determinism law: two runs of the brent search on the same objective and
/// the same parameters end the same way, bit for bit — the same result
/// fields on success, and the same error case otherwise.
pub proof fn lemma_brent_deterministic<T: ScalarObjectiveFunction>(
    o: &T,
    xtol: Option<u64>,
    maxiter: nat,
    r1: Result<ScalarOptimisationResult, SwoopErrors>,
    r2: Result<ScalarOptimisationResult, SwoopErrors>,
)
    requires
        brent_ensures(o, xtol, maxiter, r1),
        brent_ensures(o, xtol, maxiter, r2),
    ensures
        r1 is Ok <==> r2 is Ok,
        r1 matches Ok(a) ==> (r2 matches Ok(b) && a == b),
        r1 matches Err(SwoopErrors::MaxIterExceeded) ==> r2 matches Err(SwoopErrors::MaxIterExceeded),
        r1 matches Err(SwoopErrors::ArgumentError(m1)) ==> (r2 matches Err(
            SwoopErrors::ArgumentError(m2),
        ) && m1@ == m2@),
{
}


/// Evaluation-count law for the Brent loop: from any loop state, the
/// finished search's count never falls below the count already spent, and
/// each remaining pass adds exactly one evaluation.
pub proof fn lemma_brent_loop_calls<T: ScalarObjectiveFunction>(
    o: &T,
    s: BrentState,
    tol: u64,
    maxiter: nat,
)
    ensures
        brent_loop_spec(o, s, tol, maxiter) matches ScalarSpecOutcome::Finished { nfev, .. }
            ==> s.fun_calls <= nfev <= s.fun_calls + (if s.iter < maxiter {
                maxiter - s.iter
            } else {
                0
            }),
    decreases maxiter - s.iter,
{
    if s.iter >= maxiter {
    } else {
        let tol1 = add_bits(mul_bits(tol, abs_bits(s.x)), MIN_TOL_BITS);
        let tol2 = mul_bits(TWO_BITS, tol1);
        let xmid = mul_bits(HALF_BITS, add_bits(s.a, s.b));
        if lt_bits(abs_bits(sub_bits(s.x, xmid)), sub_bits(tol2, mul_bits(HALF_BITS, sub_bits(s.b, s.a)))) {
        } else {
            let dr = brent_next_dr_spec(s, tol1, tol2, xmid);
            let u = brent_u_spec(s.x, dr.1, tol1);
            let fu = o.eval_spec(u);
            lemma_brent_loop_calls(o, brent_update_spec(s, u, fu, dr.0, dr.1), tol, maxiter);
        }
    }
}


/// From any loop state whose best value is the objective at its best point,
/// the finished Brent search reports the objective's value at the minimiser
/// it returns.
pub proof fn lemma_brent_loop_fun_at_x<T: ScalarObjectiveFunction>(
    o: &T,
    s: BrentState,
    tol: u64,
    maxiter: nat,
)
    requires
        s.fx == o.eval_spec(s.x),
    ensures
        brent_loop_spec(o, s, tol, maxiter) matches ScalarSpecOutcome::Finished { fun, x, .. }
            ==> fun == o.eval_spec(x),
    decreases maxiter - s.iter,
{
    if s.iter >= maxiter {
    } else {
        let tol1 = add_bits(mul_bits(tol, abs_bits(s.x)), MIN_TOL_BITS);
        let tol2 = mul_bits(TWO_BITS, tol1);
        let xmid = mul_bits(HALF_BITS, add_bits(s.a, s.b));
        if lt_bits(abs_bits(sub_bits(s.x, xmid)), sub_bits(tol2, mul_bits(HALF_BITS, sub_bits(s.b, s.a)))) {
        } else {
            let dr = brent_next_dr_spec(s, tol1, tol2, xmid);
            let u = brent_u_spec(s.x, dr.1, tol1);
            let fu = o.eval_spec(u);
            lemma_brent_loop_fun_at_x(o, brent_update_spec(s, u, fu, dr.0, dr.1), tol, maxiter);
        }
    }
}

/// The value-at-minimiser law: whenever the Brent search hands back a
/// result, its `fun` is the objective's value at its `x`.
pub proof fn lemma_brent_fun_at_x<T: ScalarObjectiveFunction>(
    o: &T,
    xtol: Option<u64>,
    maxiter: nat,
)
    ensures
        brent_spec(o, xtol, maxiter) matches ScalarSpecOutcome::Finished { fun, x, .. }
            ==> fun == o.eval_spec(x),
{
    if !(xtol matches Some(t) && lt_bits(t, ZERO_BITS)) {
        let tol = match xtol {
            Some(t) => t,
            None => BRENT_XTOL_DEFAULT_BITS,
        };
        match bracket_default_spec(o) {
            BracketOutcome::OutOfIterations => {},
            BracketOutcome::Bracketed { xa, xb, xc, fun_calls } => {
                lemma_brent_loop_fun_at_x(o, brent_init_spec(o, xa, xb, xc, fun_calls), tol, maxiter);
            },
        }
    }
}

} // verus!
