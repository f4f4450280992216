//! Golden section univariate scalar optimisation.

use vstd::prelude::*;
use vstd::string::StringExecFns;
use crate::SwoopErrors;
use crate::fp::{
    add_bits, sub_bits, mul_bits, lt_bits, le_bits, gt_bits, abs_bits,
    fadd, fsub, fmul, flt, fle, fgt, fabs,
    ZERO_BITS,
};
use crate::minimise_scalar::{
    bracket_default, bracket_default_spec, BracketOutcome, ScalarObjectiveFunction,
    ScalarOptimisationResult, ScalarSpecOutcome,
};

verus! {

/// Bit pattern of the golden ratio conjugate.
pub const GR_BITS: u64 = 0x3fe3c6ef37dbb97a;
/// Bit pattern of one minus the golden ratio conjugate.
pub const GC_BITS: u64 = 0x3fd8722190488d0c;
/// Bit pattern of the default displacement tolerance of the golden search.
pub const GOLDEN_XTOL_DEFAULT_BITS: u64 = 0x3caffe5ab7e8ad5e;

/// One pass of the golden-section loop, between checks of the loop condition.
pub ghost struct GoldenState {
    /// Lower outer point of the window
    pub x0: u64,
    /// First interior point
    pub x1: u64,
    /// Second interior point
    pub x2: u64,
    /// Upper outer point of the window
    pub x3: u64,
    /// Objective value at `x1`
    pub f1: u64,
    /// Objective value at `x2`
    pub f2: u64,
    /// Objective evaluations so far
    pub fun_calls: nat,
    /// Loop passes completed so far
    pub nit: nat,
}

/// The interior point with the lower value, handed back as the result.
pub open spec fn golden_select_spec(s: GoldenState) -> ScalarSpecOutcome {
    if lt_bits(s.f1, s.f2) {
        ScalarSpecOutcome::Finished { fun: s.f1, nfev: s.fun_calls, success: true, x: s.x1 }
    } else {
        ScalarSpecOutcome::Finished { fun: s.f2, nfev: s.fun_calls, success: true, x: s.x2 }
    }
}

/// The mirror of the golden-section loop: from the state at a loop-condition
/// check to the outcome of the whole search.
pub open spec fn golden_loop_spec<T: ScalarObjectiveFunction>(
    o: &T,
    s: GoldenState,
    tol: u64,
    maxiter: nat,
) -> ScalarSpecOutcome
    decreases maxiter - s.nit,
{
    if s.nit >= maxiter {
        ScalarSpecOutcome::Exhausted
    } else if le_bits(
        abs_bits(sub_bits(s.x3, s.x0)),
        mul_bits(tol, add_bits(abs_bits(s.x1), abs_bits(s.x2))),
    ) {
        golden_select_spec(s)
    } else if lt_bits(s.f2, s.f1) {
        let x2n = add_bits(mul_bits(GR_BITS, s.x2), mul_bits(GC_BITS, s.x3));
        let f2n = o.eval_spec(x2n);
        golden_loop_spec(
            o,
            (GoldenState {
                x0: s.x1,
                x1: s.x2,
                x2: x2n,
                x3: s.x3,
                f1: s.f2,
                f2: f2n,
                fun_calls: s.fun_calls + 1,
                nit: s.nit + 1,
            }),
            tol,
            maxiter,
        )
    } else {
        let x1n = add_bits(mul_bits(GR_BITS, s.x1), mul_bits(GC_BITS, s.x0));
        let f1n = o.eval_spec(x1n);
        golden_loop_spec(
            o,
            (GoldenState {
                x0: s.x0,
                x1: x1n,
                x2: s.x1,
                x3: s.x2,
                f1: f1n,
                f2: s.f1,
                fun_calls: s.fun_calls + 1,
                nit: s.nit + 1,
            }),
            tol,
            maxiter,
        )
    }
}

/// The state the golden search enters its loop with, given the bracketing
/// triple: the interior point goes beside the shorter outer segment.
pub open spec fn golden_init_spec<T: ScalarObjectiveFunction>(
    o: &T,
    xa: u64,
    xb: u64,
    xc: u64,
    fun_calls: nat,
) -> GoldenState {
    let wide_right = gt_bits(abs_bits(sub_bits(xc, xb)), abs_bits(sub_bits(xb, xa)));
    let x1 = if wide_right { xb } else { sub_bits(xb, mul_bits(GC_BITS, sub_bits(xb, xa))) };
    let x2 = if wide_right { add_bits(xb, mul_bits(GC_BITS, sub_bits(xc, xb))) } else { xb };
    GoldenState {
        x0: xa,
        x1: x1,
        x2: x2,
        x3: xc,
        f1: o.eval_spec(x1),
        f2: o.eval_spec(x2),
        fun_calls: fun_calls + 2,
        nit: 0,
    }
}

/// The mirror of the whole golden-section search.
pub open spec fn golden_spec<T: ScalarObjectiveFunction>(
    o: &T,
    xtol: Option<u64>,
    maxiter: nat,
) -> ScalarSpecOutcome {
    if xtol matches Some(t) && lt_bits(t, ZERO_BITS) {
        ScalarSpecOutcome::BadArgument
    } else {
        let tol = match xtol {
            Some(t) => t,
            None => GOLDEN_XTOL_DEFAULT_BITS,
        };
        match bracket_default_spec(o) {
            BracketOutcome::OutOfIterations => ScalarSpecOutcome::NoBracket,
            BracketOutcome::Bracketed { xa, xb, xc, fun_calls } => golden_loop_spec(
                o,
                golden_init_spec(o, xa, xb, xc, fun_calls),
                tol,
                maxiter,
            ),
        }
    }
}

/// How a return value of `golden` reads off the mirror's outcome: a negative
/// tolerance is an argument error, a spent iteration budget (in bracketing or
/// in the loop) is `MaxIterExceeded`, and a finished search is `Ok` with
/// exactly the mirrored fields, `success` always true.
pub open spec fn golden_ensures<T: ScalarObjectiveFunction>(
    o: &T,
    xtol: Option<u64>,
    maxiter: nat,
    r: Result<ScalarOptimisationResult, SwoopErrors>,
) -> bool {
    match golden_spec(o, xtol, maxiter) {
        ScalarSpecOutcome::BadArgument => {
            &&& r matches Err(SwoopErrors::ArgumentError(m))
            &&& m@ == "Tolerance cannot be negative"@
        },
        ScalarSpecOutcome::NoBracket => r matches Err(e) && e is MaxIterExceeded,
        ScalarSpecOutcome::Exhausted => r matches Err(e) && e is MaxIterExceeded,
        ScalarSpecOutcome::Finished { fun, nfev, success, x } => {
            &&& r matches Ok(res)
            &&& res.fun == fun
            &&& res.nfev as nat == nfev
            &&& res.success == success
            &&& res.x == x
        },
    }
}

/// Golden section univariate scalar optimisation
///
/// # Parameters
/// * `objective_function` - objective struct that implements the trait
///   `ScalarObjectiveFunction`
/// * `xtol` - relative error in solution that is acceptable for convergence
/// * `maxiter` - maximum iterations
///
/// # Errors
/// Will return `SwoopErrors::MaxIterExceeded` if the maximum number of
/// iterations is exceeded before the optimisation converges, and
/// `SwoopErrors::ArgumentError` if the passed tolerance `xtol` is negative
pub fn golden<T: ScalarObjectiveFunction>(
    objective_function: T,
    xtol: Option<u64>,
    maxiter: usize,
) -> (r: Result<ScalarOptimisationResult, SwoopErrors>)
    requires
        maxiter + 2011 <= usize::MAX,
    ensures
        golden_ensures(&objective_function, xtol, maxiter as nat, r),
        r matches Ok(res) ==> res.nfev <= 2011 + maxiter,
{
    let tol: u64;
    if let Some(i) = xtol {
        tol = i;
        if flt(tol, ZERO_BITS) {
            return Err(SwoopErrors::ArgumentError(String::from_str("Tolerance cannot be negative")));
        }
    } else {
        tol = GOLDEN_XTOL_DEFAULT_BITS;
    }

    let bracket_result = match bracket_default(&objective_function) {
        Ok(b) => b,
        Err(e) => {
            return Err(e);
        },
    };
    let (xa, xb, xc) = bracket_result.bracket;
    let mut fun_calls = bracket_result.fun_calls;

    let mut x3 = xc;
    let mut x0 = xa;
    let mut x1: u64;
    let mut x2: u64;

    if fgt(fabs(fsub(xc, xb)), fabs(fsub(xb, xa))) {
        x1 = xb;
        x2 = fadd(xb, fmul(GC_BITS, fsub(xc, xb)));
    } else {
        x2 = xb;
        x1 = fsub(xb, fmul(GC_BITS, fsub(xb, xa)));
    }

    let mut f1 = objective_function.evaluate(x1);
    let mut f2 = objective_function.evaluate(x2);
    fun_calls = fun_calls + 2;

    let mut nit: usize = 0;

    assert(golden_init_spec(
        &objective_function,
        xa,
        xb,
        xc,
        (fun_calls - 2) as nat,
    ) == (GoldenState {
        x0: x0, x1: x1, x2: x2, x3: x3, f1: f1, f2: f2, fun_calls: fun_calls as nat, nit: 0nat,
    }));

    loop
        invariant_except_break
            maxiter + 2011 <= usize::MAX,
            nit <= maxiter,
            fun_calls <= 2011 + nit,
            golden_loop_spec(
                &objective_function,
                (GoldenState {
                    x0: x0,
                    x1: x1,
                    x2: x2,
                    x3: x3,
                    f1: f1,
                    f2: f2,
                    fun_calls: fun_calls as nat,
                    nit: nit as nat,
                }),
                tol,
                maxiter as nat,
            ) == golden_spec(&objective_function, xtol, maxiter as nat),
        ensures
            nit <= maxiter,
            fun_calls <= 2011 + nit,
            golden_loop_spec(
                &objective_function,
                (GoldenState {
                    x0: x0,
                    x1: x1,
                    x2: x2,
                    x3: x3,
                    f1: f1,
                    f2: f2,
                    fun_calls: fun_calls as nat,
                    nit: nit as nat,
                }),
                tol,
                maxiter as nat,
            ) == golden_spec(&objective_function, xtol, maxiter as nat),
            nit < maxiter ==> le_bits(
                abs_bits(sub_bits(x3, x0)),
                mul_bits(tol, add_bits(abs_bits(x1), abs_bits(x2))),
            ),
        decreases maxiter - nit,
    {
        if !(nit < maxiter) {
            break;
        }
        let tol_hit = fle(fabs(fsub(x3, x0)), fmul(tol, fadd(fabs(x1), fabs(x2))));
        if tol_hit {
            break;
        }

        if flt(f2, f1) {
            x0 = x1;
            x1 = x2;
            x2 = fadd(fmul(GR_BITS, x1), fmul(GC_BITS, x3));
            f1 = f2;
            f2 = objective_function.evaluate(x2);
        } else {
            x3 = x2;
            x2 = x1;
            x1 = fadd(fmul(GR_BITS, x2), fmul(GC_BITS, x0));
            f2 = f1;
            f1 = objective_function.evaluate(x1);
        }

        fun_calls = fun_calls + 1;
        nit = nit + 1;
    }

    let xmin: u64;
    let fval: u64;

    if flt(f1, f2) {
        xmin = x1;
        fval = f1;
    } else {
        xmin = x2;
        fval = f2;
    }

    let success: bool = nit < maxiter;

    if success {
        Ok(ScalarOptimisationResult { fun: fval, nfev: fun_calls, success: true, x: xmin })
    } else {
        Err(SwoopErrors::MaxIterExceeded)
    }
}


/// Determinism law: two runs of the golden search on the same objective and
/// the same parameters end the same way, bit for bit — the same result
/// fields on success, and the same error case otherwise.
pub proof fn lemma_golden_deterministic<T: ScalarObjectiveFunction>(
    o: &T,
    xtol: Option<u64>,
    maxiter: nat,
    r1: Result<ScalarOptimisationResult, SwoopErrors>,
    r2: Result<ScalarOptimisationResult, SwoopErrors>,
)
    requires
        golden_ensures(o, xtol, maxiter, r1),
        golden_ensures(o, xtol, maxiter, r2),
    ensures
        r1 is Ok <==> r2 is Ok,
        r1 matches Ok(a) ==> (r2 matches Ok(b) && a == b),
        r1 matches Err(SwoopErrors::MaxIterExceeded) ==> r2 matches Err(SwoopErrors::MaxIterExceeded),
        r1 matches Err(SwoopErrors::ArgumentError(m1)) ==> (r2 matches Err(
            SwoopErrors::ArgumentError(m2),
        ) && m1@ == m2@),
{
}


/// Evaluation-count law for the golden-section loop: from any loop state, a
/// finished search's count never falls below the count already spent, and
/// each remaining pass adds at most one evaluation.
pub proof fn lemma_golden_loop_calls<T: ScalarObjectiveFunction>(
    o: &T,
    s: GoldenState,
    tol: u64,
    maxiter: nat,
)
    ensures
        golden_loop_spec(o, s, tol, maxiter) matches ScalarSpecOutcome::Finished { nfev, .. }
            ==> s.fun_calls <= nfev <= s.fun_calls + (if s.nit < maxiter {
                maxiter - s.nit
            } else {
                0
            }),
    decreases maxiter - s.nit,
{
    if s.nit >= maxiter {
    } else if le_bits(
        abs_bits(sub_bits(s.x3, s.x0)),
        mul_bits(tol, add_bits(abs_bits(s.x1), abs_bits(s.x2))),
    ) {
    } else if lt_bits(s.f2, s.f1) {
        let x2n = add_bits(mul_bits(GR_BITS, s.x2), mul_bits(GC_BITS, s.x3));
        let f2n = o.eval_spec(x2n);
        lemma_golden_loop_calls(
            o,
            (GoldenState {
                x0: s.x1,
                x1: s.x2,
                x2: x2n,
                x3: s.x3,
                f1: s.f2,
                f2: f2n,
                fun_calls: s.fun_calls + 1,
                nit: s.nit + 1,
            }),
            tol,
            maxiter,
        );
    } else {
        let x1n = add_bits(mul_bits(GR_BITS, s.x1), mul_bits(GC_BITS, s.x0));
        let f1n = o.eval_spec(x1n);
        lemma_golden_loop_calls(
            o,
            (GoldenState {
                x0: s.x0,
                x1: x1n,
                x2: s.x1,
                x3: s.x2,
                f1: f1n,
                f2: s.f1,
                fun_calls: s.fun_calls + 1,
                nit: s.nit + 1,
            }),
            tol,
            maxiter,
        );
    }
}


/// From any loop state whose interior values are the objective at the
/// interior points, a converged golden search reports the objective's value
/// at the minimiser it returns.
pub proof fn lemma_golden_loop_fun_at_x<T: ScalarObjectiveFunction>(
    o: &T,
    s: GoldenState,
    tol: u64,
    maxiter: nat,
)
    requires
        s.f1 == o.eval_spec(s.x1),
        s.f2 == o.eval_spec(s.x2),
    ensures
        golden_loop_spec(o, s, tol, maxiter) matches ScalarSpecOutcome::Finished { fun, x, .. }
            ==> fun == o.eval_spec(x),
    decreases maxiter - s.nit,
{
    if s.nit >= maxiter {
    } else if le_bits(
        abs_bits(sub_bits(s.x3, s.x0)),
        mul_bits(tol, add_bits(abs_bits(s.x1), abs_bits(s.x2))),
    ) {
    } else if lt_bits(s.f2, s.f1) {
        let x2n = add_bits(mul_bits(GR_BITS, s.x2), mul_bits(GC_BITS, s.x3));
        let f2n = o.eval_spec(x2n);
        lemma_golden_loop_fun_at_x(
            o,
            (GoldenState {
                x0: s.x1,
                x1: s.x2,
                x2: x2n,
                x3: s.x3,
                f1: s.f2,
                f2: f2n,
                fun_calls: s.fun_calls + 1,
                nit: s.nit + 1,
            }),
            tol,
            maxiter,
        );
    } else {
        let x1n = add_bits(mul_bits(GR_BITS, s.x1), mul_bits(GC_BITS, s.x0));
        let f1n = o.eval_spec(x1n);
        lemma_golden_loop_fun_at_x(
            o,
            (GoldenState {
                x0: s.x0,
                x1: x1n,
                x2: s.x1,
                x3: s.x2,
                f1: f1n,
                f2: s.f1,
                fun_calls: s.fun_calls + 1,
                nit: s.nit + 1,
            }),
            tol,
            maxiter,
        );
    }
}

/// The value-at-minimiser law: whenever the golden search hands back a
/// result, its `fun` is the objective's value at its `x`.
pub proof fn lemma_golden_fun_at_x<T: ScalarObjectiveFunction>(
    o: &T,
    xtol: Option<u64>,
    maxiter: nat,
)
    ensures
        golden_spec(o, xtol, maxiter) matches ScalarSpecOutcome::Finished { fun, x, .. }
            ==> fun == o.eval_spec(x),
{
    if !(xtol matches Some(t) && lt_bits(t, ZERO_BITS)) {
        let tol = match xtol {
            Some(t) => t,
            None => GOLDEN_XTOL_DEFAULT_BITS,
        };
        match bracket_default_spec(o) {
            BracketOutcome::OutOfIterations => {},
            BracketOutcome::Bracketed { xa, xb, xc, fun_calls } => {
                lemma_golden_loop_fun_at_x(o, golden_init_spec(o, xa, xb, xc, fun_calls), tol, maxiter);
            },
        }
    }
}

} // verus!
