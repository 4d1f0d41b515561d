//! Interest accrual and the early-withdrawal penalty, in integer fixed point.
use vstd::prelude::*;
use vstd::arithmetic::div_mod::lemma_div_is_ordered;
use vstd::arithmetic::mul::{lemma_mul_inequality, lemma_mul_nonnegative};

verus! {

/// Seconds in a year, times ten to absorb the one decimal of an APY.
pub const YEAR_IN_SECONDS_SCALED: u128 = 31_536_000_000;

/// Per-mille denominator of the early-withdrawal fee.
pub const PER_MILLE: u128 = 1000;

/// `floor(apy * principal * elapsed / YEAR_IN_SECONDS_SCALED)`, exact, before narrowing.
pub open spec fn raw_interest(apy: u64, principal: u64, elapsed: u64) -> int {
    (apy as int * principal as int * elapsed as int) / (YEAR_IN_SECONDS_SCALED as int)
}

/// The interest earned, saturated at `u64::MAX`.
pub open spec fn interest(apy: u64, principal: u64, elapsed: u64) -> u64 {
    if raw_interest(apy, principal, elapsed) > u64::MAX as int {
        u64::MAX
    } else {
        raw_interest(apy, principal, elapsed) as u64
    }
}

/// `floor(fee * principal / 1000)`.
pub open spec fn penalty(fee: u64, principal: u64) -> int {
    (fee as int * principal as int) / (PER_MILLE as int)
}

/// What an early locked exit pays: the principal less the penalty, where the
/// principal covers it.
pub open spec fn early_exit_payout(fee: u64, principal: u64) -> Option<u64> {
    if penalty(fee, principal) <= principal as int {
        Some((principal as int - penalty(fee, principal)) as u64)
    } else {
        None
    }
}

proof fn lemma_u64_product_fits(a: u64, b: u64)
    ensures
        a as int * b as int <= u128::MAX as int,
{
    assert(a as int * b as int <= u64::MAX as int * u64::MAX as int) by (nonlinear_arith)
        requires
            a as int <= u64::MAX as int,
            b as int <= u64::MAX as int,
            0 <= a as int,
            0 <= b as int,
    ;
}

/// Interest on `principal` at `apy` over `elapsed` seconds, with 128-bit
/// intermediates; a quotient beyond 64 bits saturates.
pub fn compute_interest(apy: u64, principal: u64, elapsed: u64) -> (r: u64)
    ensures
        r == interest(apy, principal, elapsed),
{
    proof {
        lemma_u64_product_fits(apy, principal);
    }
    let ap: u128 = apy as u128 * principal as u128;
    if elapsed != 0 && ap > u128::MAX / (elapsed as u128) {
        proof {
            let prod = apy as int * principal as int * elapsed as int;
            assert(prod > u128::MAX as int) by (nonlinear_arith)
                requires
                    ap as int > u128::MAX as int / elapsed as int,
                    elapsed as int > 0,
                    prod == ap as int * elapsed as int,
            ;
            let bound = (u64::MAX as int + 1) * YEAR_IN_SECONDS_SCALED as int;
            assert(bound <= u128::MAX as int + 1);
            lemma_div_is_ordered(bound, prod, YEAR_IN_SECONDS_SCALED as int);
            assert(bound / (YEAR_IN_SECONDS_SCALED as int) == u64::MAX as int + 1) by (nonlinear_arith)
                requires
                    bound == (u64::MAX as int + 1) * YEAR_IN_SECONDS_SCALED as int,
            ;
        }
        return u64::MAX;
    }
    assert(ap as int * elapsed as int <= u128::MAX as int) by (nonlinear_arith)
        requires
            elapsed == 0 || ap as int <= u128::MAX as int / elapsed as int,
    ;
    let prod: u128 = ap * (elapsed as u128);
    assert(prod as int == apy as int * principal as int * elapsed as int) by (nonlinear_arith)
        requires
            prod as int == ap as int * elapsed as int,
            ap as int == apy as int * principal as int,
    ;
    let q: u128 = prod / YEAR_IN_SECONDS_SCALED;
    if q > u64::MAX as u128 {
        u64::MAX
    } else {
        q as u64
    }
}

/// The payout of an early locked exit, or `None` where the penalty exceeds the principal.
pub fn compute_early_exit_payout(fee: u64, principal: u64) -> (r: Option<u64>)
    ensures
        r == early_exit_payout(fee, principal),
{
    proof {
        lemma_u64_product_fits(fee, principal);
    }
    let charge: u128 = (fee as u128 * principal as u128) / PER_MILLE;
    if charge > principal as u128 {
        None
    } else {
        Some((principal as u128 - charge) as u64)
    }
}

/// Interest never decreases as time passes, and no time earns nothing.
pub proof fn lemma_interest_monotonic(apy: u64, principal: u64, elapsed1: u64, elapsed2: u64)
    requires
        elapsed1 <= elapsed2,
    ensures
        interest(apy, principal, elapsed1) <= interest(apy, principal, elapsed2),
        interest(apy, principal, 0) == 0,
{
    let ap = apy as int * principal as int;
    lemma_mul_nonnegative(apy as int, principal as int);
    lemma_mul_inequality(elapsed1 as int, elapsed2 as int, ap);
    assert(ap * elapsed1 as int == apy as int * principal as int * elapsed1 as int);
    assert(ap * elapsed2 as int == apy as int * principal as int * elapsed2 as int);
    assert(elapsed1 as int * ap == ap * elapsed1 as int) by (nonlinear_arith);
    assert(elapsed2 as int * ap == ap * elapsed2 as int) by (nonlinear_arith);
    lemma_div_is_ordered(
        apy as int * principal as int * elapsed1 as int,
        apy as int * principal as int * elapsed2 as int,
        YEAR_IN_SECONDS_SCALED as int,
    );
    assert(apy as int * principal as int * 0int == 0) by (nonlinear_arith);
}

} // verus!
