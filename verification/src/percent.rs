//! Percentages of 128-bit amounts, computed without loss.

use vstd::prelude::*;

verus! {

/// `pct` percent of `value`, rounded down.
pub open spec fn percent_of(value: nat, pct: nat) -> nat {
    value * pct / 100
}

/// Splitting both factors at the hundreds leaves only one product that can
/// leave the 128-bit range.
pub proof fn lemma_percent_split(value: nat, pct: nat)
    ensures
        percent_of(value, pct) == (value / 100) * pct + (value % 100) * (pct / 100) + (value % 100)
            * (pct % 100) / 100,
{
    let a = value / 100;
    let b = value % 100;
    let c = pct / 100;
    let d = pct % 100;
    assert(value * pct == 100 * (a * pct + b * c) + b * d) by (nonlinear_arith)
        requires
            value == 100 * a + b,
            pct == 100 * c + d,
    ;
    assert(0 <= b * d) by (nonlinear_arith)
        requires
            0 <= b,
            0 <= d,
    ;
}

/// A larger amount or a larger percentage never gives a smaller share.
pub proof fn lemma_percent_monotonic(low: nat, low_pct: nat, high: nat, high_pct: nat)
    requires
        low <= high,
        low_pct <= high_pct,
    ensures
        percent_of(low, low_pct) <= percent_of(high, high_pct),
{
    assert(low * low_pct <= high * high_pct) by (nonlinear_arith)
        requires
            low <= high,
            low_pct <= high_pct,
    ;
}

/// `pct` percent of `value`, rounded down, or `None` when that does not fit
/// in 128 bits. No intermediate product is truncated.
pub fn scale_by_percent(value: u128, pct: u128) -> (r: Option<u128>)
    ensures
        r == (if percent_of(value as nat, pct as nat) <= u128::MAX {
            Some(percent_of(value as nat, pct as nat) as u128)
        } else {
            None
        }),
{
    let whole: u128 = value / 100;
    let part: u128 = value % 100;
    let pct_whole: u128 = pct / 100;
    let pct_part: u128 = pct % 100;
    proof {
        lemma_percent_split(value as nat, pct as nat);
        assert(part * pct_whole <= 99 * pct_whole) by (nonlinear_arith)
            requires
                part <= 99,
        ;
        assert(part * pct_part <= 99 * 99) by (nonlinear_arith)
            requires
                part <= 99,
                pct_part <= 99,
        ;
    }
    let minor: u128 = part * pct_whole + part * pct_part / 100;
    match whole.checked_mul(pct) {
        Some(major) => major.checked_add(minor),
        None => None,
    }
}

} // verus!
