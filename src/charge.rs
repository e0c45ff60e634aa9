use vstd::prelude::*;

use crate::types::{UsageBreakdown, UsageMeterRates};

verus! {

/// Seconds in one day: the length of a daily-cap bucket.
pub const SECONDS_PER_DAY: u64 = 86_400;

/// The exact charge for `usage` under `rates`: the sum over the four
/// dimensions of rate times amount.
pub open spec fn charge_of(rates: UsageMeterRates, usage: UsageBreakdown) -> int {
    rates.llm_in * usage.llm_in + rates.llm_out * usage.llm_out + rates.http_calls
        * usage.http_calls + rates.runtime_ms * usage.runtime_ms
}

proof fn lemma_mul_non_negative(a: int, b: int)
    requires
        0 <= a,
        0 <= b,
    ensures
        0 <= a * b,
{
    assert(0 <= a * b) by (nonlinear_arith)
        requires
            0 <= a,
            0 <= b,
    ;
}

/// A charge on non-negative rates and amounts is non-negative.
pub proof fn lemma_charge_non_negative(rates: UsageMeterRates, usage: UsageBreakdown)
    requires
        rates.is_non_negative(),
        usage.is_non_negative(),
    ensures
        charge_of(rates, usage) >= 0,
{
    lemma_mul_non_negative(rates.llm_in as int, usage.llm_in as int);
    lemma_mul_non_negative(rates.llm_out as int, usage.llm_out as int);
    lemma_mul_non_negative(rates.http_calls as int, usage.http_calls as int);
    lemma_mul_non_negative(rates.runtime_ms as int, usage.runtime_ms as int);
}

/// Prices `usage` under `rates`, with every product and partial sum checked.
/// The result, when there is one, is the exact charge; on non-negative
/// inputs there is one exactly when that charge fits in an `i128`.
pub fn compute_charge(rates: &UsageMeterRates, usage: &UsageBreakdown) -> (r: Option<i128>)
    ensures
        r is Some ==> r.unwrap() == charge_of(*rates, *usage),
        rates.is_non_negative() && usage.is_non_negative() ==> (r is Some <==> charge_of(
            *rates,
            *usage,
        ) <= i128::MAX),
        rates.is_non_negative() && usage.is_non_negative() ==> charge_of(*rates, *usage) >= 0,
{
    let ghost nn = rates.is_non_negative() && usage.is_non_negative();
    proof {
        if nn {
            lemma_mul_non_negative(rates.llm_in as int, usage.llm_in as int);
            lemma_mul_non_negative(rates.llm_out as int, usage.llm_out as int);
            lemma_mul_non_negative(rates.http_calls as int, usage.http_calls as int);
            lemma_mul_non_negative(rates.runtime_ms as int, usage.runtime_ms as int);
        }
    }
    let total: i128 = 0;
    let in_cost = match rates.llm_in.checked_mul(usage.llm_in) {
        Some(p) => p,
        None => return None,
    };
    let total = match total.checked_add(in_cost) {
        Some(t) => t,
        None => return None,
    };
    let out_cost = match rates.llm_out.checked_mul(usage.llm_out) {
        Some(p) => p,
        None => return None,
    };
    let total = match total.checked_add(out_cost) {
        Some(t) => t,
        None => return None,
    };
    let http_cost = match rates.http_calls.checked_mul(usage.http_calls) {
        Some(p) => p,
        None => return None,
    };
    let total = match total.checked_add(http_cost) {
        Some(t) => t,
        None => return None,
    };
    let runtime_cost = match rates.runtime_ms.checked_mul(usage.runtime_ms) {
        Some(p) => p,
        None => return None,
    };
    let total = match total.checked_add(runtime_cost) {
        Some(t) => t,
        None => return None,
    };
    Some(total)
}

/// True when every amount of `usage` is non-negative.
pub fn validate_non_negative_usage(usage: &UsageBreakdown) -> (r: bool)
    ensures
        r == usage.is_non_negative(),
{
    usage.llm_in >= 0 && usage.llm_out >= 0 && usage.http_calls >= 0 && usage.runtime_ms >= 0
}

/// Index of the day that contains the ledger time `timestamp` (in seconds).
pub open spec fn day_of(timestamp: u64) -> u64 {
    (timestamp / SECONDS_PER_DAY) as u64
}

/// The day index of a ledger timestamp: whole days since the epoch.
pub fn current_day(timestamp: u64) -> (r: u64)
    ensures
        r == day_of(timestamp),
{
    timestamp / SECONDS_PER_DAY
}

} // verus!
