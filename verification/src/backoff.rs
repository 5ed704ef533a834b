//! Backoff policy: exponential, saturating sleep computation and the
//! cap-interaction rule that decides whether reaching the ceiling stops
//! retries or merely caps the sleep.

use vstd::prelude::*;
use vstd::arithmetic::power2::{pow2, lemma_pow2_unfold, lemma_pow2_strictly_increases, lemma2_to64, lemma2_to64_rest};
use vstd::arithmetic::mul::lemma_mul_left_inequality;

use crate::classify::FailureClass;

verus! {

/// Ceiling on any single retry sleep, in seconds.
pub const MAX_RETRY_SLEEP_SECS: u64 = 60;

/// Largest exponent the backoff formula ever uses; shifting further than
/// this would overflow the sleep arithmetic long before it mattered.
pub const MAX_BACKOFF_SHIFT: u32 = 62;

/// Uncapped exponential backoff: `base_delay * 2^min(attempt, 62)`,
/// saturating at `u64::MAX` instead of wrapping.
pub open spec fn spec_backoff_secs(base_delay: u64, attempt: u32) -> u64 {
    let shift = if attempt <= MAX_BACKOFF_SHIFT { attempt as nat } else { MAX_BACKOFF_SHIFT as nat };
    let raw = (base_delay as nat) * pow2(shift);
    if raw > u64::MAX as nat {
        u64::MAX
    } else {
        raw as u64
    }
}

/// Sleep before the retry that follows failed attempt number `attempt`
/// (0-based): exponential in the attempt index, never wrapping.
pub fn compute_backoff_secs(base_delay: u64, attempt: u32) -> (r: u64)
    ensures
        r == spec_backoff_secs(base_delay, attempt),
{
    let shift: u32 = if attempt <= MAX_BACKOFF_SHIFT { attempt } else { MAX_BACKOFF_SHIFT };
    let mut exp: u64 = 1;
    let mut k: u32 = 0;
    proof {
        lemma2_to64();
    }
    while k < shift
        invariant
            k <= shift <= MAX_BACKOFF_SHIFT,
            exp == pow2(k as nat),
        decreases shift - k,
    {
        proof {
            lemma2_to64_rest();
            if (k as nat) < 62 {
                lemma_pow2_strictly_increases(k as nat, 62);
            }
            lemma_pow2_unfold((k + 1) as nat);
        }
        exp = exp * 2;
        k = k + 1;
    }
    match base_delay.checked_mul(exp) {
        Some(v) => v,
        None => u64::MAX,
    }
}

/// Law: with `base_delay >= 1`, the uncapped backoff is monotonically
/// non-decreasing in the attempt index. Together with the verified absence
/// of overflow in `compute_backoff_secs`, the sleep is defined and ordered
/// for every attempt index.
pub proof fn lemma_backoff_monotonic(base_delay: u64, i: u32, j: u32)
    requires
        base_delay >= 1,
        i <= j,
    ensures
        spec_backoff_secs(base_delay, i) <= spec_backoff_secs(base_delay, j),
{
    let si = if i <= MAX_BACKOFF_SHIFT { i as nat } else { MAX_BACKOFF_SHIFT as nat };
    let sj = if j <= MAX_BACKOFF_SHIFT { j as nat } else { MAX_BACKOFF_SHIFT as nat };
    if si < sj {
        lemma_pow2_strictly_increases(si, sj);
    }
    lemma_mul_left_inequality(base_delay as int, pow2(si) as int, pow2(sj) as int);
}

/// Decision derived after one failed, otherwise-retryable attempt.
#[derive(Clone, Copy, Debug, PartialEq, Eq, Structural)]
pub enum RetryDecision {
    /// Do not attempt again.
    Stop,
    /// Sleep this many seconds, then attempt again.
    Sleep(u64),
}

/// The cap-interaction rule, asymmetric by design: when the uncapped
/// backoff reaches the ceiling, an `HttpStatus` failure stops retries
/// outright (sustained server-side refusals are not waited out), while
/// transport and local-I/O failures keep retrying at the capped sleep.
pub open spec fn spec_cap_decision(uncapped: u64, class: FailureClass) -> RetryDecision {
    if uncapped >= MAX_RETRY_SLEEP_SECS {
        if class is HttpStatus {
            RetryDecision::Stop
        } else {
            RetryDecision::Sleep(MAX_RETRY_SLEEP_SECS)
        }
    } else {
        RetryDecision::Sleep(uncapped)
    }
}

/// Apply the cap-interaction rule to an uncapped backoff value.
pub fn cap_decision(uncapped: u64, class: FailureClass) -> (r: RetryDecision)
    ensures
        r == spec_cap_decision(uncapped, class),
{
    if uncapped >= MAX_RETRY_SLEEP_SECS {
        match class {
            FailureClass::HttpStatus(_) => RetryDecision::Stop,
            _ => RetryDecision::Sleep(MAX_RETRY_SLEEP_SECS),
        }
    } else {
        RetryDecision::Sleep(uncapped)
    }
}

} // verus!
