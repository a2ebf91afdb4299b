//! The retry/backoff policy: an exponentially growing, capped delay between
//! successive attempts of the same job, and the rule that retried work is
//! demoted below fresh submissions.

use vstd::prelude::*;

verus! {

/// Retried work re-enters the queue at the lowest level, below fresh
/// submissions.
pub const RETRY_QUEUE_LEVEL: usize = 0;

/// The backoff delay stops growing past this attempt count: 2^6 = 64 s.
pub const MAX_BACKOFF_EXPONENT: u32 = 6;

/// Two to the given power.
pub open spec fn spec_pow2(n: nat) -> nat
    decreases n,
{
    if n == 0 {
        1
    } else {
        2 * spec_pow2((n - 1) as nat)
    }
}

/// The delay before re-enqueueing a job that has already been tried
/// `retry_count` times: `min(2^retry_count, 64)` seconds.
pub open spec fn spec_backoff_delay_seconds(retry_count: u32) -> nat {
    if retry_count >= MAX_BACKOFF_EXPONENT {
        64
    } else {
        spec_pow2(retry_count as nat)
    }
}

/// Computes the capped exponential backoff delay, in seconds.
pub fn backoff_delay_seconds(retry_count: u32) -> (r: u64)
    ensures
        r == spec_backoff_delay_seconds(retry_count),
        1 <= r <= 64,
{
    proof {
        reveal_with_fuel(spec_pow2, 7);
    }
    let e = if retry_count > MAX_BACKOFF_EXPONENT {
        MAX_BACKOFF_EXPONENT
    } else {
        retry_count
    };
    if e == 0 {
        1
    } else if e == 1 {
        2
    } else if e == 2 {
        4
    } else if e == 3 {
        8
    } else if e == 4 {
        16
    } else if e == 5 {
        32
    } else {
        64
    }
}

/// The backoff delay never exceeds the cap, and it doubles from one attempt
/// to the next until the cap is reached.
pub proof fn lemma_backoff_capped_and_monotone(rc: u32)
    ensures
        spec_backoff_delay_seconds(rc) <= 64,
        rc < u32::MAX ==> spec_backoff_delay_seconds((rc + 1) as u32) == if spec_backoff_delay_seconds(rc)
            < 64 {
            2 * spec_backoff_delay_seconds(rc)
        } else {
            64nat
        },
{
    reveal_with_fuel(spec_pow2, 8);
    if rc < MAX_BACKOFF_EXPONENT {
        lemma_pow2_bounds(rc as nat);
    }
}

proof fn lemma_pow2_bounds(n: nat)
    requires
        n < 6,
    ensures
        spec_pow2(n) < 64,
        spec_pow2(n) >= 1,
    decreases n,
{
    reveal_with_fuel(spec_pow2, 8);
    if n > 0 {
        lemma_pow2_bounds((n - 1) as nat);
    }
}

} // verus!
