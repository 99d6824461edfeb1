//! Backoff between failed attempts to bring a tunnel up.

use vstd::prelude::*;

use backon::BackoffBuilder;

verus! {

/// Delay before the first retry, in milliseconds.
pub const MIN_DELAY_MS: u64 = 1000;

/// Cap on the delay between retries, in milliseconds.
pub const MAX_DELAY_MS: u64 = 20000;

/// Largest number of doublings asked of the backoff: with a minimum of at
/// least one second and a cap of at most `LARGEST_CAP_MS`, the cap is reached
/// by then.
pub const MAX_DOUBLINGS: u64 = 10;

/// Largest cap the backoff is asked for, in milliseconds.
pub const LARGEST_CAP_MS: u64 = 1_000_000;

/// The delay, before jitter, of item `k` of an exponential backoff that
/// starts at `min` and doubles after each item until it reaches `max`.
pub open spec fn exponential_delay_ms(k: nat, min: nat, max: nat) -> nat
    decreases k,
{
    if k == 0 {
        min
    } else if 2 * exponential_delay_ms((k - 1) as nat, min, max) < max {
        2 * exponential_delay_ms((k - 1) as nat, min, max)
    } else {
        max
    }
}

/// The delay, before jitter, that precedes retry number `k + 1` under this
/// library's policy: one second, doubling after each failure up to 20 s.
pub open spec fn base_delay_ms(k: nat) -> nat {
    exponential_delay_ms(k, MIN_DELAY_MS as nat, MAX_DELAY_MS as nat)
}

/// Relies on backon's `ExponentialBuilder` (jitter on, the given minimum and
/// cap, factor two, no limit on the number of attempts) and on item number
/// `attempt` of the `ExponentialBackoff` it builds: the base delay of that
/// item plus a random share, below one, of the same amount
/// (backoff/exponential.rs, `next`). The doubling is done in `f32` seconds,
/// which is exact for whole seconds below the largest cap; the bound on
/// `attempt` keeps the walk through the items short.
#[verifier::external_body]
fn jittered_delay_ms(attempt: u64, min_delay_ms: u64, max_delay_ms: u64) -> (r: u64)
    requires
        attempt <= MAX_DOUBLINGS,
        min_delay_ms % 1000 == 0,
        0 < min_delay_ms <= max_delay_ms <= LARGEST_CAP_MS,
    ensures
        exponential_delay_ms(attempt as nat, min_delay_ms as nat, max_delay_ms as nat) <= r
            <= 2 * exponential_delay_ms(attempt as nat, min_delay_ms as nat, max_delay_ms as nat),
{
    let mut backoff = backon::ExponentialBuilder::default()
        .with_jitter()
        .with_min_delay(std::time::Duration::from_millis(min_delay_ms))
        .with_max_delay(std::time::Duration::from_millis(max_delay_ms))
        .without_max_times()
        .build();
    backoff.nth(attempt as usize).unwrap_or_default().as_millis() as u64
}

/// The wait before the next connection attempt, after `failures` consecutive
/// failed attempts (counting the one that just failed).
pub fn retry_delay_ms(failures: u64) -> (r: u64)
    requires
        failures >= 1,
    ensures
        base_delay_ms((failures - 1) as nat) <= r <= 2 * base_delay_ms((failures - 1) as nat),
        MIN_DELAY_MS <= r <= 2 * MAX_DELAY_MS,
{
    let attempt = if failures - 1 < MAX_DOUBLINGS {
        failures - 1
    } else {
        MAX_DOUBLINGS
    };
    proof {
        lemma_base_delay_bounds((failures - 1) as nat);
        if failures - 1 >= MAX_DOUBLINGS {
            lemma_base_delay_capped((failures - 1) as nat);
            lemma_base_delay_capped(MAX_DOUBLINGS as nat);
        }
    }
    jittered_delay_ms(attempt, MIN_DELAY_MS, MAX_DELAY_MS)
}

/// From the sixth retry on, the base delay is the cap.
pub proof fn lemma_base_delay_capped(k: nat)
    requires
        k >= 5,
    ensures
        base_delay_ms(k) == MAX_DELAY_MS,
    decreases k,
{
    if k == 5 {
        reveal_with_fuel(exponential_delay_ms, 6);
    } else {
        lemma_base_delay_capped((k - 1) as nat);
    }
}

/// The base delay lies between the minimum and the cap.
pub proof fn lemma_base_delay_bounds(k: nat)
    ensures
        MIN_DELAY_MS <= base_delay_ms(k) <= MAX_DELAY_MS,
    decreases k,
{
    if k > 0 {
        lemma_base_delay_bounds((k - 1) as nat);
    }
}

/// The base delay never shrinks as consecutive failures accumulate, and never
/// exceeds the cap.
pub proof fn lemma_base_delay_monotone(j: nat, k: nat)
    requires
        j <= k,
    ensures
        base_delay_ms(j) <= base_delay_ms(k) <= MAX_DELAY_MS,
    decreases k - j,
{
    lemma_base_delay_bounds(k);
    if j < k {
        lemma_base_delay_monotone(j, (k - 1) as nat);
        lemma_base_delay_bounds((k - 1) as nat);
    }
}

} // verus!
