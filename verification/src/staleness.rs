//! Staleness evaluator: elapsed whole minutes between a fetched timestamp and
//! the current time, and the strict comparison against a threshold.
//!
//! Both timestamps are epoch milliseconds interpreted as naive UTC; no
//! timezone conversion is involved.

use vstd::prelude::*;

verus! {

/// Milliseconds in one minute.
pub const MILLIS_PER_MINUTE: i64 = 60000;

/// The default staleness threshold: 3 hours and 30 minutes.
pub const DEFAULT_THRESHOLD_MINUTES: i64 = 3 * 60 + 30;

/// Elapsed whole minutes from `fetched` to `now` (both epoch milliseconds),
/// truncated toward zero: negative when `now` is before `fetched`.
pub open spec fn elapsed_minutes_spec(fetched: int, now: int) -> int {
    if now >= fetched {
        (now - fetched) / (MILLIS_PER_MINUTE as int)
    } else {
        -((fetched - now) / (MILLIS_PER_MINUTE as int))
    }
}

/// A pair is stale when strictly more than `threshold` minutes have elapsed;
/// equality is not stale.
pub open spec fn is_stale_spec(elapsed: int, threshold: int) -> bool {
    elapsed > threshold
}

/// Computes the elapsed whole minutes from `fetched` to `now`, truncated
/// toward zero, for any pair of epoch-millisecond values.
pub fn elapsed_minutes(fetched: i64, now: i64) -> (r: i64)
    ensures
        r == elapsed_minutes_spec(fetched as int, now as int),
{
    if now >= fetched {
        let d: u128 = ((now as i128) - (fetched as i128)) as u128;
        let m: u128 = d / (MILLIS_PER_MINUTE as u128);
        proof {
            assert(d == now - fetched);
            assert(m <= d) by {
                vstd::arithmetic::div_mod::lemma_div_is_ordered_by_denominator(
                    d as int,
                    1,
                    MILLIS_PER_MINUTE as int,
                );
            }
        }
        m as i64
    } else {
        let d: u128 = ((fetched as i128) - (now as i128)) as u128;
        let m: u128 = d / (MILLIS_PER_MINUTE as u128);
        proof {
            assert(d == fetched - now);
            assert(m <= d) by {
                vstd::arithmetic::div_mod::lemma_div_is_ordered_by_denominator(
                    d as int,
                    1,
                    MILLIS_PER_MINUTE as int,
                );
            }
        }
        -(m as i64)
    }
}

/// Decides staleness: strictly more than `threshold` elapsed minutes.
pub fn is_stale(elapsed: i64, threshold: i64) -> (r: bool)
    ensures
        r == is_stale_spec(elapsed as int, threshold as int),
{
    elapsed > threshold
}

/// When the current time is at or after the fetched time, the elapsed-minutes
/// value is the floor of the difference in minutes: it is the unique integer
/// `m` with `60000 * m <= now - fetched < 60000 * (m + 1)`, and the staleness
/// verdict is the strict comparison of that floor with the threshold.
pub proof fn lemma_elapsed_is_floor_of_difference(fetched: int, now: int, threshold: int)
    requires
        fetched <= now,
    ensures
        elapsed_minutes_spec(fetched, now) == (now - fetched) / (MILLIS_PER_MINUTE as int),
        (MILLIS_PER_MINUTE as int) * elapsed_minutes_spec(fetched, now) <= now - fetched,
        now - fetched < (MILLIS_PER_MINUTE as int) * (elapsed_minutes_spec(fetched, now) + 1),
        is_stale_spec(elapsed_minutes_spec(fetched, now), threshold) == (elapsed_minutes_spec(
            fetched,
            now,
        ) > threshold),
{
    let d = now - fetched;
    let k = MILLIS_PER_MINUTE as int;
    vstd::arithmetic::div_mod::lemma_fundamental_div_mod(d, k);
    vstd::arithmetic::div_mod::lemma_mod_bound(d, k);
}

/// The staleness verdict is a pure function of the fetched timestamp and the
/// current time: evaluating the same pair twice yields the same verdict.
pub proof fn lemma_verdict_is_deterministic(
    fetched1: int,
    now1: int,
    fetched2: int,
    now2: int,
    threshold: int,
)
    requires
        fetched1 == fetched2,
        now1 == now2,
    ensures
        is_stale_spec(elapsed_minutes_spec(fetched1, now1), threshold) == is_stale_spec(
            elapsed_minutes_spec(fetched2, now2),
            threshold,
        ),
{
}

} // verus!
