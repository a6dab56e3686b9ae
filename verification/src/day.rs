//! Day buckets: epoch seconds divided by 86400, truncated toward zero.

use vstd::prelude::*;
use crate::state::SECONDS_PER_DAY;

verus! {

/// The day bucket of an epoch timestamp: `now / 86400` with the quotient
/// truncated toward zero, as machine division of signed integers does.
/// Claim eligibility is measured in these buckets, not calendar days.
pub open spec fn day_bucket(now: int) -> int {
    if now >= 0 {
        now / (SECONDS_PER_DAY as int)
    } else {
        -((-now) / (SECONDS_PER_DAY as int))
    }
}

/// The day bucket never lies farther from zero than the timestamp itself,
/// and sits on the same side of zero.
pub proof fn lemma_day_bucket_bounds(now: int)
    ensures
        now >= 0 ==> 0 <= day_bucket(now) <= now,
        now < 0 ==> now <= day_bucket(now) <= 0,
{
    if now >= 0 {
        vstd::arithmetic::div_mod::lemma_div_is_ordered_by_denominator(
            now, 1, SECONDS_PER_DAY as int);
        vstd::arithmetic::div_mod::lemma_div_pos_is_pos(now, SECONDS_PER_DAY as int);
    } else {
        vstd::arithmetic::div_mod::lemma_div_is_ordered_by_denominator(
            -now, 1, SECONDS_PER_DAY as int);
        vstd::arithmetic::div_mod::lemma_div_pos_is_pos(-now, SECONDS_PER_DAY as int);
    }
}

/// Day buckets are monotone in the timestamp: time moving forward never
/// moves the bucket back.
pub proof fn lemma_day_bucket_monotone(now1: int, now2: int)
    requires
        now1 <= now2,
    ensures
        day_bucket(now1) <= day_bucket(now2),
{
    let d = SECONDS_PER_DAY as int;
    if now1 >= 0 {
        vstd::arithmetic::div_mod::lemma_div_is_ordered(now1, now2, d);
    } else if now2 < 0 {
        vstd::arithmetic::div_mod::lemma_div_is_ordered(-now2, -now1, d);
    } else {
        vstd::arithmetic::div_mod::lemma_div_pos_is_pos(-now1, d);
        vstd::arithmetic::div_mod::lemma_div_pos_is_pos(now2, d);
    }
}

/// Computes the day bucket of `now`.
pub fn day_of_timestamp(now: i64) -> (d: i64)
    ensures
        d == day_bucket(now as int),
{
    if now >= 0 {
        let q: u64 = (now as u64) / (SECONDS_PER_DAY as u64);
        assert(q <= now as u64) by {
            vstd::arithmetic::div_mod::lemma_div_is_ordered_by_denominator(
                now as int, 1, SECONDS_PER_DAY as int);
        };
        q as i64
    } else {
        // Magnitude of `now`, computed without negating i64::MIN.
        let m: u64 = ((-(now + 1)) as u64) + 1;
        assert(m == -(now as int));
        let q: u64 = m / (SECONDS_PER_DAY as u64);
        assert(q <= m) by {
            vstd::arithmetic::div_mod::lemma_div_is_ordered_by_denominator(
                m as int, 1, SECONDS_PER_DAY as int);
        };
        -(q as i64)
    }
}

} // verus!
