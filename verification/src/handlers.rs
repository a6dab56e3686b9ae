//! The four instruction handlers, as transitions on plain records and
//! balances.
//!
//! The hosting environment resolves and validates the named accounts before a
//! handler runs and commits or aborts its effects atomically; these functions
//! take the already-resolved records and token balances and perform the
//! arithmetic checks and updates the program itself is responsible for.

use vstd::prelude::*;
use crate::day::day_bucket;
use crate::day::day_of_timestamp;
use crate::state::ErrorCode;
use crate::state::PoolStats;
use crate::state::TransferError;
use crate::state::UserStats;
use crate::state::REWARD_UNIT;

verus! {

/// A claim at time `now` is eligible when the user has not claimed within the
/// current day bucket and the pool can cover one reward unit.
pub open spec fn claim_eligible(user: UserStats, pool_balance: u64, now: i64) -> bool {
    user.last_claim_day != day_bucket(now as int) && pool_balance >= REWARD_UNIT
}

/// The user record after a successful claim at time `now`.
pub open spec fn user_after_claim(user: UserStats, now: i64) -> UserStats {
    UserStats {
        last_claim_day: day_bucket(now as int) as i64,
        total_claims: (user.total_claims + 1) as u64,
    }
}

/// The pool record after one more successful claim.
pub open spec fn pool_after_claim(pool: PoolStats) -> PoolStats {
    PoolStats {
        authority: pool.authority,
        total_rewards: (pool.total_rewards + REWARD_UNIT) as u64,
        total_claims: (pool.total_claims + 1) as u64,
    }
}

/// Moves `amount` base units between two balances of the same asset.
///
/// This stands for the transfer collaborator's one operation: it succeeds
/// exactly when the source can cover the amount and the destination can take
/// it, and a failure moves nothing. Authorization (the owner's signature for
/// donations, the pool's derived authority for claims) is checked by the
/// environment before the balances are handed over.
pub fn transfer(from: &mut u64, to: &mut u64, amount: u64) -> (r: Result<(), TransferError>)
    ensures
        r is Ok <==> *old(from) >= amount && *old(to) + amount <= u64::MAX,
        r is Ok ==> *final(from) == *old(from) - amount && *final(to) == *old(to) + amount,
        r == Err::<(), TransferError>(TransferError::InsufficientFunds) <==> *old(from) < amount,
        r == Err::<(), TransferError>(TransferError::RecipientOverflow)
            <==> (*old(from) >= amount && *old(to) + amount > u64::MAX),
        r is Err ==> *final(from) == *old(from) && *final(to) == *old(to),
{
    if *from < amount {
        return Err(TransferError::InsufficientFunds);
    }
    if amount > u64::MAX - *to {
        return Err(TransferError::RecipientOverflow);
    }
    *from = *from - amount;
    *to = *to + amount;
    Ok(())
}

/// Creates the pool record: the caller becomes the authority and both
/// counters start at zero. The environment rejects a second initialization of
/// the same pool before this body runs.
pub fn initialize_pool(authority: [u8; 32], _bump: u8) -> (pool: PoolStats)
    ensures
        pool.authority == authority,
        pool.total_rewards == 0,
        pool.total_claims == 0,
{
    PoolStats { authority, total_rewards: 0, total_claims: 0 }
}

/// Creates a user record with the "never claimed" sentinel day and a zero
/// claim count. The environment rejects a second initialization for the same
/// user before this body runs.
pub fn initialize_user_stats(_bump: u8) -> (user: UserStats)
    ensures
        user.last_claim_day == 0,
        user.total_claims == 0,
{
    UserStats { last_claim_day: 0, total_claims: 0 }
}

/// Pays one reward unit from the pool to the user, at most once per day
/// bucket.
///
/// Fails with `DailyLimitReached` when the user's last claim falls in the
/// current bucket, and with `InsufficientPoolBalance` when the pool holds
/// less than one reward unit; any failure leaves every record and balance
/// unchanged. On success the reward moves to the user's balance and all three
/// counters are bumped together.
pub fn claim_reward(
    user_stats: &mut UserStats,
    pool_stats: &mut PoolStats,
    pool_balance: &mut u64,
    user_balance: &mut u64,
    now: i64,
) -> (r: Result<(), ErrorCode>)
    requires
        old(user_stats).total_claims < u64::MAX,
        old(pool_stats).total_claims < u64::MAX,
        old(pool_stats).total_rewards + REWARD_UNIT <= u64::MAX,
        old(user_balance) + REWARD_UNIT <= u64::MAX,
    ensures
        r is Ok <==> claim_eligible(*old(user_stats), *old(pool_balance), now),
        r == Err::<(), ErrorCode>(ErrorCode::DailyLimitReached)
            <==> old(user_stats).last_claim_day == day_bucket(now as int),
        r == Err::<(), ErrorCode>(ErrorCode::InsufficientPoolBalance)
            <==> (old(user_stats).last_claim_day != day_bucket(now as int)
                && old(pool_balance) < REWARD_UNIT),
        r is Ok ==> *final(user_stats) == user_after_claim(*old(user_stats), now)
            && *final(pool_stats) == pool_after_claim(*old(pool_stats))
            && *final(pool_balance) == *old(pool_balance) - REWARD_UNIT
            && *final(user_balance) == *old(user_balance) + REWARD_UNIT,
        r is Err ==> *final(user_stats) == *old(user_stats)
            && *final(pool_stats) == *old(pool_stats)
            && *final(pool_balance) == *old(pool_balance)
            && *final(user_balance) == *old(user_balance),
{
    let today: i64 = day_of_timestamp(now);

    if user_stats.last_claim_day == today {
        return Err(ErrorCode::DailyLimitReached);
    }

    if *pool_balance < REWARD_UNIT {
        return Err(ErrorCode::InsufficientPoolBalance);
    }

    // The pool's derived authority signs for this movement; both conditions
    // of the transfer were just established, so it cannot fail.
    let moved = transfer(pool_balance, user_balance, REWARD_UNIT);
    assert(moved is Ok);

    user_stats.last_claim_day = today;
    user_stats.total_claims = user_stats.total_claims + 1;
    pool_stats.total_claims = pool_stats.total_claims + 1;
    pool_stats.total_rewards = pool_stats.total_rewards + REWARD_UNIT;

    Ok(())
}

/// Moves `amount` from the donor's balance into the pool, authorized by the
/// donor's own signature. A zero amount is not rejected here; whether it goes
/// through is the transfer collaborator's own business (it does, moving
/// nothing). No pool counters change: the aggregates track claims only.
pub fn donate(
    donor_balance: &mut u64,
    pool_balance: &mut u64,
    amount: u64,
) -> (r: Result<(), TransferError>)
    ensures
        r is Ok <==> *old(donor_balance) >= amount && *old(pool_balance) + amount <= u64::MAX,
        r is Ok ==> *final(donor_balance) == *old(donor_balance) - amount
            && *final(pool_balance) == *old(pool_balance) + amount,
        r is Err ==> *final(donor_balance) == *old(donor_balance)
            && *final(pool_balance) == *old(pool_balance),
        r == Err::<(), TransferError>(TransferError::InsufficientFunds)
            <==> *old(donor_balance) < amount,
        r == Err::<(), TransferError>(TransferError::RecipientOverflow)
            <==> (*old(donor_balance) >= amount && *old(pool_balance) + amount > u64::MAX),
{
    transfer(donor_balance, pool_balance, amount)
}

/// Two successful claims by the same user always land in distinct day
/// buckets, however close together in seconds they come: the first claim
/// stamps its bucket into the record, and a second claim is eligible only
/// from a record stamped with a different bucket.
pub proof fn lemma_claims_distinct_days(
    u0: UserStats,
    pb1: u64,
    now1: i64,
    pb2: u64,
    now2: i64,
)
    requires
        claim_eligible(u0, pb1, now1),
        claim_eligible(user_after_claim(u0, now1), pb2, now2),
    ensures
        day_bucket(now2 as int) != day_bucket(now1 as int),
{
}

/// Under the environment's clock, which never runs backwards, the day
/// stamped into a user's record strictly increases from one successful
/// claim to the next.
pub proof fn lemma_last_claim_day_increases(
    u0: UserStats,
    pb1: u64,
    now1: i64,
    pb2: u64,
    now2: i64,
)
    requires
        now1 <= now2,
        claim_eligible(u0, pb1, now1),
        claim_eligible(user_after_claim(u0, now1), pb2, now2),
    ensures
        user_after_claim(user_after_claim(u0, now1), now2).last_claim_day
            > user_after_claim(u0, now1).last_claim_day,
{
    crate::day::lemma_day_bucket_bounds(now1 as int);
    crate::day::lemma_day_bucket_bounds(now2 as int);
    crate::day::lemma_day_bucket_monotone(now1 as int, now2 as int);
}

} // verus!
