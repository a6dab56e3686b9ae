use based_smiles::day::day_of_timestamp;
use based_smiles::handlers::claim_reward;
use based_smiles::handlers::donate;
use based_smiles::handlers::initialize_pool;
use based_smiles::handlers::initialize_user_stats;
use based_smiles::handlers::transfer;
use based_smiles::state::ErrorCode;
use based_smiles::state::TransferError;
use based_smiles::state::REWARD_UNIT;

const DAY: i64 = 86400;

#[test]
fn day_bucket_truncates_toward_zero() {
    assert_eq!(day_of_timestamp(0), 0);
    assert_eq!(day_of_timestamp(1), 0);
    assert_eq!(day_of_timestamp(86399), 0);
    assert_eq!(day_of_timestamp(86400), 1);
    assert_eq!(day_of_timestamp(86401), 1);
    assert_eq!(day_of_timestamp(100 * DAY), 100);
    assert_eq!(day_of_timestamp(-1), 0);
    assert_eq!(day_of_timestamp(-86399), 0);
    assert_eq!(day_of_timestamp(-86400), -1);
    assert_eq!(day_of_timestamp(-86401), -1);
    assert_eq!(day_of_timestamp(i64::MAX), i64::MAX / 86400);
    assert_eq!(day_of_timestamp(i64::MIN), i64::MIN / 86400);
}

#[test]
fn initialize_pool_zeroes_counters() {
    let authority = [7u8; 32];
    let pool = initialize_pool(authority, 255);
    assert_eq!(pool.authority, authority);
    assert_eq!(pool.total_rewards, 0);
    assert_eq!(pool.total_claims, 0);
}

#[test]
fn initialize_user_stats_zeroes_record() {
    let user = initialize_user_stats(254);
    assert_eq!(user.last_claim_day, 0);
    assert_eq!(user.total_claims, 0);
}

#[test]
fn claim_succeeds_once_per_day_bucket() {
    let mut user = initialize_user_stats(0);
    let mut pool = initialize_pool([1u8; 32], 0);
    let mut pool_balance: u64 = 30000;
    let mut user_balance: u64 = 0;

    let first = claim_reward(&mut user, &mut pool, &mut pool_balance, &mut user_balance, 100 * DAY);
    assert_eq!(first, Ok(()));
    assert_eq!(user.last_claim_day, 100);
    assert_eq!(user.total_claims, 1);
    assert_eq!(pool.total_claims, 1);
    assert_eq!(pool.total_rewards, REWARD_UNIT);
    assert_eq!(pool_balance, 20000);
    assert_eq!(user_balance, REWARD_UNIT);

    // One second later, same bucket: rejected, nothing moves.
    let second = claim_reward(&mut user, &mut pool, &mut pool_balance, &mut user_balance, 100 * DAY + 1);
    assert_eq!(second, Err(ErrorCode::DailyLimitReached));
    assert_eq!(user.last_claim_day, 100);
    assert_eq!(user.total_claims, 1);
    assert_eq!(pool.total_claims, 1);
    assert_eq!(pool.total_rewards, REWARD_UNIT);
    assert_eq!(pool_balance, 20000);
    assert_eq!(user_balance, REWARD_UNIT);

    // The next bucket, even two seconds after the last attempt, is allowed.
    let third = claim_reward(&mut user, &mut pool, &mut pool_balance, &mut user_balance, 101 * DAY + 3);
    assert_eq!(third, Ok(()));
    assert_eq!(user.last_claim_day, 101);
    assert_eq!(user.total_claims, 2);
    assert_eq!(pool.total_claims, 2);
    assert_eq!(pool.total_rewards, 2 * REWARD_UNIT);
}

#[test]
fn claims_one_second_apart_same_bucket_rejected() {
    let mut user = initialize_user_stats(0);
    let mut pool = initialize_pool([2u8; 32], 0);
    let mut pool_balance: u64 = 100000;
    let mut user_balance: u64 = 0;

    assert_eq!(claim_reward(&mut user, &mut pool, &mut pool_balance, &mut user_balance, 5 * DAY + 17), Ok(()));
    let again = claim_reward(&mut user, &mut pool, &mut pool_balance, &mut user_balance, 5 * DAY + 18);
    assert_eq!(again, Err(ErrorCode::DailyLimitReached));
}

#[test]
fn claim_across_midnight_boundary_allowed() {
    // 23:59 of day 41, then 00:01 of day 42: two minutes apart, both succeed.
    let mut user = initialize_user_stats(0);
    let mut pool = initialize_pool([3u8; 32], 0);
    let mut pool_balance: u64 = 50000;
    let mut user_balance: u64 = 0;

    let late = 42 * DAY - 60;
    let early = 42 * DAY + 60;
    assert_eq!(claim_reward(&mut user, &mut pool, &mut pool_balance, &mut user_balance, late), Ok(()));
    assert_eq!(claim_reward(&mut user, &mut pool, &mut pool_balance, &mut user_balance, early), Ok(()));
    assert_ne!(day_of_timestamp(early), day_of_timestamp(late));
    assert_eq!(user.total_claims, 2);
}

#[test]
fn claim_fails_on_underfunded_pool_and_changes_nothing() {
    let mut user = initialize_user_stats(0);
    let mut pool = initialize_pool([4u8; 32], 0);
    let mut pool_balance: u64 = 9999;
    let mut user_balance: u64 = 123;

    let r = claim_reward(&mut user, &mut pool, &mut pool_balance, &mut user_balance, 7 * DAY);
    assert_eq!(r, Err(ErrorCode::InsufficientPoolBalance));
    assert_eq!(user.last_claim_day, 0);
    assert_eq!(user.total_claims, 0);
    assert_eq!(pool.total_claims, 0);
    assert_eq!(pool.total_rewards, 0);
    assert_eq!(pool_balance, 9999);
    assert_eq!(user_balance, 123);
}

#[test]
fn donate_moves_exactly_the_amount() {
    let mut donor_balance: u64 = 5000;
    let mut pool_balance: u64 = 1234;
    let r = donate(&mut donor_balance, &mut pool_balance, 5000);
    assert_eq!(r, Ok(()));
    assert_eq!(donor_balance, 0);
    assert_eq!(pool_balance, 6234);
}

#[test]
fn donate_zero_amount_is_accepted() {
    let mut donor_balance: u64 = 10;
    let mut pool_balance: u64 = 20;
    assert_eq!(donate(&mut donor_balance, &mut pool_balance, 0), Ok(()));
    assert_eq!(donor_balance, 10);
    assert_eq!(pool_balance, 20);
}

#[test]
fn donate_fails_without_funds() {
    let mut donor_balance: u64 = 4999;
    let mut pool_balance: u64 = 0;
    let r = donate(&mut donor_balance, &mut pool_balance, 5000);
    assert_eq!(r, Err(TransferError::InsufficientFunds));
    assert_eq!(donor_balance, 4999);
    assert_eq!(pool_balance, 0);
}

#[test]
fn transfer_rejects_recipient_overflow() {
    let mut from: u64 = 500;
    let mut to: u64 = u64::MAX - 100;
    let r = transfer(&mut from, &mut to, 500);
    assert_eq!(r, Err(TransferError::RecipientOverflow));
    assert_eq!(from, 500);
    assert_eq!(to, u64::MAX - 100);
}

#[test]
fn transfer_moves_funds_when_both_sides_allow() {
    let mut from: u64 = 800;
    let mut to: u64 = 100;
    assert_eq!(transfer(&mut from, &mut to, 300), Ok(()));
    assert_eq!(from, 500);
    assert_eq!(to, 400);
}
