//! The two persistent records and the program's error kinds.

use vstd::prelude::*;

verus! {

/// Base units moved by one successful claim (0.01 of a 6-decimal token).
/// The pool must hold at least this much for a claim to go through.
pub const REWARD_UNIT: u64 = 10000;

/// Length of one claim-eligibility bucket, in seconds.
pub const SECONDS_PER_DAY: i64 = 86400;

/// Aggregate record kept once per reward pool.
///
/// `total_rewards` and `total_claims` are mutated only by the claim handler,
/// which bumps them together; donations leave both untouched.
#[derive(Clone, Copy, PartialEq, Eq, Debug)]
pub struct PoolStats {
    /// Identity of the caller that initialized the pool.
    pub authority: [u8; 32],
    /// Base units paid out across all successful claims.
    pub total_rewards: u64,
    /// Number of successful claims across all users.
    pub total_claims: u64,
}

/// Per-user record, addressed by the user's 32-byte identity.
#[derive(Clone, Copy, PartialEq, Eq, Structural, Debug)]
pub struct UserStats {
    /// Day bucket of the last successful claim; 0 means "never claimed".
    pub last_claim_day: i64,
    /// Lifetime number of successful claims by this user.
    pub total_claims: u64,
}

/// The program's own failure kinds; both abort the call with no effects.
#[derive(Clone, Copy, PartialEq, Eq, Structural, Debug)]
pub enum ErrorCode {
    /// The user already claimed within the current day bucket.
    DailyLimitReached,
    /// The pool holds fewer than `REWARD_UNIT` base units.
    InsufficientPoolBalance,
}

/// Failure kind of the record-allocation collaborator: creating a record
/// that already exists is rejected before any effect.
#[derive(Clone, Copy, PartialEq, Eq, Structural, Debug)]
pub enum AllocError {
    /// A record is already allocated at the derived address.
    AlreadyInUse,
}

/// Failure kinds of the balance-transfer collaborator; both leave the
/// balances unchanged.
#[derive(Clone, Copy, PartialEq, Eq, Structural, Debug)]
pub enum TransferError {
    /// The source balance is below the requested amount.
    InsufficientFunds,
    /// The destination balance cannot take the amount without overflow.
    RecipientOverflow,
}

} // verus!
