//! The full state the program governs: the pool record, the pool's token
//! balance, and one record per user, addressed by the user's 32-byte
//! identity with create-if-absent semantics.

use vstd::prelude::*;
use crate::day::day_bucket;
use crate::handlers::claim_eligible;
use crate::handlers::claim_reward;
use crate::handlers::initialize_pool;
use crate::handlers::initialize_user_stats;
use crate::handlers::pool_after_claim;
use crate::handlers::user_after_claim;
use crate::state::AllocError;
use crate::state::ErrorCode;
use crate::state::PoolStats;
use crate::state::TransferError;
use crate::state::UserStats;
use crate::state::REWARD_UNIT;

verus! {

/// One user's record together with the identity it is addressed by.
#[derive(Clone, Copy, Debug)]
pub struct UserRecord {
    /// The user's 32-byte identity; the record's address is derived from it.
    pub user: [u8; 32],
    /// The record proper.
    pub stats: UserStats,
}

/// Sum of lifetime claim counts over a sequence of user records.
pub open spec fn total_user_claims(users: Seq<UserRecord>) -> int
    decreases users.len(),
{
    if users.len() == 0 {
        0
    } else {
        total_user_claims(users.drop_last()) + users.last().stats.total_claims
    }
}

proof fn lemma_sum_push(users: Seq<UserRecord>, rec: UserRecord)
    ensures
        total_user_claims(users.push(rec)) == total_user_claims(users) + rec.stats.total_claims,
{
    assert(users.push(rec).drop_last() =~= users);
}

proof fn lemma_sum_update(users: Seq<UserRecord>, i: int, rec: UserRecord)
    requires
        0 <= i < users.len(),
    ensures
        total_user_claims(users.update(i, rec)) == total_user_claims(users)
            - users[i].stats.total_claims + rec.stats.total_claims,
    decreases users.len(),
{
    let upd = users.update(i, rec);
    if i == users.len() - 1 {
        assert(upd.drop_last() =~= users.drop_last());
        assert(upd.last() == rec);
    } else {
        assert(upd.drop_last() =~= users.drop_last().update(i, rec));
        lemma_sum_update(users.drop_last(), i, rec);
        assert(upd.last() == users.last());
    }
}

proof fn lemma_sum_nonneg(users: Seq<UserRecord>)
    ensures
        total_user_claims(users) >= 0,
    decreases users.len(),
{
    if users.len() > 0 {
        lemma_sum_nonneg(users.drop_last());
    }
}

/// No single user has claimed more often than all users together.
pub proof fn lemma_user_claims_le_total(users: Seq<UserRecord>, i: int)
    requires
        0 <= i < users.len(),
    ensures
        users[i].stats.total_claims <= total_user_claims(users),
    decreases users.len(),
{
    if i == users.len() - 1 {
        lemma_sum_nonneg(users.drop_last());
    } else {
        lemma_user_claims_le_total(users.drop_last(), i);
        assert(users.drop_last()[i] == users[i]);
    }
}

/// Compares two 32-byte identities.
fn keys_equal(a: &[u8; 32], b: &[u8; 32]) -> (r: bool)
    ensures
        r <==> a@ == b@,
{
    let mut i: usize = 0;
    while i < 32
        invariant
            i <= 32,
            forall|j: int| 0 <= j < i ==> a@[j] == b@[j],
        decreases 32 - i,
    {
        if a[i] != b[i] {
            return false;
        }
        i = i + 1;
    }
    proof {
        assert(a@ =~= b@);
    }
    true
}

/// Everything the program owns or moves: the pool record, the pool's token
/// balance, and every user record created so far.
pub struct ProgramState {
    /// The aggregate pool record.
    pub pool: PoolStats,
    /// The pool's token balance, fed by donations and drained by claims.
    pub pool_balance: u64,
    /// All user records, one per identity.
    pub users: Vec<UserRecord>,
}

impl ProgramState {
    /// A user is known when some record carries their identity.
    pub open spec fn contains_user(self, key: Seq<u8>) -> bool {
        exists|i: int| 0 <= i < self.users@.len() && self.users@[i].user@ == key
    }

    /// Index of the record addressed by `key`; in a well-formed state there
    /// is at most one.
    pub open spec fn user_index(self, key: Seq<u8>) -> int {
        choose|i: int| 0 <= i < self.users@.len() && self.users@[i].user@ == key
    }

    /// Each identity addresses at most one record.
    pub open spec fn keys_unique(self) -> bool {
        forall|i: int, j: int|
            0 <= i < j < self.users@.len() ==> self.users@[i].user@ != self.users@[j].user@
    }

    /// Well-formedness: identities are unique, every base unit the pool ever
    /// paid is one reward unit of one counted claim, and the pool counts
    /// exactly the claims its users hold among them.
    pub open spec fn wf(self) -> bool {
        &&& self.keys_unique()
        &&& self.pool.total_rewards == REWARD_UNIT * self.pool.total_claims
        &&& self.pool.total_claims == total_user_claims(self.users@)
    }

    /// Creates the pool: the caller becomes its authority, both counters and
    /// the balance start at zero, and no user is known yet.
    pub fn initialize(authority: [u8; 32], bump: u8) -> (s: Self)
        ensures
            s.pool == (PoolStats { authority, total_rewards: 0, total_claims: 0 }),
            s.pool_balance == 0,
            s.users@.len() == 0,
            s.wf(),
    {
        ProgramState {
            pool: initialize_pool(authority, bump),
            pool_balance: 0,
            users: Vec::new(),
        }
    }

    /// Finds the record addressed by `key`, if any.
    fn find_user(&self, key: &[u8; 32]) -> (r: Option<usize>)
        ensures
            match r {
                Some(i) => i < self.users@.len() && self.users@[i as int].user@ == key@,
                None => !self.contains_user(key@),
            },
    {
        let mut i: usize = 0;
        while i < self.users.len()
            invariant
                i <= self.users@.len(),
                forall|j: int| 0 <= j < i ==> self.users@[j].user@ != key@,
            decreases self.users@.len() - i,
        {
            if keys_equal(&self.users[i].user, key) {
                return Some(i);
            }
            i = i + 1;
        }
        None
    }

    /// Creates a fresh, zeroed record for `user`, failing if one already
    /// exists for that identity; a failure changes nothing.
    pub fn init_user(&mut self, user: [u8; 32], bump: u8) -> (r: Result<(), AllocError>)
        ensures
            r is Ok <==> !old(self).contains_user(user@),
            r is Ok ==> final(self).users@ == old(self).users@.push(
                (UserRecord { user, stats: UserStats { last_claim_day: 0, total_claims: 0 } })),
            r is Err ==> final(self).users@ == old(self).users@,
            final(self).pool == old(self).pool,
            final(self).pool_balance == old(self).pool_balance,
            old(self).wf() ==> final(self).wf(),
    {
        match self.find_user(&user) {
            Some(_) => Err(AllocError::AlreadyInUse),
            None => {
                let rec = UserRecord { user, stats: initialize_user_stats(bump) };
                proof {
                    lemma_sum_push(self.users@, rec);
                }
                self.users.push(rec);
                Ok(())
            }
        }
    }

    /// Pays one reward unit from the pool to `user`, at most once per day
    /// bucket, updating the user's record and the pool's counters together;
    /// either failure changes nothing. The record for `user` must exist: the
    /// environment refuses to run a claim against an absent record.
    pub fn claim(&mut self, user: &[u8; 32], user_balance: &mut u64, now: i64) -> (r: Result<
        (),
        ErrorCode,
    >)
        requires
            old(self).wf(),
            old(self).contains_user(user@),
            old(self).pool.total_rewards + REWARD_UNIT <= u64::MAX,
            *old(user_balance) + REWARD_UNIT <= u64::MAX,
        ensures
            final(self).wf(),
            ({
                let i = old(self).user_index(user@);
                let u0 = old(self).users@[i].stats;
                &&& (r is Ok <==> claim_eligible(u0, old(self).pool_balance, now))
                &&& (r == Err::<(), ErrorCode>(ErrorCode::DailyLimitReached)
                    <==> u0.last_claim_day == day_bucket(now as int))
                &&& (r == Err::<(), ErrorCode>(ErrorCode::InsufficientPoolBalance)
                    <==> (u0.last_claim_day != day_bucket(now as int)
                        && old(self).pool_balance < REWARD_UNIT))
                &&& (r is Ok ==> final(self).users@ == old(self).users@.update(
                    i,
                    (UserRecord {
                        user: old(self).users@[i].user,
                        stats: user_after_claim(u0, now),
                    }),
                ) && final(self).pool == pool_after_claim(old(self).pool)
                    && final(self).pool_balance == old(self).pool_balance - REWARD_UNIT
                    && *final(user_balance) == *old(user_balance) + REWARD_UNIT)
                &&& (r is Err ==> final(self).users@ == old(self).users@
                    && final(self).pool == old(self).pool
                    && final(self).pool_balance == old(self).pool_balance
                    && *final(user_balance) == *old(user_balance))
            }),
    {
        let found = self.find_user(user);
        assert(found is Some);
        let idx = found.unwrap();
        proof {
            lemma_index_unique(*self, user@, idx as int);
            lemma_user_claims_le_total(self.users@, idx as int);
        }
        let mut rec = self.users[idx];
        let r = claim_reward(&mut rec.stats, &mut self.pool, &mut self.pool_balance, user_balance, now);
        match r {
            Ok(()) => {
                proof {
                    lemma_sum_update(self.users@, idx as int, rec);
                }
                self.users.set(idx, rec);
                Ok(())
            }
            Err(e) => Err(e),
        }
    }

    /// Moves `amount` from the donor's balance into the pool, donor-signed.
    /// Succeeds exactly when the donor can cover the amount and the pool's
    /// balance can take it; no record and no counter changes either way —
    /// the aggregates track claims only, by design.
    pub fn donate(&mut self, donor_balance: &mut u64, amount: u64) -> (r: Result<
        (),
        TransferError,
    >)
        ensures
            final(self).pool == old(self).pool,
            final(self).users@ == old(self).users@,
            r is Ok <==> *old(donor_balance) >= amount
                && old(self).pool_balance + amount <= u64::MAX,
            r is Ok ==> final(self).pool_balance == old(self).pool_balance + amount
                && *final(donor_balance) == *old(donor_balance) - amount,
            r == Err::<(), TransferError>(TransferError::InsufficientFunds)
                <==> *old(donor_balance) < amount,
            r == Err::<(), TransferError>(TransferError::RecipientOverflow)
                <==> (*old(donor_balance) >= amount
                    && old(self).pool_balance + amount > u64::MAX),
            r is Err ==> final(self).pool_balance == old(self).pool_balance
                && *final(donor_balance) == *old(donor_balance),
            old(self).wf() ==> final(self).wf(),
    {
        crate::handlers::donate(donor_balance, &mut self.pool_balance, amount)
    }

    /// Reads the record addressed by `user`, if one exists.
    pub fn user_stats(&self, user: &[u8; 32]) -> (r: Option<UserStats>)
        requires
            self.keys_unique(),
        ensures
            r is Some <==> self.contains_user(user@),
            r is Some ==> r == Some(self.users@[self.user_index(user@)].stats),
    {
        match self.find_user(user) {
            Some(i) => {
                proof {
                    lemma_index_unique(*self, user@, i as int);
                }
                Some(self.users[i].stats)
            }
            None => None,
        }
    }
}

/// In a state with unique identities, the index chosen for a key is the one
/// index whose record carries that key.
proof fn lemma_index_unique(s: ProgramState, key: Seq<u8>, i: int)
    requires
        s.keys_unique(),
        0 <= i < s.users@.len(),
        s.users@[i].user@ == key,
    ensures
        s.user_index(key) == i,
{
    assert(exists|j: int| 0 <= j < s.users@.len() && s.users@[j].user@ == key);
    let j = s.user_index(key);
    assert(0 <= j < s.users@.len() && s.users@[j].user@ == key);
    if i < j {
        assert(s.users@[i].user@ != s.users@[j].user@);
    } else if j < i {
        assert(s.users@[j].user@ != s.users@[i].user@);
    }
}

/// Accounting law: in every well-formed state, the rewards the pool has paid
/// are one reward unit per counted claim, and the pool's claim counter is
/// the sum of all users' lifetime claim counts.
pub proof fn lemma_pool_accounting(s: ProgramState)
    requires
        s.wf(),
    ensures
        s.pool.total_rewards == REWARD_UNIT * s.pool.total_claims,
        s.pool.total_claims == total_user_claims(s.users@),
{
}

} // verus!
