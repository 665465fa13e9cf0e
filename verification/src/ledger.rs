//! A pool together with all of its positions, as a mathematical value, and
//! the proof that the pool's total always equals the sum of the positions.
//!
//! The records themselves are kept by whoever stores them, one position per
//! participant and pool. This module describes that store as a sequence of
//! positions and replays the staking operations on it.

use vstd::prelude::*;
use anchor_lang::prelude::Pubkey;
use crate::staking::{StakingPool, UserStake, claim_result, stake_result, unstake_result};

verus! {

/// A pool and the positions held in it.
pub struct PoolLedger {
    pub pool: StakingPool,
    pub stakes: Seq<UserStake>,
}

/// An operation on a ledger. `who` is the place of the participant's
/// position among the positions of the pool.
pub enum LedgerOp {
    /// A deposit. With `who` one past the last position, the participant's
    /// position is created empty first.
    Stake { who: int, user_authority: Pubkey, amount: u64, lockup_days: u16, now: i64 },
    /// A withdrawal.
    Unstake { who: int, amount: u64, now: i64 },
    /// A claim of rewards.
    Claim { who: int, now: i64 },
}

/// Sum of the amounts of the given positions.
pub open spec fn total_amount(stakes: Seq<UserStake>) -> int
    decreases stakes.len(),
{
    if stakes.len() == 0 {
        0
    } else {
        total_amount(stakes.drop_last()) + stakes.last().amount
    }
}

/// The position of a participant who has not staked yet.
pub open spec fn empty_position(owner: Pubkey) -> UserStake {
    UserStake {
        authority: owner,
        amount: 0,
        last_update_time: 0,
        lockup_end_time: 0,
        lockup_days: 0,
    }
}

impl PoolLedger {
    /// The pool's total equals the sum of its positions.
    pub open spec fn balanced(self) -> bool {
        self.pool.total_staked == total_amount(self.stakes)
    }

    /// The ledger after one operation. An operation that is refused, or that
    /// names a position that does not exist, leaves the ledger as it was.
    pub open spec fn apply(self, op: LedgerOp) -> PoolLedger {
        match op {
            LedgerOp::Stake { who, user_authority, amount, lockup_days, now } => {
                if 0 <= who < self.stakes.len() {
                    match stake_result(
                        self.pool,
                        self.stakes[who],
                        user_authority,
                        amount,
                        lockup_days,
                        now,
                    ) {
                        Ok((pool, stake, _)) => PoolLedger {
                            pool,
                            stakes: self.stakes.update(who, stake),
                        },
                        Err(_) => self,
                    }
                } else if who == self.stakes.len() {
                    match stake_result(
                        self.pool,
                        empty_position(user_authority),
                        user_authority,
                        amount,
                        lockup_days,
                        now,
                    ) {
                        Ok((pool, stake, _)) => PoolLedger {
                            pool,
                            stakes: self.stakes.push(stake),
                        },
                        Err(_) => self,
                    }
                } else {
                    self
                }
            },
            LedgerOp::Unstake { who, amount, now } => {
                if 0 <= who < self.stakes.len() {
                    match unstake_result(self.pool, self.stakes[who], amount, now) {
                        Ok((pool, stake, _)) => PoolLedger {
                            pool,
                            stakes: self.stakes.update(who, stake),
                        },
                        Err(_) => self,
                    }
                } else {
                    self
                }
            },
            LedgerOp::Claim { who, now } => {
                if 0 <= who < self.stakes.len() {
                    match claim_result(self.pool, self.stakes[who], now) {
                        Ok((stake, _)) => PoolLedger {
                            pool: self.pool,
                            stakes: self.stakes.update(who, stake),
                        },
                        Err(_) => self,
                    }
                } else {
                    self
                }
            },
        }
    }

    /// The ledger after the given operations, first to last.
    pub open spec fn run(self, ops: Seq<LedgerOp>) -> PoolLedger
        decreases ops.len(),
    {
        if ops.len() == 0 {
            self
        } else {
            self.run(ops.drop_last()).apply(ops.last())
        }
    }
}

/// A new position adds its amount to the sum.
proof fn lemma_total_push(stakes: Seq<UserStake>, stake: UserStake)
    ensures
        total_amount(stakes.push(stake)) == total_amount(stakes) + stake.amount,
{
    assert(stakes.push(stake).drop_last() =~= stakes);
}

/// Replacing a position changes the sum by the difference of the amounts.
proof fn lemma_total_update(stakes: Seq<UserStake>, who: int, stake: UserStake)
    requires
        0 <= who < stakes.len(),
    ensures
        total_amount(stakes.update(who, stake)) == total_amount(stakes) - stakes[who].amount
            + stake.amount,
    decreases stakes.len(),
{
    let updated = stakes.update(who, stake);
    if who == stakes.len() - 1 {
        assert(updated.drop_last() =~= stakes.drop_last());
    } else {
        assert(updated.drop_last() =~= stakes.drop_last().update(who, stake));
        lemma_total_update(stakes.drop_last(), who, stake);
    }
}

/// A pool that has just been set up, with no positions, is balanced.
pub proof fn lemma_new_pool_is_balanced(pool: StakingPool)
    requires
        pool.total_staked == 0,
    ensures
        (PoolLedger { pool, stakes: Seq::empty() }).balanced(),
{
}

/// No operation unbalances a ledger: a deposit raises, and a withdrawal
/// lowers, the pool's total and the position by the same full amount, a
/// claim touches neither, and a refused operation changes nothing.
pub proof fn lemma_apply_keeps_balance(ledger: PoolLedger, op: LedgerOp)
    requires
        ledger.balanced(),
    ensures
        ledger.apply(op).balanced(),
{
    match op {
        LedgerOp::Stake { who, user_authority, amount, lockup_days, now } => {
            if 0 <= who < ledger.stakes.len() {
                let r = stake_result(
                    ledger.pool,
                    ledger.stakes[who],
                    user_authority,
                    amount,
                    lockup_days,
                    now,
                );
                if r is Ok {
                    lemma_total_update(ledger.stakes, who, r->Ok_0.1);
                }
            } else if who == ledger.stakes.len() {
                let r = stake_result(
                    ledger.pool,
                    empty_position(user_authority),
                    user_authority,
                    amount,
                    lockup_days,
                    now,
                );
                if r is Ok {
                    lemma_total_push(ledger.stakes, r->Ok_0.1);
                }
            }
        },
        LedgerOp::Unstake { who, amount, now } => {
            if 0 <= who < ledger.stakes.len() {
                let r = unstake_result(ledger.pool, ledger.stakes[who], amount, now);
                if r is Ok {
                    lemma_total_update(ledger.stakes, who, r->Ok_0.1);
                }
            }
        },
        LedgerOp::Claim { who, now } => {
            if 0 <= who < ledger.stakes.len() {
                let r = claim_result(ledger.pool, ledger.stakes[who], now);
                if r is Ok {
                    lemma_total_update(ledger.stakes, who, r->Ok_0.0);
                }
            }
        },
    }
}

/// Conservation: starting from a balanced ledger, after every operation of
/// every sequence of deposits, withdrawals and claims the pool's total
/// equals the sum of the amounts of its positions.
pub proof fn lemma_total_is_sum_of_stakes(ledger: PoolLedger, ops: Seq<LedgerOp>)
    requires
        ledger.balanced(),
    ensures
        forall|done: int| 0 <= done <= ops.len() ==> #[trigger] ledger.run(ops.take(done)).balanced(),
    decreases ops.len(),
{
    assert forall|done: int| 0 <= done <= ops.len() implies #[trigger] ledger.run(
        ops.take(done),
    ).balanced() by {
        if done == ops.len() {
            assert(ops.take(done) =~= ops);
            if ops.len() > 0 {
                lemma_total_is_sum_of_stakes(ledger, ops.drop_last());
                assert(ops.drop_last().take(ops.len() - 1) =~= ops.drop_last());
                lemma_apply_keeps_balance(ledger.run(ops.drop_last()), ops.last());
            }
        } else {
            lemma_total_is_sum_of_stakes(ledger, ops.drop_last());
            assert(ops.drop_last().take(done) =~= ops.take(done));
        }
    }
}

} // verus!
