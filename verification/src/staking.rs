//! Staking accounting: a pool's aggregate balance, each participant's
//! position, tiered lockups, time-proportional rewards and the penalty for
//! leaving early.
//!
//! Every operation here decides and computes; it moves no tokens. Where a
//! transition calls for a token transfer, the operation returns the request
//! for it, and the caller must have the transfer carried out for the
//! transition to stand: if the transfer fails, the caller discards the
//! updated records.

use vstd::prelude::*;
use anchor_lang::prelude::Pubkey;
use crate::arith::{checked_add, checked_mul_div, checked_sub, scaled};
use crate::clock::{SECONDS_PER_YEAR, days_after, deadline_after, elapsed, elapsed_between};

verus! {

/// Share of an early withdrawal that is withheld, in percent.
pub const EARLY_UNSTAKE_PENALTY_PERCENT: u64 = 2;

/// Why a staking operation was refused. A refused operation changes nothing.
#[derive(Clone, Copy, Debug, PartialEq, Eq, Structural)]
pub enum ErrorCode {
    /// The pool is paused.
    PoolPaused,
    /// The amount is zero.
    InvalidAmount,
    /// The position holds less than the amount asked for.
    InsufficientStake,
    /// The lockup is not one of the three tiers.
    InvalidLockupPeriod,
    /// A balance, a product or a time would exceed what its type can hold.
    ArithmeticOverflow,
    /// A balance would fall below zero.
    ArithmeticUnderflow,
}

/// A token movement that an accepted operation calls for. The operation has
/// already booked it; the caller has it carried out.
#[derive(Clone, Copy, Debug, PartialEq, Eq, Structural)]
pub enum TransferRequest {
    /// From the staker's token account into the pool's vault, authorized by
    /// the staker.
    Deposit { amount: u64 },
    /// From the pool's vault to the staker's token account, signed by the
    /// authority that is derived from the pool and `pool_nonce`.
    Payout { amount: u64, pool_nonce: u8 },
}

/// One pool per token and vault.
#[derive(Clone, Copy, Debug, PartialEq, Eq)]
pub struct StakingPool {
    pub authority: Pubkey,
    pub token_mint: Pubkey,
    pub vault: Pubkey,
    pub reward_rate: u64,
    /// Seed from which the vault's signing authority is derived.
    pub pool_nonce: u8,
    /// Sum of the amounts of all positions in this pool.
    pub total_staked: u64,
    pub paused: bool,
}

/// One participant's position in one pool. A position is never deleted; it
/// may stand at amount zero.
#[derive(Clone, Copy, Debug, PartialEq, Eq)]
pub struct UserStake {
    pub authority: Pubkey,
    pub amount: u64,
    /// When rewards were last settled.
    pub last_update_time: i64,
    /// Withdrawals before this instant pay the early penalty.
    pub lockup_end_time: i64,
    pub lockup_days: u16,
}

/// The lockup tiers: flexible, thirty days, ninety days.
pub open spec fn is_lockup_tier(lockup_days: u16) -> bool {
    lockup_days == 0 || lockup_days == 30 || lockup_days == 90
}

/// Annual reward rate of a tier, in percent. Anything that is not the
/// thirty- or ninety-day tier earns the flexible rate.
pub open spec fn tier_apr(lockup_days: u16) -> u64 {
    if lockup_days == 30 {
        12
    } else if lockup_days == 90 {
        20
    } else {
        6
    }
}

/// A year's reward on `amount` at the rate of its tier, rounded down.
pub open spec fn annual_reward(amount: u64, lockup_days: u16) -> int {
    scaled(amount, tier_apr(lockup_days), 100)
}

/// The reward that `amount` earns in `secs` seconds: the annual reward in
/// proportion to the part of a year of 365 days that has passed, rounded
/// down. Short intervals and small positions round down to nothing.
pub open spec fn accrued_reward(amount: u64, lockup_days: u16, secs: int) -> int {
    (annual_reward(amount, lockup_days) * secs) / (SECONDS_PER_YEAR as int)
}

/// Whether both products of the reward formula fit in a `u64`.
pub open spec fn reward_fits(amount: u64, lockup_days: u16, secs: int) -> bool {
    &&& amount * tier_apr(lockup_days) <= u64::MAX
    &&& annual_reward(amount, lockup_days) * secs <= u64::MAX
}

/// The reward due on `amount` for the time from `last_update_time` to `now`:
/// nothing when no time has passed, `ArithmeticOverflow` when a product of
/// the formula does not fit, and else [`accrued_reward`].
pub open spec fn reward_result(
    amount: u64,
    last_update_time: i64,
    now: i64,
    lockup_days: u16,
) -> Result<u64, ErrorCode> {
    let secs = elapsed(last_update_time, now);
    if secs == 0 {
        Ok(0)
    } else if !reward_fits(amount, lockup_days, secs) {
        Err(ErrorCode::ArithmeticOverflow)
    } else {
        Ok(accrued_reward(amount, lockup_days, secs) as u64)
    }
}

/// What is withheld when `amount` leaves `stake` at `now`: two percent,
/// rounded down, before the lockup has run out, and nothing from then on.
pub open spec fn penalty_due(stake: UserStake, amount: u64, now: i64) -> int {
    if now < stake.lockup_end_time {
        scaled(amount, EARLY_UNSTAKE_PENALTY_PERCENT, 100)
    } else {
        0
    }
}

/// Whether a penalty is due whose percentage cannot be taken, because the
/// product of amount and percentage does not fit in a `u64`.
pub open spec fn penalty_overflows(stake: UserStake, amount: u64, now: i64) -> bool {
    now < stake.lockup_end_time && amount * EARLY_UNSTAKE_PENALTY_PERCENT > u64::MAX
}

/// The transition that a withdrawal of `amount` at `now` makes: the pool and
/// the position after it and the payout to make, or the reason for refusing
/// it.
pub open spec fn unstake_result(
    pool: StakingPool,
    stake: UserStake,
    amount: u64,
    now: i64,
) -> Result<(StakingPool, UserStake, TransferRequest), ErrorCode> {
    if pool.paused {
        Err(ErrorCode::PoolPaused)
    } else if amount == 0 {
        Err(ErrorCode::InvalidAmount)
    } else if stake.amount < amount {
        Err(ErrorCode::InsufficientStake)
    } else if penalty_overflows(stake, amount, now) {
        Err(ErrorCode::ArithmeticOverflow)
    } else if pool.total_staked < amount {
        Err(ErrorCode::ArithmeticUnderflow)
    } else {
        Ok(
            (
                StakingPool { total_staked: (pool.total_staked - amount) as u64, ..pool },
                UserStake {
                    amount: (stake.amount - amount) as u64,
                    last_update_time: now,
                    ..stake
                },
                TransferRequest::Payout {
                    amount: (amount - penalty_due(stake, amount, now)) as u64,
                    pool_nonce: pool.pool_nonce,
                },
            ),
        )
    }
}

/// Computes [`penalty_due`], or `ArithmeticOverflow` when
/// [`penalty_overflows`]. The penalty never exceeds the amount.
pub fn unstake_penalty(stake: &UserStake, amount: u64, now: i64) -> (r: Result<u64, ErrorCode>)
    ensures
        penalty_overflows(*stake, amount, now) ==> r == Err::<u64, ErrorCode>(
            ErrorCode::ArithmeticOverflow,
        ),
        !penalty_overflows(*stake, amount, now) ==> r == Ok::<u64, ErrorCode>(
            penalty_due(*stake, amount, now) as u64,
        ) && penalty_due(*stake, amount, now) <= amount,
{
    if now < stake.lockup_end_time {
        match checked_mul_div(amount, EARLY_UNSTAKE_PENALTY_PERCENT, 100) {
            Ok(penalty) => Ok(penalty),
            Err(_) => Err(ErrorCode::ArithmeticOverflow),
        }
    } else {
        Ok(0)
    }
}

/// Withdraws `amount` from a position at time `now`.
///
/// Refused with `PoolPaused` on a paused pool, else with `InvalidAmount` for
/// a zero amount, else with `InsufficientStake` when the position holds less.
/// On success the position and the pool's total both go down by the full
/// amount, rewards count as settled at `now`, and the result is the payout
/// that the vault makes: the amount less the early penalty. The penalty
/// stays in the vault and is credited to nobody.
pub fn unstake_tokens(
    pool: &mut StakingPool,
    user_stake: &mut UserStake,
    amount: u64,
    now: i64,
) -> (res: Result<TransferRequest, ErrorCode>)
    ensures
        match unstake_result(*old(pool), *old(user_stake), amount, now) {
            Ok((pool_after, stake_after, payout)) => res == Ok::<TransferRequest, ErrorCode>(
                payout,
            ) && *final(pool) == pool_after && *final(user_stake) == stake_after,
            Err(e) => res == Err::<TransferRequest, ErrorCode>(e) && *final(pool) == *old(pool)
                && *final(user_stake) == *old(user_stake),
        },
{
    if pool.paused {
        return Err(ErrorCode::PoolPaused);
    }
    if amount == 0 {
        return Err(ErrorCode::InvalidAmount);
    }
    if user_stake.amount < amount {
        return Err(ErrorCode::InsufficientStake);
    }
    let penalty: u64 = match unstake_penalty(user_stake, amount, now) {
        Ok(p) => p,
        Err(e) => { return Err(e); },
    };
    let payout: u64 = amount - penalty;
    let remaining: u64 = user_stake.amount - amount;
    let total: u64 = match checked_sub(pool.total_staked, amount) {
        Ok(t) => t,
        Err(_) => { return Err(ErrorCode::ArithmeticUnderflow); },
    };
    user_stake.amount = remaining;
    user_stake.last_update_time = now;
    pool.total_staked = total;
    Ok(TransferRequest::Payout { amount: payout, pool_nonce: pool.pool_nonce })
}

/// Computes [`tier_apr`].
pub fn lookup_apr(lockup_days: u16) -> (apr: u64)
    ensures
        apr == tier_apr(lockup_days),
{
    if lockup_days == 30 {
        12
    } else if lockup_days == 90 {
        20
    } else {
        6
    }
}

/// The reward due on `staked_amount` for the time from `last_update_time` to
/// `current_time`, at the rate of the tier `lockup_days`.
///
/// The pool's `base_rate` does not enter the formula: the tier alone sets
/// the rate. The result depends on the other four arguments only, and is the
/// same on every call.
pub fn calculate_rewards(
    staked_amount: u64,
    last_update_time: i64,
    current_time: i64,
    base_rate: u64,
    lockup_days: u16,
) -> (r: Result<u64, ErrorCode>)
    ensures
        r == reward_result(staked_amount, last_update_time, current_time, lockup_days),
{
    let secs: u64 = elapsed_between(last_update_time, current_time);
    if secs == 0 {
        return Ok(0);
    }
    let annual: u64 = match checked_mul_div(staked_amount, lookup_apr(lockup_days), 100) {
        Ok(a) => a,
        Err(_) => { return Err(ErrorCode::ArithmeticOverflow); },
    };
    match checked_mul_div(annual, secs, SECONDS_PER_YEAR) {
        Ok(reward) => Ok(reward),
        Err(_) => Err(ErrorCode::ArithmeticOverflow),
    }
}

/// The transition that a claim at `now` makes: the position after it and
/// the payout of the reward, or the reason for refusing it. A reward of zero
/// calls for no payout and leaves the position as it was.
pub open spec fn claim_result(pool: StakingPool, stake: UserStake, now: i64) -> Result<
    (UserStake, Option<TransferRequest>),
    ErrorCode,
> {
    match reward_result(stake.amount, stake.last_update_time, now, stake.lockup_days) {
        Ok(reward) => if reward > 0 {
            Ok(
                (
                    UserStake { last_update_time: now, ..stake },
                    Some(TransferRequest::Payout { amount: reward, pool_nonce: pool.pool_nonce }),
                ),
            )
        } else {
            Ok((stake, None))
        },
        Err(e) => Err(e),
    }
}

/// Settles the rewards of a position at time `now`.
///
/// When the reward is positive, the result is the payout of it and rewards
/// count as settled at `now`. When it is zero, nothing is paid and the
/// position keeps its settlement time, so that a claim before any reward has
/// accrued is a no-op and no error. Pausing a pool gates deposits and
/// withdrawals; rewards can still be claimed.
pub fn claim_rewards(pool: &StakingPool, user_stake: &mut UserStake, now: i64) -> (res: Result<
    Option<TransferRequest>,
    ErrorCode,
>)
    ensures
        match claim_result(*pool, *old(user_stake), now) {
            Ok((stake_after, payout)) => res == Ok::<Option<TransferRequest>, ErrorCode>(payout)
                && *final(user_stake) == stake_after,
            Err(e) => res == Err::<Option<TransferRequest>, ErrorCode>(e) && *final(user_stake)
                == *old(user_stake),
        },
{
    let reward: u64 = match calculate_rewards(
        user_stake.amount,
        user_stake.last_update_time,
        now,
        pool.reward_rate,
        user_stake.lockup_days,
    ) {
        Ok(r) => r,
        Err(e) => { return Err(e); },
    };
    if reward > 0 {
        user_stake.last_update_time = now;
        Ok(Some(TransferRequest::Payout { amount: reward, pool_nonce: pool.pool_nonce }))
    } else {
        Ok(None)
    }
}

/// The transition that a deposit of `amount` at `now` makes: the pool and
/// the position after it and the deposit to make, or the reason for refusing
/// it.
pub open spec fn stake_result(
    pool: StakingPool,
    stake: UserStake,
    user_authority: Pubkey,
    amount: u64,
    lockup_days: u16,
    now: i64,
) -> Result<(StakingPool, UserStake, TransferRequest), ErrorCode> {
    if pool.paused {
        Err(ErrorCode::PoolPaused)
    } else if amount == 0 {
        Err(ErrorCode::InvalidAmount)
    } else if !is_lockup_tier(lockup_days) {
        Err(ErrorCode::InvalidLockupPeriod)
    } else if stake.amount + amount > u64::MAX || days_after(now, lockup_days) > i64::MAX
        || pool.total_staked + amount > u64::MAX {
        Err(ErrorCode::ArithmeticOverflow)
    } else {
        Ok(
            (
                StakingPool { total_staked: (pool.total_staked + amount) as u64, ..pool },
                UserStake {
                    authority: user_authority,
                    amount: (stake.amount + amount) as u64,
                    last_update_time: now,
                    lockup_end_time: days_after(now, lockup_days) as i64,
                    lockup_days,
                },
                TransferRequest::Deposit { amount },
            ),
        )
    }
}

/// Deposits `amount` into a position at time `now`, under the tier
/// `lockup_days`.
///
/// Refused with `PoolPaused` on a paused pool, else with `InvalidAmount` for
/// a zero amount, else with `InvalidLockupPeriod` for a lockup that is none
/// of the tiers. On success the position and the pool's total both go up by
/// the amount, rewards count as settled at `now`, and the lockup starts anew
/// under the tier given, also for a position whose earlier lockup had run
/// out. The result is the deposit that the staker makes into the vault.
pub fn stake_tokens(
    pool: &mut StakingPool,
    user_stake: &mut UserStake,
    user_authority: Pubkey,
    amount: u64,
    lockup_days: u16,
    now: i64,
) -> (res: Result<TransferRequest, ErrorCode>)
    ensures
        match stake_result(*old(pool), *old(user_stake), user_authority, amount, lockup_days, now) {
            Ok((pool_after, stake_after, deposit)) => res == Ok::<TransferRequest, ErrorCode>(
                deposit,
            ) && *final(pool) == pool_after && *final(user_stake) == stake_after,
            Err(e) => res == Err::<TransferRequest, ErrorCode>(e) && *final(pool) == *old(pool)
                && *final(user_stake) == *old(user_stake),
        },
{
    if pool.paused {
        return Err(ErrorCode::PoolPaused);
    }
    if amount == 0 {
        return Err(ErrorCode::InvalidAmount);
    }
    if !(lockup_days == 0 || lockup_days == 30 || lockup_days == 90) {
        return Err(ErrorCode::InvalidLockupPeriod);
    }
    let staked: u64 = match checked_add(user_stake.amount, amount) {
        Ok(v) => v,
        Err(_) => { return Err(ErrorCode::ArithmeticOverflow); },
    };
    let lockup_end: i64 = match deadline_after(now, lockup_days) {
        Ok(t) => t,
        Err(_) => { return Err(ErrorCode::ArithmeticOverflow); },
    };
    let total: u64 = match checked_add(pool.total_staked, amount) {
        Ok(v) => v,
        Err(_) => { return Err(ErrorCode::ArithmeticOverflow); },
    };
    user_stake.authority = user_authority;
    user_stake.amount = staked;
    user_stake.last_update_time = now;
    user_stake.lockup_end_time = lockup_end;
    user_stake.lockup_days = lockup_days;
    pool.total_staked = total;
    Ok(TransferRequest::Deposit { amount })
}

/// A new pool: nothing staked, not paused.
pub fn initialize_staking_pool(
    authority: Pubkey,
    token_mint: Pubkey,
    vault: Pubkey,
    pool_nonce: u8,
    reward_rate: u64,
) -> (pool: StakingPool)
    ensures
        pool == (StakingPool {
            authority,
            token_mint,
            vault,
            reward_rate,
            pool_nonce,
            total_staked: 0,
            paused: false,
        }),
{
    StakingPool {
        authority,
        token_mint,
        vault,
        reward_rate,
        pool_nonce,
        total_staked: 0,
        paused: false,
    }
}

/// An accepted deposit books the full amount on both sides: the position
/// and the pool's total go up by it, and it is the amount of the deposit
/// asked for. The difference between total and position stays as it was.
pub proof fn lemma_stake_books_full_amount(
    pool: StakingPool,
    stake: UserStake,
    user_authority: Pubkey,
    amount: u64,
    lockup_days: u16,
    now: i64,
)
    requires
        stake_result(pool, stake, user_authority, amount, lockup_days, now) is Ok,
    ensures
        ({
            let (pool_after, stake_after, deposit) = stake_result(
                pool,
                stake,
                user_authority,
                amount,
                lockup_days,
                now,
            )->Ok_0;
            &&& stake_after.amount == stake.amount + amount
            &&& pool_after.total_staked == pool.total_staked + amount
            &&& deposit == TransferRequest::Deposit { amount }
            &&& is_lockup_tier(stake_after.lockup_days)
            &&& stake_after.lockup_end_time == stake_after.last_update_time + stake_after.lockup_days
                * 86_400
        }),
{
}

/// An accepted withdrawal books the full amount on both sides, whatever is
/// withheld: the position and the pool's total go down by it, while the
/// payout is the amount less the penalty. The penalty is never more than
/// two percent of the amount, and the payout is never zero.
pub proof fn lemma_unstake_books_full_amount(
    pool: StakingPool,
    stake: UserStake,
    amount: u64,
    now: i64,
)
    requires
        unstake_result(pool, stake, amount, now) is Ok,
    ensures
        ({
            let (pool_after, stake_after, payout) = unstake_result(pool, stake, amount, now)->Ok_0;
            let penalty = penalty_due(stake, amount, now);
            &&& stake_after.amount == stake.amount - amount
            &&& pool_after.total_staked == pool.total_staked - amount
            &&& payout == TransferRequest::Payout {
                amount: (amount - penalty) as u64,
                pool_nonce: pool.pool_nonce,
            }
            &&& 0 <= penalty
            &&& penalty * 100 <= amount * 2
            &&& amount - penalty > 0
        }),
{
}

} // verus!
