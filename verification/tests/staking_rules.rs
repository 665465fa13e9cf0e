use anchor_lang::prelude::Pubkey;
use ua_token::arith::{
    checked_add, checked_div, checked_mul, checked_mul_div, checked_sub, ArithmeticError,
};
use ua_token::clock::{deadline_after, elapsed_between, SECONDS_PER_DAY, SECONDS_PER_YEAR};
use ua_token::staking::{
    calculate_rewards, claim_rewards, initialize_staking_pool, lookup_apr, stake_tokens,
    unstake_penalty, unstake_tokens, ErrorCode, StakingPool, TransferRequest, UserStake,
    EARLY_UNSTAKE_PENALTY_PERCENT,
};

fn key(tag: u8) -> Pubkey {
    Pubkey::new_from_array([tag; 32])
}

fn pool() -> StakingPool {
    initialize_staking_pool(key(1), key(2), key(3), 254, 10)
}

fn deposit(amount: u64) -> Result<TransferRequest, ErrorCode> {
    Ok(TransferRequest::Deposit { amount })
}

fn payout(amount: u64) -> Result<TransferRequest, ErrorCode> {
    Ok(TransferRequest::Payout { amount, pool_nonce: 254 })
}

fn empty_stake() -> UserStake {
    UserStake {
        authority: Pubkey::default(),
        amount: 0,
        last_update_time: 0,
        lockup_end_time: 0,
        lockup_days: 0,
    }
}

#[test]
fn checked_arithmetic_is_exact_or_fails() {
    assert_eq!(checked_add(2, 3), Ok(5));
    assert_eq!(checked_add(u64::MAX, 0), Ok(u64::MAX));
    assert_eq!(checked_add(u64::MAX, 1), Err(ArithmeticError::Overflow));
    assert_eq!(checked_sub(5, 3), Ok(2));
    assert_eq!(checked_sub(3, 3), Ok(0));
    assert_eq!(checked_sub(3, 5), Err(ArithmeticError::Underflow));
    assert_eq!(checked_mul(6, 7), Ok(42));
    assert_eq!(checked_mul(1 << 32, 1 << 31), Ok(1 << 63));
    assert_eq!(checked_mul(1 << 32, 1 << 32), Err(ArithmeticError::Overflow));
    assert_eq!(checked_div(7, 2), Ok(3));
    assert_eq!(checked_div(0, 9), Ok(0));
    assert_eq!(checked_div(7, 0), Err(ArithmeticError::Overflow));
    assert_eq!(checked_mul_div(100, 2, 100), Ok(2));
    assert_eq!(checked_mul_div(149, 2, 100), Ok(2));
    assert_eq!(checked_mul_div(150, 2, 100), Ok(3));
    assert_eq!(checked_mul_div(u64::MAX, 2, 100), Err(ArithmeticError::Overflow));
    assert_eq!(checked_mul_div(1, 1, 0), Err(ArithmeticError::Overflow));
}

#[test]
fn clock_helpers() {
    assert_eq!(SECONDS_PER_DAY, 86_400);
    assert_eq!(SECONDS_PER_YEAR, 365 * 86_400);
    assert_eq!(deadline_after(1_000, 30), Ok(1_000 + 2_592_000));
    assert_eq!(deadline_after(-86_400, 1), Ok(0));
    assert_eq!(deadline_after(5, 0), Ok(5));
    assert_eq!(deadline_after(i64::MAX - 86_400, 1), Ok(i64::MAX));
    assert_eq!(deadline_after(i64::MAX - 86_399, 1), Err(ArithmeticError::Overflow));
    assert_eq!(elapsed_between(10, 25), 15);
    assert_eq!(elapsed_between(25, 10), 0);
    assert_eq!(elapsed_between(7, 7), 0);
    assert_eq!(elapsed_between(i64::MIN, i64::MAX), u64::MAX);
    assert_eq!(elapsed_between(-5, 5), 10);
}

#[test]
fn initialize_staking_pool_sets_every_field() {
    assert_eq!(
        pool(),
        StakingPool {
            authority: key(1),
            token_mint: key(2),
            vault: key(3),
            reward_rate: 10,
            pool_nonce: 254,
            total_staked: 0,
            paused: false,
        }
    );
}

#[test]
fn tier_rates() {
    assert_eq!(lookup_apr(0), 6);
    assert_eq!(lookup_apr(30), 12);
    assert_eq!(lookup_apr(90), 20);
    assert_eq!(lookup_apr(31), 6);
    assert_eq!(lookup_apr(u16::MAX), 6);
    assert_eq!(EARLY_UNSTAKE_PENALTY_PERCENT, 2);
}

#[test]
fn stake_updates_position_and_pool() {
    let mut p = pool();
    let mut s = empty_stake();
    assert_eq!(stake_tokens(&mut p, &mut s, key(9), 1_000, 30, 5_000), deposit(1_000));
    assert_eq!(
        s,
        UserStake {
            authority: key(9),
            amount: 1_000,
            last_update_time: 5_000,
            lockup_end_time: 5_000 + 30 * 86_400,
            lockup_days: 30,
        }
    );
    assert_eq!(p, StakingPool { total_staked: 1_000, ..pool() });
}

#[test]
fn top_up_resets_the_lockup_to_the_new_tier() {
    let mut p = pool();
    let mut s = empty_stake();
    assert_eq!(stake_tokens(&mut p, &mut s, key(9), 1_000, 90, 0), deposit(1_000));
    assert_eq!(s.lockup_end_time, 90 * 86_400);
    // Long after the first lockup ran out, a flexible top-up.
    let later = 200 * 86_400;
    assert_eq!(stake_tokens(&mut p, &mut s, key(9), 500, 0, later), deposit(500));
    assert_eq!(
        s,
        UserStake {
            authority: key(9),
            amount: 1_500,
            last_update_time: later,
            lockup_end_time: later,
            lockup_days: 0,
        }
    );
    assert_eq!(p.total_staked, 1_500);
}

#[test]
fn stake_refusals_come_in_order_and_change_nothing() {
    let mut p = pool();
    p.paused = true;
    let mut s = empty_stake();
    assert_eq!(stake_tokens(&mut p, &mut s, key(9), 0, 7, 0), Err(ErrorCode::PoolPaused));
    p.paused = false;
    assert_eq!(stake_tokens(&mut p, &mut s, key(9), 0, 7, 0), Err(ErrorCode::InvalidAmount));
    assert_eq!(stake_tokens(&mut p, &mut s, key(9), 1, 7, 0), Err(ErrorCode::InvalidLockupPeriod));
    assert_eq!(stake_tokens(&mut p, &mut s, key(9), 1, 31, 0), Err(ErrorCode::InvalidLockupPeriod));
    assert_eq!(stake_tokens(&mut p, &mut s, key(9), 1, 60, 0), Err(ErrorCode::InvalidLockupPeriod));
    assert_eq!(p, pool());
    assert_eq!(s, empty_stake());
    for days in [0u16, 30, 90] {
        let mut p = pool();
        let mut s = empty_stake();
        assert_eq!(stake_tokens(&mut p, &mut s, key(9), 1, days, 0), deposit(1));
    }
}

#[test]
fn stake_overflow_is_refused() {
    // The position would overflow.
    let mut p = pool();
    let mut s = empty_stake();
    s.amount = u64::MAX;
    assert_eq!(stake_tokens(&mut p, &mut s, key(9), 1, 0, 0), Err(ErrorCode::ArithmeticOverflow));
    assert_eq!(s.amount, u64::MAX);
    assert_eq!(p, pool());

    // The pool's total would overflow.
    let mut p = pool();
    p.total_staked = u64::MAX - 4;
    let mut s = empty_stake();
    assert_eq!(stake_tokens(&mut p, &mut s, key(9), 5, 0, 0), Err(ErrorCode::ArithmeticOverflow));
    assert_eq!(s, empty_stake());
    assert_eq!(p.total_staked, u64::MAX - 4);
    assert_eq!(stake_tokens(&mut p, &mut s, key(9), 4, 0, 0), deposit(4));
    assert_eq!(p.total_staked, u64::MAX);

    // The end of the lockup would lie beyond the clock.
    let mut p = pool();
    let mut s = empty_stake();
    assert_eq!(
        stake_tokens(&mut p, &mut s, key(9), 5, 30, i64::MAX),
        Err(ErrorCode::ArithmeticOverflow)
    );
    assert_eq!(s, empty_stake());
    assert_eq!(p, pool());
    assert_eq!(stake_tokens(&mut p, &mut s, key(9), 5, 0, i64::MAX), deposit(5));
}

#[test]
fn early_unstake_pays_the_penalty() {
    let mut p = pool();
    let mut s = empty_stake();
    assert_eq!(stake_tokens(&mut p, &mut s, key(9), 100, 30, 0), deposit(100));
    assert_eq!(stake_tokens(&mut p, &mut empty_stake(), key(8), 400, 0, 0), deposit(400));
    assert_eq!(p.total_staked, 500);

    assert_eq!(unstake_penalty(&s, 100, 10), Ok(2));
    assert_eq!(unstake_tokens(&mut p, &mut s, 100, 10), payout(98));
    assert_eq!(s.amount, 0);
    assert_eq!(s.last_update_time, 10);
    assert_eq!(s.lockup_end_time, 30 * 86_400);
    assert_eq!(s.lockup_days, 30);
    assert_eq!(p.total_staked, 400);
}

#[test]
fn unstake_after_lockup_pays_in_full() {
    let mut p = pool();
    let mut s = empty_stake();
    assert_eq!(stake_tokens(&mut p, &mut s, key(9), 100, 30, 0), deposit(100));
    let end = 30 * 86_400;
    assert_eq!(unstake_penalty(&s, 100, end - 1), Ok(2));
    assert_eq!(unstake_penalty(&s, 100, end), Ok(0));
    assert_eq!(unstake_tokens(&mut p, &mut s, 40, end), payout(40));
    assert_eq!(s.amount, 60);
    assert_eq!(s.last_update_time, end);
    assert_eq!(p.total_staked, 60);
}

#[test]
fn penalty_rounds_down() {
    let mut s = empty_stake();
    s.lockup_end_time = 100;
    assert_eq!(unstake_penalty(&s, 1, 0), Ok(0));
    assert_eq!(unstake_penalty(&s, 49, 0), Ok(0));
    assert_eq!(unstake_penalty(&s, 50, 0), Ok(1));
    assert_eq!(unstake_penalty(&s, 99, 0), Ok(1));
    assert_eq!(unstake_penalty(&s, 1_000_000, 0), Ok(20_000));
    assert_eq!(unstake_penalty(&s, u64::MAX / 2, 0), Ok((u64::MAX - 1) / 100));
    assert_eq!(unstake_penalty(&s, u64::MAX / 2 + 1, 0), Err(ErrorCode::ArithmeticOverflow));
    assert_eq!(unstake_penalty(&s, u64::MAX / 2 + 1, 100), Ok(0));
}

#[test]
fn unstake_refusals_come_in_order_and_change_nothing() {
    let mut p = pool();
    p.total_staked = 10;
    let mut s = empty_stake();
    s.amount = 10;
    let (pool_before, stake_before) = (p, s);

    p.paused = true;
    assert_eq!(unstake_tokens(&mut p, &mut s, 0, 0), Err(ErrorCode::PoolPaused));
    p.paused = false;
    assert_eq!(unstake_tokens(&mut p, &mut s, 0, 0), Err(ErrorCode::InvalidAmount));
    assert_eq!(unstake_tokens(&mut p, &mut s, 11, 0), Err(ErrorCode::InsufficientStake));
    assert_eq!(p, pool_before);
    assert_eq!(s, stake_before);
    assert_eq!(unstake_tokens(&mut p, &mut s, 10, 0), payout(10));
    assert_eq!(s.amount, 0);
    assert_eq!(p.total_staked, 0);
}

#[test]
fn unstake_arithmetic_failures() {
    // Doubling the amount for the percentage does not fit.
    let mut p = pool();
    p.total_staked = u64::MAX;
    let mut s = empty_stake();
    s.amount = u64::MAX;
    s.lockup_end_time = 100;
    let (pool_before, stake_before) = (p, s);
    assert_eq!(unstake_tokens(&mut p, &mut s, u64::MAX, 0), Err(ErrorCode::ArithmeticOverflow));
    assert_eq!(p, pool_before);
    assert_eq!(s, stake_before);
    assert_eq!(unstake_tokens(&mut p, &mut s, u64::MAX, 100), payout(u64::MAX));

    // A pool whose total is below the position cannot pay it out.
    let mut p = pool();
    p.total_staked = 5;
    let mut s = empty_stake();
    s.amount = 10;
    let (pool_before, stake_before) = (p, s);
    assert_eq!(unstake_tokens(&mut p, &mut s, 6, 0), Err(ErrorCode::ArithmeticUnderflow));
    assert_eq!(p, pool_before);
    assert_eq!(s, stake_before);
}

#[test]
fn reward_for_one_year_at_twelve_percent() {
    assert_eq!(calculate_rewards(1_000_000, 0, 31_536_000, 0, 30), Ok(120_000));
    assert_eq!(calculate_rewards(1_000_000, 0, 31_536_000, 0, 0), Ok(60_000));
    assert_eq!(calculate_rewards(1_000_000, 0, 31_536_000, 0, 90), Ok(200_000));
    assert_eq!(calculate_rewards(1_000_000, 0, 31_536_000, 0, 45), Ok(60_000));
}

#[test]
fn reward_does_not_depend_on_the_base_rate() {
    for rate in [0u64, 1, 10, u64::MAX] {
        assert_eq!(calculate_rewards(1_000_000, 100, 100 + 15_768_000, rate, 90), Ok(100_000));
    }
}

#[test]
fn reward_rounds_down_twice() {
    // annual = floor(99 * 6 / 100) = 5; for half a year floor(5 / 2) = 2.
    assert_eq!(calculate_rewards(99, 0, 15_768_000, 0, 0), Ok(2));
    // annual = floor(16 * 6 / 100) = 0.
    assert_eq!(calculate_rewards(16, 0, 31_536_000, 0, 0), Ok(0));
    // One second short of the first whole token.
    assert_eq!(calculate_rewards(100, 0, 31_535_999 / 12, 0, 30), Ok(0));
    assert_eq!(calculate_rewards(100, 0, 2_628_000, 0, 30), Ok(1));
    assert_eq!(calculate_rewards(100, 0, 2_627_999, 0, 30), Ok(0));
}

#[test]
fn reward_is_zero_when_no_time_has_passed() {
    assert_eq!(calculate_rewards(1_000_000, 500, 500, 0, 30), Ok(0));
    assert_eq!(calculate_rewards(1_000_000, 500, 499, 0, 30), Ok(0));
    assert_eq!(calculate_rewards(u64::MAX, 500, 500, 0, 90), Ok(0));
    assert_eq!(calculate_rewards(u64::MAX, i64::MAX, i64::MIN, 0, 90), Ok(0));
}

#[test]
fn reward_overflow_is_reported() {
    assert_eq!(calculate_rewards(u64::MAX, 0, 1, 0, 0), Err(ErrorCode::ArithmeticOverflow));
    assert_eq!(calculate_rewards(u64::MAX / 6, 0, 1, 0, 0), Ok(5_849_424_173));
    assert_eq!(calculate_rewards(u64::MAX / 6 + 1, 0, 1, 0, 0), Err(ErrorCode::ArithmeticOverflow));
    // The annual reward fits, its product with the seconds does not.
    assert_eq!(
        calculate_rewards(u64::MAX / 20, 0, 31_536_000, 0, 90),
        Err(ErrorCode::ArithmeticOverflow)
    );
    assert_eq!(calculate_rewards(1, i64::MIN, i64::MAX, 0, 0), Ok(0));
    assert_eq!(
        calculate_rewards(100, i64::MIN, i64::MAX, 0, 0),
        Err(ErrorCode::ArithmeticOverflow)
    );
}

#[test]
fn claim_pays_and_resets_the_settlement_time() {
    let p = pool();
    let mut s = empty_stake();
    s.amount = 1_000_000;
    s.lockup_days = 30;
    s.lockup_end_time = 2_592_000;
    assert_eq!(claim_rewards(&p, &mut s, 31_536_000), Ok(Some(TransferRequest::Payout { amount: 120_000, pool_nonce: 254 })));
    assert_eq!(
        s,
        UserStake {
            authority: Pubkey::default(),
            amount: 1_000_000,
            last_update_time: 31_536_000,
            lockup_end_time: 2_592_000,
            lockup_days: 30,
        }
    );
    // Claiming again at once pays nothing and changes nothing.
    let settled = s;
    assert_eq!(claim_rewards(&p, &mut s, 31_536_000), Ok(None));
    assert_eq!(s, settled);
}

#[test]
fn claim_of_nothing_keeps_the_settlement_time() {
    let p = pool();
    let mut s = empty_stake();
    s.amount = 100;
    s.last_update_time = 1_000;
    let before = s;
    // Time has passed, but the reward rounds down to zero.
    assert_eq!(claim_rewards(&p, &mut s, 2_000), Ok(None));
    assert_eq!(s, before);
    assert_eq!(claim_rewards(&p, &mut s, 1_000), Ok(None));
    assert_eq!(s, before);
}

#[test]
fn claim_works_on_a_paused_pool_and_reports_overflow() {
    let mut p = pool();
    p.paused = true;
    let mut s = empty_stake();
    s.amount = 1_000_000;
    assert_eq!(claim_rewards(&p, &mut s, 31_536_000), Ok(Some(TransferRequest::Payout { amount: 60_000, pool_nonce: 254 })));
    assert_eq!(s.last_update_time, 31_536_000);

    let mut s = empty_stake();
    s.amount = u64::MAX;
    let before = s;
    assert_eq!(claim_rewards(&p, &mut s, 10), Err(ErrorCode::ArithmeticOverflow));
    assert_eq!(s, before);
}

#[test]
fn pool_total_equals_sum_of_positions_after_every_operation() {
    let mut p = pool();
    let mut stakes = [empty_stake(), empty_stake(), empty_stake()];
    let sum = |stakes: &[UserStake; 3]| stakes.iter().map(|s| s.amount).sum::<u64>();

    let steps: [(usize, bool, u64, u16, i64); 9] = [
        (0, true, 1_000, 30, 0),
        (1, true, 250, 0, 10),
        (0, false, 400, 0, 20),
        (2, true, 0, 0, 30),
        (2, true, 77, 45, 30),
        (2, true, 77, 90, 30),
        (1, false, 251, 0, 40),
        (1, false, 250, 0, 50),
        (0, true, 5, 0, 60),
    ];
    for (who, deposit, amount, days, now) in steps {
        let owner = key(who as u8);
        let _ = if deposit {
            stake_tokens(&mut p, &mut stakes[who], owner, amount, days, now)
        } else {
            unstake_tokens(&mut p, &mut stakes[who], amount, now)
        };
        let _ = claim_rewards(&p, &mut stakes[who], now + 1);
        assert_eq!(p.total_staked, sum(&stakes));
    }
    assert_eq!(p.total_staked, 600 + 0 + 77 + 5);
    assert_eq!(stakes[0].amount, 605);
    assert_eq!(stakes[1].amount, 0);
    assert_eq!(stakes[2].amount, 77);
}
