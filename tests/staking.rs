use spl_staking_locked::accrual::{
    calculate_total_promised_rewards, calculate_uncaptured_rewards, calculate_unallocated_rewards,
    capture_rewards, update_accumulators,
};
use spl_staking_locked::admin::{
    add_rewards, configure_reward_ratio, configure_withdrawal_delay, finalize_ownership_transfer,
    initialize, initiate_ownership_transfer,
};
use spl_staking_locked::engine::{request_withdrawal, stake, withdraw, withdraw_and_forfeit_rewards};
use spl_staking_locked::ledger::Ledger;
use spl_staking_locked::math::{
    days_to_seconds, scaled_mul_div, yearly_to_per_second_rate, PRECISION, SECONDS_PER_DAY,
    SECONDS_PER_YEAR,
};
use spl_staking_locked::types::{Identity, Settings, StakingError, Stats, UserInfo};
use spl_staking_locked::views::{view_current_rewards, view_reward_runway, view_unallocated_rewards};

const EIGHT_PERCENT: u64 = 80_000_000_000;
const T0: u32 = 1_700_000_000;

fn id(b: u8) -> Identity {
    Identity { bytes: [b; 32] }
}

fn setup(delay_days: u64, yearly: u64) -> (Settings, Stats) {
    let (settings, stats, _) = initialize(id(1), id(9), delay_days, yearly, T0).unwrap();
    (settings, stats)
}

fn ledger(delay_days: u64, yearly: u64) -> Ledger {
    let (settings, stats) = setup(delay_days, yearly);
    Ledger::new(settings, stats)
}

fn stake_sum(l: &Ledger) -> u64 {
    l.users.iter().map(|u| u.stake_amount).sum()
}

#[test]
fn per_second_rate_of_eight_percent() {
    assert_eq!(SECONDS_PER_YEAR, 31_536_000);
    assert_eq!(yearly_to_per_second_rate(EIGHT_PERCENT), 2536);
    assert_eq!(yearly_to_per_second_rate(SECONDS_PER_YEAR - 1), 0);
}

#[test]
fn one_year_of_eight_percent() {
    let (settings, mut stats) = setup(0, EIGHT_PERCENT);
    let mut user = UserInfo::empty();
    stake(id(2), &settings, &mut stats, &mut user, 1_000_000, T0).unwrap();
    let now = T0 + 31_536_000;
    let viewed = view_current_rewards(id(2), &settings, &stats, &user, now).unwrap();
    let expected = (1_000_000u128 * 2536 * 31_536_000 / 1_000_000_000_000) as u64;
    assert_eq!(expected, 79_975);
    assert_eq!(viewed.total_reward, expected);
    assert_eq!(viewed.uncaptured_reward, expected);
    assert_eq!(viewed.captured_reward, 0);
    capture_rewards(&settings, &mut stats, &mut user, now).unwrap();
    assert_eq!(user.captured_reward, expected);
    assert_eq!(stats.total_reward_promised, expected);
    assert_eq!(stats.reward_per_token_stored_numerator, 2536 * 31_536_000);
}

#[test]
fn proportional_shares_for_one_increment() {
    assert_eq!(calculate_uncaptured_rewards(100, 1000, 0), Ok(100 * 1000 / PRECISION));
    assert_eq!(calculate_uncaptured_rewards(300, 1000, 0), Ok(300 * 1000 / PRECISION));
    let big = 1000 * PRECISION;
    let a = calculate_uncaptured_rewards(100, big + 7, 7).unwrap();
    let b = calculate_uncaptured_rewards(300, big + 7, 7).unwrap();
    assert_eq!(a, 100_000);
    assert_eq!(b, 3 * a);
}

#[test]
fn proportional_shares_through_the_ledger() {
    // 1000 scaled units of index per second.
    let mut l = ledger(0, 1000 * SECONDS_PER_YEAR);
    let big = PRECISION;
    l.stake(id(2), 100 * big, T0).unwrap();
    l.stake(id(3), 300 * big, T0).unwrap();
    let a = view_current_rewards(id(2), &l.settings, &l.stats, &l.users[0], T0 + 1).unwrap();
    let b = view_current_rewards(id(3), &l.settings, &l.stats, &l.users[1], T0 + 1).unwrap();
    assert_eq!(a.total_reward, 100_000);
    assert_eq!(b.total_reward, 300_000);
    assert_eq!(b.total_reward, 3 * a.total_reward);
}

#[test]
fn repeated_requests_accumulate() {
    let mut l = ledger(1, EIGHT_PERCENT);
    l.add_rewards(id(1), 1_000_000).unwrap();
    l.stake(id(2), 1_000_000_000, T0).unwrap();
    let first = l.request_withdrawal(id(2), T0 + 1000).unwrap();
    assert_eq!(first.added_token_amount, 1_000_000_000);
    assert!(first.added_reward_amount > 0);
    l.stake(id(2), 500_000_000, T0 + 2000).unwrap();
    assert_eq!(l.users[0].staked_at, T0 + 2000);
    let second = l.request_withdrawal(id(2), T0 + 5000).unwrap();
    let u = l.users[0];
    assert_eq!(u.withdrawal_request_amount, 1_500_000_000);
    assert_eq!(
        u.withdrawal_request_reward_amount,
        first.added_reward_amount + second.added_reward_amount
    );
    assert_eq!(second.total_reward_amount, u.withdrawal_request_reward_amount);
    assert_eq!(second.total_token_amount, 1_500_000_000);
    assert_eq!(u.withdrawal_request_time, T0 + 5000);
    assert_eq!(u.stake_amount, 0);
    assert_eq!(u.staked_at, 0);
    assert_eq!(u.captured_reward, 0);
    assert_eq!(l.stats.total_staked, 0);
}

#[test]
fn forfeit_leaves_reward_unallocated() {
    let mut l = ledger(1, EIGHT_PERCENT);
    l.add_rewards(id(1), 5_000_000).unwrap();
    l.stake(id(2), 1_000_000_000, T0).unwrap();
    let req = l.request_withdrawal(id(2), T0 + 100_000).unwrap();
    assert!(req.total_reward_amount > 0);
    let now = T0 + 100_000 + SECONDS_PER_DAY as u32;
    let before = view_unallocated_rewards(&l.settings, &l.stats, now).unwrap();
    let provided = l.stats.total_reward_provided;
    let out = l.withdraw_and_forfeit_rewards(id(2), now).unwrap();
    assert_eq!(out.token_amount, 1_000_000_000);
    assert_eq!(out.forfeited_reward_amount, req.total_reward_amount);
    assert_eq!(l.stats.total_reward_provided, provided);
    let after = view_unallocated_rewards(&l.settings, &l.stats, now).unwrap();
    assert_eq!(after.unallocated_rewards, before.unallocated_rewards);
    assert_eq!(
        after.unallocated_rewards,
        5_000_000i128 - l.stats.total_reward_promised as i128
    );
    let u = l.users[0];
    assert_eq!(u.withdrawal_request_amount, 0);
    assert_eq!(u.withdrawal_request_reward_amount, 0);
    assert_eq!(u.withdrawal_request_time, 0);
}

#[test]
fn ledger_total_matches_positions() {
    let mut l = ledger(0, EIGHT_PERCENT);
    l.stake(id(2), 700, T0).unwrap();
    assert_eq!(stake_sum(&l), l.stats.total_staked);
    l.stake(id(3), 300, T0 + 5).unwrap();
    l.stake(id(2), 50, T0 + 9).unwrap();
    assert_eq!(l.users.len(), 2);
    assert_eq!(stake_sum(&l), l.stats.total_staked);
    assert_eq!(l.stats.total_staked, 1050);
    l.request_withdrawal(id(3), T0 + 20).unwrap();
    assert_eq!(stake_sum(&l), l.stats.total_staked);
    assert_eq!(l.stats.total_staked, 750);
    l.withdraw(id(3), T0 + 20, 0).unwrap_or_else(|e| panic!("{:?}", e));
    assert_eq!(stake_sum(&l), l.stats.total_staked);
}

#[test]
fn index_and_promised_never_decrease() {
    let mut l = ledger(0, EIGHT_PERCENT);
    let mut last = (0u64, 0u64);
    let check = |l: &Ledger, last: &mut (u64, u64)| {
        let now = (l.stats.reward_per_token_stored_numerator, l.stats.total_reward_promised);
        assert!(now.0 >= last.0 && now.1 >= last.1);
        *last = now;
    };
    l.stake(id(2), 1_000_000, T0 + 10).unwrap();
    check(&l, &mut last);
    l.stake(id(3), 2_000_000, T0 + 1_000).unwrap();
    check(&l, &mut last);
    l.configure_reward_ratio(id(1), 2 * EIGHT_PERCENT, T0 + 50_000).unwrap();
    check(&l, &mut last);
    l.request_withdrawal(id(2), T0 + 90_000).unwrap();
    check(&l, &mut last);
    l.withdraw_and_forfeit_rewards(id(2), T0 + 90_000).unwrap();
    check(&l, &mut last);
    l.add_rewards(id(1), 10).unwrap();
    check(&l, &mut last);
    assert!(last.0 > 0 && last.1 > 0);
}

#[test]
fn settling_twice_captures_nothing_more() {
    let (settings, mut stats) = setup(0, EIGHT_PERCENT);
    let mut user = UserInfo::empty();
    stake(id(2), &settings, &mut stats, &mut user, 123_456_789, T0).unwrap();
    capture_rewards(&settings, &mut stats, &mut user, T0 + 77_777).unwrap();
    let once = (stats, user);
    assert!(user.captured_reward > 0);
    capture_rewards(&settings, &mut stats, &mut user, T0 + 77_777).unwrap();
    assert_eq!(user.captured_reward, once.1.captured_reward);
    assert_eq!(user.reward_per_token_paid_numerator, once.1.reward_per_token_paid_numerator);
    assert_eq!(stats.total_reward_promised, once.0.total_reward_promised);
}

#[test]
fn equal_stakes_within_one_unit() {
    let (settings, mut stats) = setup(0, 3 * SECONDS_PER_YEAR + 5);
    let mut a = UserInfo::empty();
    let mut b = UserInfo::empty();
    stake(id(2), &settings, &mut stats, &mut a, 333_333_333_333, T0).unwrap();
    stake(id(3), &settings, &mut stats, &mut b, 333_333_333_333, T0).unwrap();
    capture_rewards(&settings, &mut stats, &mut a, T0 + 1).unwrap();
    capture_rewards(&settings, &mut stats, &mut a, T0 + 2).unwrap();
    capture_rewards(&settings, &mut stats, &mut b, T0 + 2).unwrap();
    let d = a.captured_reward as i128 - b.captured_reward as i128;
    assert!(d.abs() <= 1);
    // Three units of index per second: b gets floor(6 * s / P) = 1, while a
    // gets floor(3 * s / P) = 0 twice.
    assert_eq!(b.captured_reward, 1);
    assert_eq!(a.captured_reward, 0);
}

#[test]
fn withdrawal_opens_exactly_at_the_deadline() {
    let (settings, mut stats) = setup(2, EIGHT_PERCENT);
    let mut user = UserInfo::empty();
    stake(id(2), &settings, &mut stats, &mut user, 10_000, T0).unwrap();
    request_withdrawal(id(2), &settings, &mut stats, &mut user, T0 + 10).unwrap();
    let deadline = T0 + 10 + 2 * 86_400;
    let kept = user;
    assert_eq!(
        withdraw(id(2), &settings, &mut user, deadline - 1, u64::MAX).unwrap_err(),
        StakingError::WithdrawalDelayNotMet
    );
    assert_eq!(user.withdrawal_request_amount, kept.withdrawal_request_amount);
    let out = withdraw(id(2), &settings, &mut user, deadline, kept.withdrawal_request_reward_amount)
        .unwrap();
    assert_eq!(out.token_amount, 10_000);
    assert_eq!(out.reward_amount, kept.withdrawal_request_reward_amount);
    assert_eq!(user.withdrawal_request_amount, 0);
    assert_eq!(user.withdrawal_request_time, 0);
    assert_eq!(
        withdraw(id(2), &settings, &mut user, deadline, u64::MAX).unwrap_err(),
        StakingError::NoWithdrawalRequest
    );
}

#[test]
fn withdraw_needs_reserve_for_reward() {
    let (settings, mut stats) = setup(0, EIGHT_PERCENT);
    let mut user = UserInfo::empty();
    stake(id(2), &settings, &mut stats, &mut user, 1_000_000_000, T0).unwrap();
    request_withdrawal(id(2), &settings, &mut stats, &mut user, T0 + 1_000_000).unwrap();
    let reward = user.withdrawal_request_reward_amount;
    assert!(reward > 0);
    assert_eq!(
        withdraw(id(2), &settings, &mut user, T0 + 1_000_000, reward - 1).unwrap_err(),
        StakingError::InsufficientRewards
    );
    assert_eq!(user.withdrawal_request_reward_amount, reward);
    let out = withdraw_and_forfeit_rewards(id(2), &settings, &mut user, T0 + 1_000_000).unwrap();
    assert_eq!(out.forfeited_reward_amount, reward);
}

#[test]
fn zero_amounts_are_rejected() {
    let (settings, mut stats) = setup(0, EIGHT_PERCENT);
    let mut user = UserInfo::empty();
    assert_eq!(
        stake(id(2), &settings, &mut stats, &mut user, 0, T0).unwrap_err(),
        StakingError::InvalidAmount
    );
    assert_eq!(add_rewards(id(1), &mut stats, 0).unwrap_err(), StakingError::InvalidAmount);
    assert_eq!(stats.total_reward_provided, 0);
}

#[test]
fn delay_over_a_month_is_rejected() {
    assert_eq!(initialize(id(1), id(9), 32, 0, T0).unwrap_err(), StakingError::InvalidAmount);
    let (mut settings, _) = setup(3, 0);
    assert_eq!(settings.withdrawal_delay_seconds, 3 * 86_400);
    assert_eq!(
        configure_withdrawal_delay(id(1), &mut settings, 32).unwrap_err(),
        StakingError::InvalidAmount
    );
    assert_eq!(settings.withdrawal_delay_seconds, 3 * 86_400);
    let ev = configure_withdrawal_delay(id(1), &mut settings, 31).unwrap();
    assert_eq!(ev.new_withdrawal_delay_seconds, 2_678_400);
    assert_eq!(settings.withdrawal_delay_seconds, 2_678_400);
    assert_eq!(days_to_seconds(7), 604_800);
}

#[test]
fn request_without_stake_fails() {
    let (settings, mut stats) = setup(0, EIGHT_PERCENT);
    let mut user = UserInfo::empty();
    assert_eq!(
        request_withdrawal(id(2), &settings, &mut stats, &mut user, T0).unwrap_err(),
        StakingError::NoStakeFound
    );
    let mut l = ledger(0, EIGHT_PERCENT);
    assert_eq!(l.request_withdrawal(id(4), T0).unwrap_err(), StakingError::NoStakeFound);
    assert_eq!(l.withdraw(id(4), T0, 0).unwrap_err(), StakingError::NoWithdrawalRequest);
    assert_eq!(
        l.withdraw_and_forfeit_rewards(id(4), T0).unwrap_err(),
        StakingError::NoWithdrawalRequest
    );
}

#[test]
fn overflow_is_reported() {
    let (settings, mut stats) = setup(0, EIGHT_PERCENT);
    let mut user = UserInfo::empty();
    stake(id(2), &settings, &mut stats, &mut user, u64::MAX, T0).unwrap();
    let (s0, u0) = (stats, user);
    assert_eq!(
        stake(id(2), &settings, &mut stats, &mut user, 1, T0).unwrap_err(),
        StakingError::MathOverflow
    );
    assert_eq!(stats.total_staked, s0.total_staked);
    assert_eq!(user.stake_amount, u0.stake_amount);
    stats.total_reward_provided = u64::MAX;
    assert_eq!(add_rewards(id(1), &mut stats, 1).unwrap_err(), StakingError::MathOverflow);
    assert_eq!(scaled_mul_div(u64::MAX, u64::MAX, 1), None);
    assert_eq!(scaled_mul_div(u64::MAX, 3, 3), Some(u64::MAX));
    assert_eq!(calculate_uncaptured_rewards(u64::MAX, u64::MAX, 0), Err(StakingError::MathOverflow));
}

#[test]
fn ownership_moves_in_two_steps() {
    let (mut settings, _) = setup(0, 0);
    assert_eq!(
        finalize_ownership_transfer(&mut settings, id(5)).unwrap_err(),
        StakingError::UnauthorizedOwnershipTransfer
    );
    let ev = initiate_ownership_transfer(&mut settings, id(5));
    assert_eq!(ev.current_administrator.bytes, [1; 32]);
    assert_eq!(settings.pending_administrator.map(|p| p.bytes), Some([5; 32]));
    assert_eq!(settings.administrator.bytes, [1; 32]);
    assert_eq!(
        finalize_ownership_transfer(&mut settings, id(6)).unwrap_err(),
        StakingError::UnauthorizedOwnershipTransfer
    );
    let done = finalize_ownership_transfer(&mut settings, id(5)).unwrap();
    assert_eq!(done.old_administrator.bytes, [1; 32]);
    assert_eq!(done.new_administrator.bytes, [5; 32]);
    assert_eq!(settings.administrator.bytes, [5; 32]);
    assert!(settings.pending_administrator.is_none());
}

#[test]
fn first_deposit_owes_no_history() {
    let (settings, mut stats) = setup(0, EIGHT_PERCENT);
    let mut early = UserInfo::empty();
    stake(id(2), &settings, &mut stats, &mut early, 1_000, T0).unwrap();
    let mut late = UserInfo::empty();
    let ev = stake(id(3), &settings, &mut stats, &mut late, 5_000, T0 + 1_000).unwrap();
    assert_eq!(ev.total_user_staked, 5_000);
    assert_eq!(late.user.bytes, [3; 32]);
    assert_eq!(late.reward_per_token_paid_numerator, 2536 * 1_000);
    assert_eq!(late.captured_reward, 0);
    assert_eq!(late.staked_at, T0 + 1_000);
    stake(id(3), &settings, &mut stats, &mut late, 5_000, T0 + 2_000).unwrap();
    assert_eq!(late.staked_at, T0 + 1_000);
    assert_eq!(late.stake_amount, 10_000);
    assert_eq!(stats.total_staked, 11_000);
}

#[test]
fn no_accrual_without_stake() {
    let (settings, mut stats) = setup(0, EIGHT_PERCENT);
    update_accumulators(&settings, &mut stats, T0 + 1_000_000).unwrap();
    assert_eq!(stats.reward_per_token_stored_numerator, 0);
    assert_eq!(stats.total_reward_promised, 0);
    assert_eq!(stats.last_update_time, T0 + 1_000_000);
}

#[test]
fn rate_change_applies_from_now_on() {
    let (mut settings, mut stats) = setup(0, EIGHT_PERCENT);
    let mut user = UserInfo::empty();
    stake(id(2), &settings, &mut stats, &mut user, 1_000, T0).unwrap();
    let ev = configure_reward_ratio(id(1), &mut settings, &mut stats, 2 * EIGHT_PERCENT, T0 + 100)
        .unwrap();
    assert_eq!(ev.new_reward_rate_per_second_per_token_numerator, 5073);
    assert_eq!(stats.reward_per_token_stored_numerator, 253_600);
    assert_eq!(stats.last_update_time, T0 + 100);
    update_accumulators(&settings, &mut stats, T0 + 200).unwrap();
    assert_eq!(stats.reward_per_token_stored_numerator, 253_600 + 507_300);
}

#[test]
fn unallocated_may_go_negative() {
    let (settings, mut stats) = setup(0, EIGHT_PERCENT);
    let mut user = UserInfo::empty();
    stake(id(2), &settings, &mut stats, &mut user, 1_000_000, T0).unwrap();
    add_rewards(id(1), &mut stats, 100).unwrap();
    let now = T0 + 31_536_000;
    assert_eq!(calculate_total_promised_rewards(&settings, &stats, now), Ok(79_975));
    assert_eq!(calculate_unallocated_rewards(&settings, &stats, now), Ok(100 - 79_975));
    let v = view_unallocated_rewards(&settings, &stats, now).unwrap();
    assert_eq!(v.unallocated_rewards, -79_875);
    let r = view_reward_runway(&settings, &stats, now).unwrap();
    assert_eq!(r.available_rewards, 0);
    // 10^6 tokens consume less than one unit per second.
    assert_eq!(r.runway_seconds, u64::MAX);
    stake(id(2), &settings, &mut stats, &mut user, PRECISION, now).unwrap();
    let r = view_reward_runway(&settings, &stats, now).unwrap();
    assert_eq!(r.available_rewards, 0);
    assert_eq!(r.runway_seconds, 0);
}

#[test]
fn runway_in_seconds() {
    let (settings, mut stats) = setup(0, EIGHT_PERCENT);
    let mut user = UserInfo::empty();
    // 10^12 tokens at 2536 per token per second: 2536 reward per second.
    stake(id(2), &settings, &mut stats, &mut user, PRECISION, T0).unwrap();
    add_rewards(id(1), &mut stats, 2536 * 1000 + 17).unwrap();
    let r = view_reward_runway(&settings, &stats, T0).unwrap();
    assert_eq!(r.available_rewards, 2536 * 1000 + 17);
    assert_eq!(r.runway_seconds, 1000);
    let later = view_reward_runway(&settings, &stats, T0 + 400).unwrap();
    assert_eq!(later.available_rewards, 2536 * 600 + 17);
    assert_eq!(later.runway_seconds, 600);
}

#[test]
fn runway_saturates() {
    let (settings, mut stats) = setup(0, EIGHT_PERCENT);
    add_rewards(id(1), &mut stats, 1_000).unwrap();
    assert_eq!(view_reward_runway(&settings, &stats, T0).unwrap().runway_seconds, u64::MAX);
    let mut user = UserInfo::empty();
    stake(id(2), &settings, &mut stats, &mut user, 400_000_000, T0).unwrap();
    add_rewards(id(1), &mut stats, u64::MAX - 2_000).unwrap();
    let r = view_reward_runway(&settings, &stats, T0).unwrap();
    assert_eq!(r.runway_seconds, u64::MAX);
}

#[test]
fn ledger_view_matches_settlement() {
    let mut l = ledger(0, EIGHT_PERCENT);
    l.stake(id(2), 1_000_000, T0).unwrap();
    let v = l.view_current_rewards(id(2), T0 + 31_536_000).unwrap();
    assert_eq!(v.total_reward, 79_975);
    assert_eq!(l.view_current_rewards(id(7), T0 + 31_536_000).unwrap().total_reward, 0);
    l.stake(id(2), 1, T0 + 31_536_000).unwrap();
    assert_eq!(l.users[0].captured_reward, 79_975);
}
