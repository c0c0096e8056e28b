//! The operations of the staking pool. Each one brings the accumulator up
//! to date first, settles the acting user, then applies its own effect.
//! Asset transfers are left to the caller: an operation returns the amounts
//! that are to move, and on an error it changes nothing.
use vstd::prelude::*;
use crate::accrual::{
    accrual_fits, accrued, capture_rewards, settle_fits, settled, update_accumulators,
};
use crate::events::{Staked, WithdrawalRequested, Withdrawn, WithdrawnAndForfeitedRewards};
use crate::types::{Identity, Settings, StakingError, Stats, UserInfo};

verus! {

/// The accumulator and the acting user's position are consistent with each
/// other: the clock has not gone back, the user's snapshot is not ahead of
/// the index, and the user's stake is part of the total.
pub open spec fn position_consistent(stats: Stats, user_info: UserInfo, now: u32) -> bool {
    &&& now >= stats.last_update_time
    &&& user_info.reward_per_token_paid_numerator <= stats.reward_per_token_stored_numerator
    &&& user_info.stake_amount <= stats.total_staked
}

// ---------------------------------------------------------------- stake

/// The position of a first-time staker: no reward is owed for the history
/// before joining.
pub open spec fn joined(settings: Settings, stats: Stats, user_info: UserInfo, user: Identity, now: u32) -> UserInfo {
    UserInfo {
        user: user,
        reward_per_token_paid_numerator: accrued(settings, stats, now).reward_per_token_stored_numerator,
        ..user_info
    }
}

/// The position before the deposit is added: joined or settled.
pub open spec fn stake_base(settings: Settings, stats: Stats, user_info: UserInfo, user: Identity, now: u32) -> UserInfo {
    if user_info.user.is_zero() {
        joined(settings, stats, user_info, user, now)
    } else {
        settled(settings, stats, user_info, now)
    }
}

/// Whether staking `amount` at `now` keeps every total within `u64`.
pub open spec fn stake_fits(settings: Settings, stats: Stats, user_info: UserInfo, user: Identity, amount: u64, now: u32) -> bool {
    &&& if user_info.user.is_zero() {
        accrual_fits(settings, stats, now)
    } else {
        settle_fits(settings, stats, user_info, now)
    }
    &&& stake_base(settings, stats, user_info, user, now).stake_amount + amount <= u64::MAX
    &&& stats.total_staked + amount <= u64::MAX
}

pub open spec fn staked_user(settings: Settings, stats: Stats, user_info: UserInfo, user: Identity, amount: u64, now: u32) -> UserInfo {
    let base = stake_base(settings, stats, user_info, user, now);
    UserInfo {
        stake_amount: (base.stake_amount + amount) as u64,
        staked_at: if base.stake_amount == 0 { now } else { base.staked_at },
        ..base
    }
}

pub open spec fn staked_stats(settings: Settings, stats: Stats, amount: u64, now: u32) -> Stats {
    let base = accrued(settings, stats, now);
    Stats { total_staked: (base.total_staked + amount) as u64, ..base }
}

/// Deposits `amount` into `user`'s position. A first deposit starts the
/// position at the current index; a deposit onto an empty stake starts a
/// new streak at `now`.
pub fn stake(
    user: Identity,
    settings: &Settings,
    stats: &mut Stats,
    user_info: &mut UserInfo,
    amount: u64,
    now: u32,
) -> (r: Result<Staked, StakingError>)
    requires
        position_consistent(*old(stats), *old(user_info), now),
    ensures
        amount == 0 ==> r == Err::<Staked, StakingError>(StakingError::InvalidAmount),
        amount > 0 ==> (r is Ok <==> stake_fits(*settings, *old(stats), *old(user_info), user, amount, now)),
        amount > 0 && r is Err ==> r == Err::<Staked, StakingError>(StakingError::MathOverflow),
        r is Ok ==> {
            &&& *final(stats) == staked_stats(*settings, *old(stats), amount, now)
            &&& *final(user_info) == staked_user(*settings, *old(stats), *old(user_info), user, amount, now)
            &&& r == Ok::<Staked, StakingError>(Staked { user: user, amount: amount, total_user_staked: final(user_info).stake_amount })
        },
        r is Err ==> *final(stats) == *old(stats) && *final(user_info) == *old(user_info),
        final(stats).reward_per_token_stored_numerator >= old(stats).reward_per_token_stored_numerator,
        final(stats).total_reward_promised >= old(stats).total_reward_promised,
{
    if amount == 0 {
        return Err(StakingError::InvalidAmount);
    }
    let mut next_stats: Stats = *stats;
    let mut next_user: UserInfo = *user_info;
    if user_info.user.is_zero_exec() {
        update_accumulators(settings, &mut next_stats, now)?;
        next_user.user = user;
        next_user.reward_per_token_paid_numerator = next_stats.reward_per_token_stored_numerator;
    } else {
        capture_rewards(settings, &mut next_stats, &mut next_user, now)?;
    }
    proof {
        crate::accrual::lemma_accrual_monotone(*settings, *stats, now);
    }
    if next_user.stake_amount == 0 {
        next_user.staked_at = now;
    }
    next_user.stake_amount = match next_user.stake_amount.checked_add(amount) {
        Some(v) => v,
        None => return Err(StakingError::MathOverflow),
    };
    next_stats.total_staked = match next_stats.total_staked.checked_add(amount) {
        Some(v) => v,
        None => return Err(StakingError::MathOverflow),
    };
    *stats = next_stats;
    *user_info = next_user;
    Ok(Staked { user, amount, total_user_staked: next_user.stake_amount })
}

// --------------------------------------------------- request_withdrawal

/// Whether moving the settled position into the request stays within `u64`.
pub open spec fn request_fits(settings: Settings, stats: Stats, user_info: UserInfo, now: u32) -> bool {
    let s = settled(settings, stats, user_info, now);
    &&& settle_fits(settings, stats, user_info, now)
    &&& user_info.withdrawal_request_amount + user_info.stake_amount <= u64::MAX
    &&& user_info.withdrawal_request_reward_amount + s.captured_reward <= u64::MAX
}

pub open spec fn requested_user(settings: Settings, stats: Stats, user_info: UserInfo, now: u32) -> UserInfo {
    let s = settled(settings, stats, user_info, now);
    UserInfo {
        stake_amount: 0,
        staked_at: 0,
        captured_reward: 0,
        withdrawal_request_time: now,
        withdrawal_request_amount: (user_info.withdrawal_request_amount + user_info.stake_amount) as u64,
        withdrawal_request_reward_amount: (user_info.withdrawal_request_reward_amount + s.captured_reward) as u64,
        ..s
    }
}

pub open spec fn requested_stats(settings: Settings, stats: Stats, user_info: UserInfo, now: u32) -> Stats {
    let base = accrued(settings, stats, now);
    Stats { total_staked: (base.total_staked - user_info.stake_amount) as u64, ..base }
}

/// Moves the whole active stake and the settled reward into the pending
/// withdrawal request, adding to what is already pending, and restarts the
/// request's clock at `now`.
pub fn request_withdrawal(
    user: Identity,
    settings: &Settings,
    stats: &mut Stats,
    user_info: &mut UserInfo,
    now: u32,
) -> (r: Result<WithdrawalRequested, StakingError>)
    requires
        position_consistent(*old(stats), *old(user_info), now),
    ensures
        old(user_info).stake_amount == 0 ==> r == Err::<WithdrawalRequested, StakingError>(StakingError::NoStakeFound),
        old(user_info).stake_amount > 0 ==> (r is Ok <==> request_fits(*settings, *old(stats), *old(user_info), now)),
        old(user_info).stake_amount > 0 && r is Err ==> r == Err::<WithdrawalRequested, StakingError>(StakingError::MathOverflow),
        r is Ok ==> {
            &&& *final(stats) == requested_stats(*settings, *old(stats), *old(user_info), now)
            &&& *final(user_info) == requested_user(*settings, *old(stats), *old(user_info), now)
            &&& r == Ok::<WithdrawalRequested, StakingError>(WithdrawalRequested {
                user: user,
                added_token_amount: old(user_info).stake_amount,
                total_token_amount: final(user_info).withdrawal_request_amount,
                added_reward_amount: settled(*settings, *old(stats), *old(user_info), now).captured_reward,
                total_reward_amount: final(user_info).withdrawal_request_reward_amount,
                withdrawal_request_time: now,
            })
        },
        r is Err ==> *final(stats) == *old(stats) && *final(user_info) == *old(user_info),
        final(stats).reward_per_token_stored_numerator >= old(stats).reward_per_token_stored_numerator,
        final(stats).total_reward_promised >= old(stats).total_reward_promised,
{
    if user_info.stake_amount == 0 {
        return Err(StakingError::NoStakeFound);
    }
    let mut next_stats: Stats = *stats;
    let mut next_user: UserInfo = *user_info;
    capture_rewards(settings, &mut next_stats, &mut next_user, now)?;
    proof {
        crate::accrual::lemma_accrual_monotone(*settings, *stats, now);
    }
    let moved_stake: u64 = next_user.stake_amount;
    let moved_reward: u64 = next_user.captured_reward;
    let request_amount: u64 = match next_user.withdrawal_request_amount.checked_add(moved_stake) {
        Some(v) => v,
        None => return Err(StakingError::MathOverflow),
    };
    let request_reward: u64 = match next_user.withdrawal_request_reward_amount.checked_add(moved_reward) {
        Some(v) => v,
        None => return Err(StakingError::MathOverflow),
    };
    next_user.stake_amount = 0;
    next_stats.total_staked = next_stats.total_staked - moved_stake;
    next_user.staked_at = 0;
    next_user.captured_reward = 0;
    next_user.withdrawal_request_time = now;
    next_user.withdrawal_request_amount = request_amount;
    next_user.withdrawal_request_reward_amount = request_reward;
    *stats = next_stats;
    *user_info = next_user;
    Ok(WithdrawalRequested {
        user,
        added_token_amount: moved_stake,
        total_token_amount: request_amount,
        added_reward_amount: moved_reward,
        total_reward_amount: request_reward,
        withdrawal_request_time: now,
    })
}

// ------------------------------------------------------------ withdraw

/// The position once its pending request has been released.
pub open spec fn released(user_info: UserInfo) -> UserInfo {
    UserInfo {
        withdrawal_request_time: 0,
        withdrawal_request_amount: 0,
        withdrawal_request_reward_amount: 0,
        ..user_info
    }
}

/// Whether the pending request may be released at `now`.
pub fn delay_met(settings: &Settings, user_info: &UserInfo, now: u32) -> (r: bool)
    ensures
        r == (now >= user_info.release_time(*settings)),
{
    now as u64 >= user_info.withdrawal_request_time as u64 + settings.withdrawal_delay_seconds as u64
}

/// Releases the pending request once the delay has passed: the principal
/// from the user's escrow and the reward from the protocol reserve, whose
/// balance is `protocol_balance`. The returned record gives both amounts.
pub fn withdraw(
    user: Identity,
    settings: &Settings,
    user_info: &mut UserInfo,
    now: u32,
    protocol_balance: u64,
) -> (r: Result<Withdrawn, StakingError>)
    ensures
        !old(user_info).has_request() ==> r == Err::<Withdrawn, StakingError>(StakingError::NoWithdrawalRequest),
        old(user_info).has_request() && now < old(user_info).release_time(*settings)
            ==> r == Err::<Withdrawn, StakingError>(StakingError::WithdrawalDelayNotMet),
        old(user_info).has_request() && now >= old(user_info).release_time(*settings)
            && protocol_balance < old(user_info).withdrawal_request_reward_amount
            ==> r == Err::<Withdrawn, StakingError>(StakingError::InsufficientRewards),
        r is Ok <==> old(user_info).has_request() && now >= old(user_info).release_time(*settings)
            && protocol_balance >= old(user_info).withdrawal_request_reward_amount,
        r is Ok ==> *final(user_info) == released(*old(user_info)) && r == Ok::<Withdrawn, StakingError>(Withdrawn {
            user: user,
            token_amount: old(user_info).withdrawal_request_amount,
            reward_amount: old(user_info).withdrawal_request_reward_amount,
        }),
        r is Err ==> *final(user_info) == *old(user_info),
{
    if !(user_info.withdrawal_request_amount > 0 || user_info.withdrawal_request_reward_amount > 0) {
        return Err(StakingError::NoWithdrawalRequest);
    }
    if !delay_met(settings, user_info, now) {
        return Err(StakingError::WithdrawalDelayNotMet);
    }
    if protocol_balance < user_info.withdrawal_request_reward_amount {
        return Err(StakingError::InsufficientRewards);
    }
    let token_amount: u64 = user_info.withdrawal_request_amount;
    let reward_amount: u64 = user_info.withdrawal_request_reward_amount;
    user_info.withdrawal_request_reward_amount = 0;
    user_info.withdrawal_request_amount = 0;
    user_info.withdrawal_request_time = 0;
    Ok(Withdrawn { user, token_amount, reward_amount })
}

/// Releases the pending principal once the delay has passed and discards
/// the pending reward, which stays counted as promised.
pub fn withdraw_and_forfeit_rewards(
    user: Identity,
    settings: &Settings,
    user_info: &mut UserInfo,
    now: u32,
) -> (r: Result<WithdrawnAndForfeitedRewards, StakingError>)
    ensures
        !old(user_info).has_request() ==> r == Err::<WithdrawnAndForfeitedRewards, StakingError>(StakingError::NoWithdrawalRequest),
        old(user_info).has_request() && now < old(user_info).release_time(*settings)
            ==> r == Err::<WithdrawnAndForfeitedRewards, StakingError>(StakingError::WithdrawalDelayNotMet),
        r is Ok <==> old(user_info).has_request() && now >= old(user_info).release_time(*settings),
        r is Ok ==> *final(user_info) == released(*old(user_info))
            && r == Ok::<WithdrawnAndForfeitedRewards, StakingError>(WithdrawnAndForfeitedRewards {
            user: user,
            token_amount: old(user_info).withdrawal_request_amount,
            forfeited_reward_amount: old(user_info).withdrawal_request_reward_amount,
        }),
        r is Err ==> *final(user_info) == *old(user_info),
{
    if !(user_info.withdrawal_request_amount > 0 || user_info.withdrawal_request_reward_amount > 0) {
        return Err(StakingError::NoWithdrawalRequest);
    }
    if !delay_met(settings, user_info, now) {
        return Err(StakingError::WithdrawalDelayNotMet);
    }
    let token_amount: u64 = user_info.withdrawal_request_amount;
    let forfeited_reward_amount: u64 = user_info.withdrawal_request_reward_amount;
    user_info.withdrawal_request_reward_amount = 0;
    user_info.withdrawal_request_amount = 0;
    user_info.withdrawal_request_time = 0;
    Ok(WithdrawnAndForfeitedRewards { user, token_amount, forfeited_reward_amount })
}

} // verus!
