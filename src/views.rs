//! Read-only projections of the pool at a given instant. They apply the
//! same accrual and settlement math as the operations, to copies.
use vstd::prelude::*;
use crate::accrual::{
    accrual_fits, accrued, calculate_unallocated_rewards, capture_rewards, settle_fits, settled,
    uncaptured, unallocated,
};
use crate::events::{CurrentRewardsViewed, RewardRunwayViewed, UnallocatedRewardsViewed};
use crate::math::PRECISION;
use crate::types::{Identity, Settings, StakingError, Stats, UserInfo};

verus! {

/// The user's total reward as a settlement at `now` would capture it.
pub fn view_current_rewards(
    user: Identity,
    settings: &Settings,
    stats: &Stats,
    user_info: &UserInfo,
    now: u32,
) -> (r: Result<CurrentRewardsViewed, StakingError>)
    requires
        now >= stats.last_update_time,
        user_info.reward_per_token_paid_numerator <= stats.reward_per_token_stored_numerator,
    ensures
        r is Ok <==> settle_fits(*settings, *stats, *user_info, now),
        r is Err ==> r == Err::<CurrentRewardsViewed, StakingError>(StakingError::MathOverflow),
        r is Ok ==> r == Ok::<CurrentRewardsViewed, StakingError>(CurrentRewardsViewed {
            user: user,
            captured_reward: user_info.captured_reward,
            uncaptured_reward: uncaptured(
                user_info.stake_amount as int,
                accrued(*settings, *stats, now).reward_per_token_stored_numerator as int,
                user_info.reward_per_token_paid_numerator as int,
            ) as u64,
            total_reward: settled(*settings, *stats, *user_info, now).captured_reward,
        }),
{
    let mut projected_stats: Stats = *stats;
    let mut projected_user: UserInfo = *user_info;
    capture_rewards(settings, &mut projected_stats, &mut projected_user, now)?;
    let total_reward: u64 = projected_user.captured_reward;
    Ok(CurrentRewardsViewed {
        user,
        captured_reward: user_info.captured_reward,
        uncaptured_reward: total_reward - user_info.captured_reward,
        total_reward,
    })
}

/// Funded reward minus reward promised, projected to `now`.
pub fn view_unallocated_rewards(settings: &Settings, stats: &Stats, now: u32) -> (r: Result<
    UnallocatedRewardsViewed,
    StakingError,
>)
    requires
        now >= stats.last_update_time,
    ensures
        r is Ok <==> accrual_fits(*settings, *stats, now),
        r is Err ==> r == Err::<UnallocatedRewardsViewed, StakingError>(StakingError::MathOverflow),
        r matches Ok(v) ==> v.unallocated_rewards == unallocated(*settings, *stats, now),
{
    let unallocated_rewards: i128 = calculate_unallocated_rewards(settings, stats, now)?;
    Ok(UnallocatedRewardsViewed { unallocated_rewards })
}

/// Funded reward not yet promised at `now`, or zero when under-funded.
pub open spec fn available_rewards(settings: Settings, stats: Stats, now: u32) -> int {
    let u = unallocated(settings, stats, now);
    if u > 0 {
        u
    } else {
        0
    }
}

/// Reward promised to all stakers together per second at the current rate.
pub open spec fn consumption_per_second(settings: Settings, stats: Stats) -> int {
    stats.total_staked * settings.reward_rate_per_second_per_token_numerator / PRECISION as int
}

/// Seconds until the available reward is used up; `u64::MAX` when nothing
/// is consumed or when the runway exceeds the `u32` range of timestamps.
pub open spec fn runway(settings: Settings, stats: Stats, now: u32) -> int {
    let per_second = consumption_per_second(settings, stats);
    let seconds = available_rewards(settings, stats, now) / per_second;
    if per_second == 0 {
        u64::MAX as int
    } else if seconds > u32::MAX {
        u64::MAX as int
    } else {
        seconds
    }
}

pub fn view_reward_runway(settings: &Settings, stats: &Stats, now: u32) -> (r: Result<
    RewardRunwayViewed,
    StakingError,
>)
    requires
        now >= stats.last_update_time,
    ensures
        r is Ok <==> accrual_fits(*settings, *stats, now),
        r is Err ==> r == Err::<RewardRunwayViewed, StakingError>(StakingError::MathOverflow),
        r matches Ok(v) ==> v.available_rewards == available_rewards(*settings, *stats, now)
            && v.runway_seconds == runway(*settings, *stats, now),
{
    let unallocated_rewards: i128 = calculate_unallocated_rewards(settings, stats, now)?;
    let available_rewards: u64 = if unallocated_rewards > 0 {
        unallocated_rewards as u64
    } else {
        0
    };
    let staked: u128 = stats.total_staked as u128;
    let rate: u128 = settings.reward_rate_per_second_per_token_numerator as u128;
    assert(staked * rate <= u64::MAX as int * u64::MAX as int) by (nonlinear_arith)
        requires staked <= u64::MAX, rate <= u64::MAX;
    assert(u64::MAX as int * u64::MAX as int <= u128::MAX) by (nonlinear_arith);
    let rewards_per_second: u128 = staked * rate / (PRECISION as u128);
    if rewards_per_second == 0 {
        return Ok(RewardRunwayViewed { available_rewards, runway_seconds: u64::MAX });
    }
    let seconds: u128 = (available_rewards as u128) / rewards_per_second;
    let runway_seconds: u64 = if seconds > u32::MAX as u128 {
        u64::MAX
    } else {
        seconds as u64
    };
    Ok(RewardRunwayViewed { available_rewards, runway_seconds })
}

} // verus!
