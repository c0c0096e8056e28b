//! The global reward-per-token accumulator and per-user settlement.
use vstd::prelude::*;
use crate::math::{scaled_mul_div, scaled_mul_div_spec, PRECISION};
use crate::types::{Settings, Stats, StakingError, UserInfo};
use vstd::arithmetic::div_mod::{lemma_fundamental_div_mod, lemma_mod_bound};

verus! {

/// Index increase owed for the time from the last update up to `now`;
/// nothing accrues while no stake is active.
pub open spec fn index_increment(settings: Settings, stats: Stats, now: u32) -> int {
    if stats.total_staked == 0 {
        0
    } else {
        settings.reward_rate_per_second_per_token_numerator * (now - stats.last_update_time)
    }
}

/// Reward promised to all stakers together for that increase.
pub open spec fn promised_increment(settings: Settings, stats: Stats, now: u32) -> int {
    scaled_mul_div_spec(
        stats.total_staked as int,
        index_increment(settings, stats, now),
        PRECISION as int,
    )
}

/// Whether bringing the accumulator up to `now` stays within `u64`.
pub open spec fn accrual_fits(settings: Settings, stats: Stats, now: u32) -> bool {
    &&& stats.reward_per_token_stored_numerator + index_increment(settings, stats, now) <= u64::MAX
    &&& stats.total_reward_promised + promised_increment(settings, stats, now) <= u64::MAX
}

/// The accumulator brought up to `now`.
pub open spec fn accrued(settings: Settings, stats: Stats, now: u32) -> Stats {
    Stats {
        reward_per_token_stored_numerator: (stats.reward_per_token_stored_numerator
            + index_increment(settings, stats, now)) as u64,
        last_update_time: now,
        total_reward_promised: (stats.total_reward_promised + promised_increment(
            settings,
            stats,
            now,
        )) as u64,
        ..stats
    }
}

/// Bringing the accumulator up to date never lowers the reward-per-token
/// index nor the total reward promised.
pub proof fn lemma_accrual_monotone(settings: Settings, stats: Stats, now: u32)
    requires
        now >= stats.last_update_time,
        accrual_fits(settings, stats, now),
    ensures
        accrued(settings, stats, now).reward_per_token_stored_numerator
            >= stats.reward_per_token_stored_numerator,
        accrued(settings, stats, now).total_reward_promised >= stats.total_reward_promised,
{
    let rate = settings.reward_rate_per_second_per_token_numerator as int;
    let elapsed = now - stats.last_update_time;
    assert(rate * elapsed >= 0) by (nonlinear_arith)
        requires rate >= 0, elapsed >= 0;
    let inc = index_increment(settings, stats, now);
    assert(inc >= 0);
    let staked = stats.total_staked as int;
    assert(staked * inc / (PRECISION as int) >= 0) by (nonlinear_arith)
        requires staked >= 0, inc >= 0;
}

/// Reward earned by `stake` while the index rose from `paid` to `stored`.
pub open spec fn uncaptured(stake: int, stored: int, paid: int) -> int {
    scaled_mul_div_spec(stake, stored - paid, PRECISION as int)
}

/// Whether settling `user` at `now` stays within `u64`.
pub open spec fn settle_fits(settings: Settings, stats: Stats, user: UserInfo, now: u32) -> bool {
    &&& accrual_fits(settings, stats, now)
    &&& user.captured_reward + uncaptured(
        user.stake_amount as int,
        accrued(settings, stats, now).reward_per_token_stored_numerator as int,
        user.reward_per_token_paid_numerator as int,
    ) <= u64::MAX
}

/// `user` after settlement against the accumulator brought up to `now`.
pub open spec fn settled(settings: Settings, stats: Stats, user: UserInfo, now: u32) -> UserInfo {
    let index = accrued(settings, stats, now).reward_per_token_stored_numerator;
    UserInfo {
        captured_reward: (user.captured_reward + uncaptured(
            user.stake_amount as int,
            index as int,
            user.reward_per_token_paid_numerator as int,
        )) as u64,
        reward_per_token_paid_numerator: index,
        ..user
    }
}

/// Brings the accumulator up to `now`. Fails with `MathOverflow`, changing
/// nothing, when a total would leave `u64`.
pub fn update_accumulators(settings: &Settings, stats: &mut Stats, now: u32) -> (r: Result<
    (),
    StakingError,
>)
    requires
        now >= old(stats).last_update_time,
    ensures
        r is Ok <==> accrual_fits(*settings, *old(stats), now),
        r is Ok ==> *final(stats) == accrued(*settings, *old(stats), now),
        r is Err ==> r == Err::<(), StakingError>(StakingError::MathOverflow) && *final(stats)
            == *old(stats),
{
    if stats.total_staked == 0 {
        stats.last_update_time = now;
        return Ok(());
    }
    let elapsed: u32 = now - stats.last_update_time;
    let increment: u64 = match settings.reward_rate_per_second_per_token_numerator.checked_mul(
        elapsed as u64,
    ) {
        Some(v) => v,
        None => return Err(StakingError::MathOverflow),
    };
    let stored: u64 = match stats.reward_per_token_stored_numerator.checked_add(increment) {
        Some(v) => v,
        None => return Err(StakingError::MathOverflow),
    };
    let new_promise: u64 = match scaled_mul_div(stats.total_staked, increment, PRECISION) {
        Some(v) => v,
        None => {
            assert(stats.total_reward_promised + promised_increment(*settings, *stats, now)
                > u64::MAX);
            return Err(StakingError::MathOverflow);
        },
    };
    let promised: u64 = match stats.total_reward_promised.checked_add(new_promise) {
        Some(v) => v,
        None => return Err(StakingError::MathOverflow),
    };
    stats.reward_per_token_stored_numerator = stored;
    stats.total_reward_promised = promised;
    stats.last_update_time = now;
    Ok(())
}

/// Reward earned by `stake_amount` tokens while the index rose from
/// `reward_per_token_paid_numerator` to `reward_per_token_stored_numerator`,
/// rounded down. Fails with `MathOverflow` when it does not fit in `u64`.
pub fn calculate_uncaptured_rewards(
    stake_amount: u64,
    reward_per_token_stored_numerator: u64,
    reward_per_token_paid_numerator: u64,
) -> (r: Result<u64, StakingError>)
    requires
        reward_per_token_paid_numerator <= reward_per_token_stored_numerator,
    ensures
        r is Ok <==> uncaptured(
            stake_amount as int,
            reward_per_token_stored_numerator as int,
            reward_per_token_paid_numerator as int,
        ) <= u64::MAX,
        r matches Ok(v) ==> v == uncaptured(
            stake_amount as int,
            reward_per_token_stored_numerator as int,
            reward_per_token_paid_numerator as int,
        ),
        r is Err ==> r == Err::<u64, StakingError>(StakingError::MathOverflow),
{
    let diff: u64 = reward_per_token_stored_numerator - reward_per_token_paid_numerator;
    match scaled_mul_div(stake_amount, diff, PRECISION) {
        Some(v) => Ok(v),
        None => Err(StakingError::MathOverflow),
    }
}

/// Brings the accumulator up to `now`, then folds the user's share of the
/// index increase since their last settlement into `captured_reward`.
pub fn capture_rewards(
    settings: &Settings,
    stats: &mut Stats,
    user_info: &mut UserInfo,
    now: u32,
) -> (r: Result<(), StakingError>)
    requires
        now >= old(stats).last_update_time,
        old(user_info).reward_per_token_paid_numerator
            <= old(stats).reward_per_token_stored_numerator,
    ensures
        r is Ok <==> settle_fits(*settings, *old(stats), *old(user_info), now),
        r is Ok ==> *final(stats) == accrued(*settings, *old(stats), now) && *final(user_info)
            == settled(*settings, *old(stats), *old(user_info), now),
        r is Err ==> r == Err::<(), StakingError>(StakingError::MathOverflow) && *final(stats)
            == *old(stats) && *final(user_info) == *old(user_info),
{
    let mut next: Stats = *stats;
    update_accumulators(settings, &mut next, now)?;
    let earned: u64 = calculate_uncaptured_rewards(
        user_info.stake_amount,
        next.reward_per_token_stored_numerator,
        user_info.reward_per_token_paid_numerator,
    )?;
    let captured: u64 = match user_info.captured_reward.checked_add(earned) {
        Some(v) => v,
        None => return Err(StakingError::MathOverflow),
    };
    *stats = next;
    user_info.captured_reward = captured;
    user_info.reward_per_token_paid_numerator = next.reward_per_token_stored_numerator;
    Ok(())
}

/// Total reward promised to stakers, projected to `now` without changing
/// the accumulator.
pub fn calculate_total_promised_rewards(settings: &Settings, stats: &Stats, now: u32) -> (r:
    Result<u64, StakingError>)
    requires
        now >= stats.last_update_time,
    ensures
        r is Ok <==> accrual_fits(*settings, *stats, now),
        r matches Ok(v) ==> v == accrued(*settings, *stats, now).total_reward_promised,
        r is Err ==> r == Err::<u64, StakingError>(StakingError::MathOverflow),
{
    let mut projected: Stats = *stats;
    update_accumulators(settings, &mut projected, now)?;
    Ok(projected.total_reward_promised)
}

/// Reward funded but not yet promised at `now`; negative when the pool
/// has promised more than it was given.
pub open spec fn unallocated(settings: Settings, stats: Stats, now: u32) -> int {
    stats.total_reward_provided - accrued(settings, stats, now).total_reward_promised
}

/// Reward funded minus reward promised, projected to `now`.
pub fn calculate_unallocated_rewards(settings: &Settings, stats: &Stats, now: u32) -> (r: Result<
    i128,
    StakingError,
>)
    requires
        now >= stats.last_update_time,
    ensures
        r is Ok <==> accrual_fits(*settings, *stats, now),
        r matches Ok(v) ==> v == unallocated(*settings, *stats, now),
        r is Err ==> r == Err::<i128, StakingError>(StakingError::MathOverflow),
{
    let promised: u64 = calculate_total_promised_rewards(settings, stats, now)?;
    Ok(stats.total_reward_provided as i128 - promised as i128)
}

/// Settling a position twice at the same instant is a no-op the second
/// time: the accumulator is already current and nothing more is captured.
pub proof fn lemma_settle_idempotent(settings: Settings, stats: Stats, user: UserInfo, now: u32)
    requires
        now >= stats.last_update_time,
        user.reward_per_token_paid_numerator <= stats.reward_per_token_stored_numerator,
        settle_fits(settings, stats, user, now),
    ensures
        ({
            let once_stats = accrued(settings, stats, now);
            let once_user = settled(settings, stats, user, now);
            &&& settle_fits(settings, once_stats, once_user, now)
            &&& accrued(settings, once_stats, now) == once_stats
            &&& settled(settings, once_stats, once_user, now) == once_user
        }),
{
    let once_stats = accrued(settings, stats, now);
    let once_user = settled(settings, stats, user, now);
    lemma_accrual_monotone(settings, stats, now);
    let rate = settings.reward_rate_per_second_per_token_numerator as int;
    assert(rate * 0 == 0);
    assert(index_increment(settings, once_stats, now) == 0);
    let staked = once_stats.total_staked as int;
    assert(staked * 0 / (PRECISION as int) == 0);
    assert(promised_increment(settings, once_stats, now) == 0);
    let stake = once_user.stake_amount as int;
    assert(stake * 0 / (PRECISION as int) == 0);
    let index = once_stats.reward_per_token_stored_numerator as int;
    assert(uncaptured(stake, index, index) == 0);
}

/// Rounding down both parts of a sum loses at most one unit against
/// rounding down the sum.
pub proof fn lemma_floor_split(a: int, b: int, d: int)
    requires
        a >= 0,
        b >= 0,
        d > 0,
    ensures
        a / d + b / d <= (a + b) / d <= a / d + b / d + 1,
{
    lemma_fundamental_div_mod(a, d);
    lemma_fundamental_div_mod(b, d);
    lemma_fundamental_div_mod(a + b, d);
    lemma_mod_bound(a, d);
    lemma_mod_bound(b, d);
    lemma_mod_bound(a + b, d);
    let k = (a + b) / d - a / d - b / d;
    assert(d * k == a % d + b % d - (a + b) % d) by (nonlinear_arith)
        requires
            a == d * (a / d) + a % d,
            b == d * (b / d) + b % d,
            a + b == d * ((a + b) / d) + (a + b) % d,
            k == (a + b) / d - a / d - b / d;
    assert(0 <= k <= 1) by (nonlinear_arith)
        requires
            d * k == a % d + b % d - (a + b) % d,
            0 <= a % d < d,
            0 <= b % d < d,
            0 <= (a + b) % d < d,
            d > 0;
}

/// Fair share: for one stake and an index rising from `p0` through `p1` to
/// `p2`, a user who settles at `p1` and again at `p2` captures the same as a
/// user with an equal stake who settles once at `p2`, up to one unit of
/// rounding.
pub proof fn lemma_fair_share(stake: int, p0: int, p1: int, p2: int)
    requires
        stake >= 0,
        p0 <= p1 <= p2,
    ensures
        uncaptured(stake, p1, p0) + uncaptured(stake, p2, p1) <= uncaptured(stake, p2, p0),
        uncaptured(stake, p2, p0) <= uncaptured(stake, p1, p0) + uncaptured(stake, p2, p1) + 1,
{
    let a = stake * (p1 - p0);
    let b = stake * (p2 - p1);
    assert(a >= 0 && b >= 0 && stake * (p2 - p0) == a + b) by (nonlinear_arith)
        requires
            stake >= 0,
            p0 <= p1 <= p2,
            a == stake * (p1 - p0),
            b == stake * (p2 - p1);
    lemma_floor_split(a, b, PRECISION as int);
}

} // verus!
