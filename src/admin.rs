//! Administrator operations: setup, funding, rate and delay changes, and
//! the two-phase hand-over of the administrator role. That the caller is
//! the administrator is established before these are invoked.
use vstd::prelude::*;
use crate::accrual::{accrual_fits, accrued, update_accumulators};
use crate::events::{
    Initialized, OwnershipTransferFinalized, OwnershipTransferInitiated, RewardRatioConfigured,
    RewardsAdded, WithdrawalDelayConfigured,
};
use crate::math::{
    days_to_seconds, per_second_rate, yearly_to_per_second_rate, MAX_WITHDRAWAL_DELAY_DAYS, SECONDS_PER_DAY,
};
use crate::types::{Identity, Settings, StakingError, Stats};

verus! {

/// Creates the configuration and an empty accumulator whose clock starts at
/// `now`. The delay is given in days and may not exceed 31.
pub fn initialize(
    administrator: Identity,
    token_mint: Identity,
    withdrawal_delay_days: u64,
    reward_rate_yearly_percentage_numerator: u64,
    now: u32,
) -> (r: Result<(Settings, Stats, Initialized), StakingError>)
    ensures
        r is Err <==> withdrawal_delay_days > MAX_WITHDRAWAL_DELAY_DAYS,
        r is Err ==> r == Err::<(Settings, Stats, Initialized), StakingError>(StakingError::InvalidAmount),
        r matches Ok((settings, stats, event)) ==> {
            &&& settings == Settings {
                administrator: administrator,
                pending_administrator: None,
                token_mint: token_mint,
                withdrawal_delay_seconds: (withdrawal_delay_days * SECONDS_PER_DAY) as u32,
                reward_rate_per_second_per_token_numerator: per_second_rate(
                    reward_rate_yearly_percentage_numerator as int,
                ) as u64,
            }
            &&& stats == Stats {
                reward_per_token_stored_numerator: 0,
                last_update_time: now,
                total_staked: 0,
                total_reward_promised: 0,
                total_reward_provided: 0,
            }
            &&& event == Initialized {
                administrator: administrator,
                token_mint: token_mint,
                withdrawal_delay_seconds: settings.withdrawal_delay_seconds,
                reward_rate_yearly_percentage_numerator: reward_rate_yearly_percentage_numerator,
            }
        },
{
    if withdrawal_delay_days > MAX_WITHDRAWAL_DELAY_DAYS {
        return Err(StakingError::InvalidAmount);
    }
    let withdrawal_delay_seconds: u32 = days_to_seconds(withdrawal_delay_days);
    let settings = Settings {
        administrator,
        pending_administrator: None,
        token_mint,
        withdrawal_delay_seconds,
        reward_rate_per_second_per_token_numerator: yearly_to_per_second_rate(
            reward_rate_yearly_percentage_numerator,
        ),
    };
    let stats = Stats {
        reward_per_token_stored_numerator: 0,
        last_update_time: now,
        total_staked: 0,
        total_reward_promised: 0,
        total_reward_provided: 0,
    };
    let event = Initialized {
        administrator,
        token_mint,
        withdrawal_delay_seconds,
        reward_rate_yearly_percentage_numerator,
    };
    Ok((settings, stats, event))
}

/// Records `amount` of newly funded reward. The transfer into the reserve
/// is the caller's.
pub fn add_rewards(administrator: Identity, stats: &mut Stats, amount: u64) -> (r: Result<
    RewardsAdded,
    StakingError,
>)
    ensures
        amount == 0 ==> r == Err::<RewardsAdded, StakingError>(StakingError::InvalidAmount),
        amount > 0 && old(stats).total_reward_provided + amount > u64::MAX ==> r == Err::<
            RewardsAdded,
            StakingError,
        >(StakingError::MathOverflow),
        r is Ok <==> amount > 0 && old(stats).total_reward_provided + amount <= u64::MAX,
        r is Ok ==> *final(stats) == (Stats {
            total_reward_provided: (old(stats).total_reward_provided + amount) as u64,
            ..*old(stats)
        }) && r == Ok::<RewardsAdded, StakingError>(
            RewardsAdded { administrator: administrator, amount: amount },
        ),
        r is Err ==> *final(stats) == *old(stats),
{
    if amount == 0 {
        return Err(StakingError::InvalidAmount);
    }
    stats.total_reward_provided = match stats.total_reward_provided.checked_add(amount) {
        Some(v) => v,
        None => return Err(StakingError::MathOverflow),
    };
    Ok(RewardsAdded { administrator, amount })
}

/// Sets a new reward rate, given as a yearly numerator, after bringing the
/// accumulator up to `now` under the old rate.
pub fn configure_reward_ratio(
    administrator: Identity,
    settings: &mut Settings,
    stats: &mut Stats,
    new_reward_rate_yearly_percentage_numerator: u64,
    now: u32,
) -> (r: Result<RewardRatioConfigured, StakingError>)
    requires
        now >= old(stats).last_update_time,
    ensures
        r is Ok <==> accrual_fits(*old(settings), *old(stats), now),
        r is Ok ==> {
            &&& *final(stats) == accrued(*old(settings), *old(stats), now)
            &&& *final(settings) == (Settings {
                reward_rate_per_second_per_token_numerator: per_second_rate(
                    new_reward_rate_yearly_percentage_numerator as int,
                ) as u64,
                ..*old(settings)
            })
            &&& r == Ok::<RewardRatioConfigured, StakingError>(RewardRatioConfigured {
                administrator: administrator,
                new_reward_rate_yearly_percentage_numerator:
                    new_reward_rate_yearly_percentage_numerator,
                new_reward_rate_per_second_per_token_numerator:
                    final(settings).reward_rate_per_second_per_token_numerator,
            })
        },
        r is Err ==> r == Err::<RewardRatioConfigured, StakingError>(StakingError::MathOverflow)
            && *final(settings) == *old(settings) && *final(stats) == *old(stats),
        final(stats).reward_per_token_stored_numerator
            >= old(stats).reward_per_token_stored_numerator,
        final(stats).total_reward_promised >= old(stats).total_reward_promised,
{
    update_accumulators(settings, stats, now)?;
    proof {
        crate::accrual::lemma_accrual_monotone(*old(settings), *old(stats), now);
    }
    let new_rate: u64 = yearly_to_per_second_rate(new_reward_rate_yearly_percentage_numerator);
    settings.reward_rate_per_second_per_token_numerator = new_rate;
    Ok(RewardRatioConfigured {
        administrator,
        new_reward_rate_yearly_percentage_numerator,
        new_reward_rate_per_second_per_token_numerator: new_rate,
    })
}

/// Sets the withdrawal delay, given in days, at most 31.
pub fn configure_withdrawal_delay(
    administrator: Identity,
    settings: &mut Settings,
    new_withdrawal_delay_days: u64,
) -> (r: Result<WithdrawalDelayConfigured, StakingError>)
    ensures
        r is Err <==> new_withdrawal_delay_days > MAX_WITHDRAWAL_DELAY_DAYS,
        r is Err ==> r == Err::<WithdrawalDelayConfigured, StakingError>(
            StakingError::InvalidAmount,
        ) && *final(settings) == *old(settings),
        r is Ok ==> *final(settings) == (Settings {
            withdrawal_delay_seconds: (new_withdrawal_delay_days * SECONDS_PER_DAY) as u32,
            ..*old(settings)
        }) && r == Ok::<WithdrawalDelayConfigured, StakingError>(
            WithdrawalDelayConfigured {
                administrator: administrator,
                new_withdrawal_delay_seconds: final(settings).withdrawal_delay_seconds,
            },
        ),
{
    if new_withdrawal_delay_days > MAX_WITHDRAWAL_DELAY_DAYS {
        return Err(StakingError::InvalidAmount);
    }
    settings.withdrawal_delay_seconds = days_to_seconds(new_withdrawal_delay_days);
    Ok(
        WithdrawalDelayConfigured {
            administrator,
            new_withdrawal_delay_seconds: settings.withdrawal_delay_seconds,
        },
    )
}

/// Nominates `new_administrator`; the role moves only once they finalize.
pub fn initiate_ownership_transfer(settings: &mut Settings, new_administrator: Identity) -> (r:
    OwnershipTransferInitiated)
    ensures
        *final(settings) == (Settings {
            pending_administrator: Some(new_administrator),
            ..*old(settings)
        }),
        r == (OwnershipTransferInitiated {
            current_administrator: old(settings).administrator,
            new_administrator: new_administrator,
        }),
{
    settings.pending_administrator = Some(new_administrator);
    OwnershipTransferInitiated { current_administrator: settings.administrator, new_administrator }
}

/// Whether `candidate` is the nominated administrator.
pub open spec fn is_pending(settings: Settings, candidate: Identity) -> bool {
    settings.pending_administrator matches Some(p) && p.bytes@ == candidate.bytes@
}

/// Hands the administrator role to `new_administrator`, who must be the
/// nominated one, and clears the nomination.
pub fn finalize_ownership_transfer(settings: &mut Settings, new_administrator: Identity) -> (r:
    Result<OwnershipTransferFinalized, StakingError>)
    ensures
        r is Ok <==> is_pending(*old(settings), new_administrator),
        r is Err ==> r == Err::<OwnershipTransferFinalized, StakingError>(
            StakingError::UnauthorizedOwnershipTransfer,
        ) && *final(settings) == *old(settings),
        r is Ok ==> *final(settings) == (Settings {
            administrator: new_administrator,
            pending_administrator: None,
            ..*old(settings)
        }) && r == Ok::<OwnershipTransferFinalized, StakingError>(
            OwnershipTransferFinalized {
                old_administrator: old(settings).administrator,
                new_administrator: new_administrator,
            },
        ),
{
    let authorized: bool = match &settings.pending_administrator {
        Some(p) => p.same_as(&new_administrator),
        None => false,
    };
    if !authorized {
        return Err(StakingError::UnauthorizedOwnershipTransfer);
    }
    let old_administrator: Identity = settings.administrator;
    settings.administrator = new_administrator;
    settings.pending_administrator = None;
    Ok(OwnershipTransferFinalized { old_administrator, new_administrator })
}

} // verus!
