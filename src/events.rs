//! Records of what each successful operation did.
use vstd::prelude::*;
use crate::types::Identity;

verus! {

/// Emitted once the protocol records are created.
#[derive(Clone, Copy, Debug)]
pub struct Initialized {
    pub administrator: Identity,
    pub token_mint: Identity,
    pub withdrawal_delay_seconds: u32,
    pub reward_rate_yearly_percentage_numerator: u64,
}

/// The administrator funded the reward reserve.
#[derive(Clone, Copy, Debug)]
pub struct RewardsAdded {
    pub administrator: Identity,
    pub amount: u64,
}

/// The reward rate changed.
#[derive(Clone, Copy, Debug)]
pub struct RewardRatioConfigured {
    pub administrator: Identity,
    pub new_reward_rate_yearly_percentage_numerator: u64,
    pub new_reward_rate_per_second_per_token_numerator: u64,
}

/// The withdrawal delay changed.
#[derive(Clone, Copy, Debug)]
pub struct WithdrawalDelayConfigured {
    pub administrator: Identity,
    pub new_withdrawal_delay_seconds: u32,
}

/// A new administrator was nominated.
#[derive(Clone, Copy, Debug)]
pub struct OwnershipTransferInitiated {
    pub current_administrator: Identity,
    pub new_administrator: Identity,
}

/// The nominated administrator took over.
#[derive(Clone, Copy, Debug)]
pub struct OwnershipTransferFinalized {
    pub old_administrator: Identity,
    pub new_administrator: Identity,
}

/// A user added stake.
#[derive(Clone, Copy, Debug)]
pub struct Staked {
    pub user: Identity,
    pub amount: u64,
    pub total_user_staked: u64,
}

/// A user moved their stake and reward into the withdrawal request.
#[derive(Clone, Copy, Debug)]
pub struct WithdrawalRequested {
    pub user: Identity,
    pub added_token_amount: u64,
    pub total_token_amount: u64,
    pub added_reward_amount: u64,
    pub total_reward_amount: u64,
    pub withdrawal_request_time: u32,
}

/// A pending request was released: principal and reward are owed to the user.
#[derive(Clone, Copy, Debug)]
pub struct Withdrawn {
    pub user: Identity,
    pub token_amount: u64,
    pub reward_amount: u64,
}

/// A pending request was released without its reward.
#[derive(Clone, Copy, Debug)]
pub struct WithdrawnAndForfeitedRewards {
    pub user: Identity,
    pub token_amount: u64,
    pub forfeited_reward_amount: u64,
}

/// A user's reward as it would be settled now.
#[derive(Clone, Copy, Debug)]
pub struct CurrentRewardsViewed {
    pub user: Identity,
    pub captured_reward: u64,
    pub uncaptured_reward: u64,
    pub total_reward: u64,
}

/// Funded reward not yet promised; negative when under-funded.
#[derive(Clone, Copy, Debug)]
pub struct UnallocatedRewardsViewed {
    pub unallocated_rewards: i128,
}

/// Seconds until the funded reward runs out at the current rate.
#[derive(Clone, Copy, Debug)]
pub struct RewardRunwayViewed {
    pub available_rewards: u64,
    pub runway_seconds: u64,
}

} // verus!
