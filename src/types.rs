//! Records of the ledger: configuration, global accumulator, user positions.
use vstd::prelude::*;

verus! {

/// A 32-byte account identity.
#[derive(Clone, Copy, Debug)]
pub struct Identity {
    pub bytes: [u8; 32],
}

impl Identity {
    /// The all-zero identity, which marks a position never claimed by a user.
    pub fn zero() -> (r: Identity)
        ensures
            r.is_zero(),
    {
        Identity { bytes: [0u8; 32] }
    }

    pub open spec fn is_zero(self) -> bool {
        forall|i: int| 0 <= i < 32 ==> self.bytes@[i] == 0
    }

    /// Whether this is the all-zero identity.
    pub fn is_zero_exec(&self) -> (r: bool)
        ensures
            r == self.is_zero(),
    {
        let mut i: usize = 0;
        while i < 32
            invariant
                0 <= i <= 32,
                self.bytes@.len() == 32,
                forall|j: int| 0 <= j < i ==> self.bytes@[j] == 0,
            decreases 32 - i,
        {
            if self.bytes[i] != 0 {
                return false;
            }
            i = i + 1;
        }
        true
    }

    /// Byte-wise equality of two identities.
    pub fn same_as(&self, other: &Identity) -> (r: bool)
        ensures
            r == (self.bytes@ == other.bytes@),
    {
        let mut i: usize = 0;
        while i < 32
            invariant
                0 <= i <= 32,
                self.bytes@.len() == 32,
                other.bytes@.len() == 32,
                forall|j: int| 0 <= j < i ==> self.bytes@[j] == other.bytes@[j],
            decreases 32 - i,
        {
            if self.bytes[i] != other.bytes[i] {
                return false;
            }
            i = i + 1;
        }
        assert(self.bytes@ =~= other.bytes@);
        true
    }
}

impl PartialEq for Identity {
    fn eq(&self, other: &Identity) -> (r: bool) {
        self.same_as(other)
    }
}

impl vstd::std_specs::cmp::PartialEqSpecImpl for Identity {
    open spec fn obeys_eq_spec() -> bool {
        true
    }

    open spec fn eq_spec(&self, other: &Identity) -> bool {
        self.bytes@ == other.bytes@
    }
}

/// Protocol-wide configuration, mutated only by administrator operations.
#[derive(Clone, Copy, Debug)]
pub struct Settings {
    pub administrator: Identity,
    pub pending_administrator: Option<Identity>,
    pub token_mint: Identity,
    pub withdrawal_delay_seconds: u32,
    pub reward_rate_per_second_per_token_numerator: u64,
}

/// The global reward accumulator.
#[derive(Clone, Copy, Debug)]
pub struct Stats {
    pub reward_per_token_stored_numerator: u64,
    pub last_update_time: u32,
    pub total_staked: u64,
    pub total_reward_promised: u64,
    pub total_reward_provided: u64,
}

/// One user's position: active stake, settled reward and pending withdrawal.
#[derive(Clone, Copy, Debug)]
pub struct UserInfo {
    pub user: Identity,
    pub stake_amount: u64,
    pub staked_at: u32,
    pub reward_per_token_paid_numerator: u64,
    pub captured_reward: u64,
    pub withdrawal_request_time: u32,
    pub withdrawal_request_amount: u64,
    pub withdrawal_request_reward_amount: u64,
}

impl UserInfo {
    /// A position that no user has claimed yet.
    pub fn empty() -> (r: UserInfo)
        ensures
            r.user.is_zero(),
            r.stake_amount == 0,
            r.staked_at == 0,
            r.reward_per_token_paid_numerator == 0,
            r.captured_reward == 0,
            r.withdrawal_request_time == 0,
            r.withdrawal_request_amount == 0,
            r.withdrawal_request_reward_amount == 0,
    {
        UserInfo {
            user: Identity::zero(),
            stake_amount: 0,
            staked_at: 0,
            reward_per_token_paid_numerator: 0,
            captured_reward: 0,
            withdrawal_request_time: 0,
            withdrawal_request_amount: 0,
            withdrawal_request_reward_amount: 0,
        }
    }

    /// Whether a withdrawal request is waiting to be released.
    pub open spec fn has_request(self) -> bool {
        self.withdrawal_request_amount > 0 || self.withdrawal_request_reward_amount > 0
    }

    /// First instant at which the pending request may be released.
    pub open spec fn release_time(self, settings: Settings) -> int {
        self.withdrawal_request_time + settings.withdrawal_delay_seconds
    }
}

#[derive(Clone, Copy, Debug, PartialEq, Eq, Structural)]
pub enum StakingError {
    /// A zero or out-of-range quantity.
    InvalidAmount,
    NoStakeFound,
    NoWithdrawalRequest,
    WithdrawalDelayNotMet,
    /// The reward reserve holds less than the reward owed.
    InsufficientRewards,
    UnauthorizedOwnershipTransfer,
    /// A result would leave the range of its integer type.
    MathOverflow,
}

} // verus!
