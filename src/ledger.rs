//! The whole pool: configuration, accumulator, and one position per user
//! identity, created on a user's first deposit. Its well-formedness holds
//! the invariant that the accumulator's total stake is the sum of all
//! positions' stakes, and every operation preserves it.
use vstd::prelude::*;
use crate::accrual::{accrual_fits, accrued, lemma_accrual_monotone};
use crate::engine::{
    position_consistent, request_fits, requested_stats, requested_user, released, stake_fits,
    staked_stats, staked_user,
};
use crate::accrual::{settle_fits, settled};
use crate::events::{
    CurrentRewardsViewed, RewardRatioConfigured, RewardsAdded, Staked, WithdrawalRequested, Withdrawn,
    WithdrawnAndForfeitedRewards,
};
use crate::math::per_second_rate;
use crate::types::{Identity, Settings, StakingError, Stats, UserInfo};

verus! {

/// Sum of the active stakes of `users`.
pub open spec fn total_stake(users: Seq<UserInfo>) -> int
    decreases users.len(),
{
    if users.len() == 0 {
        0
    } else {
        total_stake(users.drop_last()) + users.last().stake_amount
    }
}

proof fn lemma_total_stake_push(users: Seq<UserInfo>, u: UserInfo)
    ensures
        total_stake(users.push(u)) == total_stake(users) + u.stake_amount,
{
    assert(users.push(u).drop_last() =~= users);
}

proof fn lemma_total_stake_update(users: Seq<UserInfo>, i: int, u: UserInfo)
    requires
        0 <= i < users.len(),
    ensures
        total_stake(users.update(i, u)) == total_stake(users) - users[i].stake_amount
            + u.stake_amount,
    decreases users.len(),
{
    if i == users.len() - 1 {
        assert(users.update(i, u).drop_last() =~= users.drop_last());
    } else {
        assert(users.update(i, u).drop_last() =~= users.drop_last().update(i, u));
        lemma_total_stake_update(users.drop_last(), i, u);
    }
}

proof fn lemma_stake_within_total(users: Seq<UserInfo>, i: int)
    requires
        0 <= i < users.len(),
    ensures
        users[i].stake_amount <= total_stake(users),
        total_stake(users) >= 0,
    decreases users.len(),
{
    lemma_total_stake_nonneg(users.drop_last());
    if i < users.len() - 1 {
        lemma_stake_within_total(users.drop_last(), i);
    }
}

proof fn lemma_total_stake_nonneg(users: Seq<UserInfo>)
    ensures
        total_stake(users) >= 0,
    decreases users.len(),
{
    if users.len() > 0 {
        lemma_total_stake_nonneg(users.drop_last());
    }
}

/// A position that no user has claimed.
pub open spec fn is_vacant(u: UserInfo) -> bool {
    &&& u.user.is_zero()
    &&& u.stake_amount == 0
    &&& u.staked_at == 0
    &&& u.reward_per_token_paid_numerator == 0
    &&& u.captured_reward == 0
    &&& u.withdrawal_request_time == 0
    &&& u.withdrawal_request_amount == 0
    &&& u.withdrawal_request_reward_amount == 0
}

/// The position a user has before their first deposit.
pub open spec fn vacant() -> UserInfo {
    choose|u: UserInfo| is_vacant(u)
}

pub struct Ledger {
    pub settings: Settings,
    pub stats: Stats,
    pub users: Vec<UserInfo>,
}

impl Ledger {
    /// Positions are claimed, keyed by distinct identities, not ahead of the
    /// index, and their stakes add up to the accumulator's total stake.
    pub open spec fn wf(&self) -> bool {
        &&& self.stats.total_staked == total_stake(self.users@)
        &&& forall|i: int|
            0 <= i < self.users@.len() ==> (#[trigger] self.users@[i]).reward_per_token_paid_numerator
                <= self.stats.reward_per_token_stored_numerator
        &&& forall|i: int| 0 <= i < self.users@.len() ==> !(#[trigger] self.users@[i]).user.is_zero()
        &&& forall|i: int, j: int|
            0 <= i < self.users@.len() && 0 <= j < self.users@.len() && i != j
                ==> (#[trigger] self.users@[i]).user.bytes@ != (#[trigger] self.users@[j]).user.bytes@
    }

    /// Whether `user` has a position.
    pub open spec fn holds(&self, user: Identity) -> bool {
        exists|i: int| 0 <= i < self.users@.len() && (#[trigger] self.users@[i]).user.bytes@ == user.bytes@
    }

    /// Index of `user`'s position, when they have one.
    pub open spec fn slot(&self, user: Identity) -> int {
        choose|i: int| 0 <= i < self.users@.len() && (#[trigger] self.users@[i]).user.bytes@ == user.bytes@
    }

    /// `user`'s position, vacant before their first deposit.
    pub open spec fn position(&self, user: Identity) -> UserInfo {
        if self.holds(user) {
            self.users@[self.slot(user)]
        } else {
            vacant()
        }
    }

    /// A pool with the given records and no positions yet.
    pub fn new(settings: Settings, stats: Stats) -> (r: Ledger)
        requires
            stats.total_staked == 0,
        ensures
            r.wf(),
            r.settings == settings,
            r.stats == stats,
            r.users@.len() == 0,
    {
        Ledger { settings, stats, users: Vec::new() }
    }

    /// Index of `user`'s position.
    pub fn find(&self, user: &Identity) -> (r: Option<usize>)
        requires
            self.wf(),
        ensures
            r is None <==> !self.holds(*user),
            r matches Some(i) ==> i == self.slot(*user) && i < self.users@.len(),
    {
        let mut i: usize = 0;
        while i < self.users.len()
            invariant
                self.wf(),
                0 <= i <= self.users@.len(),
                forall|j: int| 0 <= j < i ==> (#[trigger] self.users@[j]).user.bytes@ != user.bytes@,
            decreases self.users@.len() - i,
        {
            if self.users[i].user.same_as(user) {
                proof {
                    assert(self.users@[i as int].user.bytes@ == user.bytes@);
                    assert(self.holds(*user));
                    let k = self.slot(*user);
                    assert(0 <= k < self.users@.len() && self.users@[k].user.bytes@ == user.bytes@);
                    if k != i as int {
                        assert(self.users@[k].user.bytes@ != self.users@[i as int].user.bytes@);
                    }
                }
                return Some(i);
            }
            i = i + 1;
        }
        None
    }

    proof fn lemma_vacant_exists(e: UserInfo)
        requires
            is_vacant(e),
        ensures
            is_vacant(vacant()),
    {
    }

    /// Deposits `amount` for `user`, creating their position on the first
    /// deposit.
    pub fn stake(&mut self, user: Identity, amount: u64, now: u32) -> (r: Result<Staked, StakingError>)
        requires
            old(self).wf(),
            now >= old(self).stats.last_update_time,
            !user.is_zero(),
        ensures
            final(self).wf(),
            final(self).settings == old(self).settings,
            amount == 0 ==> r == Err::<Staked, StakingError>(StakingError::InvalidAmount),
            amount > 0 ==> (r is Ok <==> stake_fits(
                old(self).settings,
                old(self).stats,
                old(self).position(user),
                user,
                amount,
                now,
            )),
            amount > 0 && r is Err ==> r == Err::<Staked, StakingError>(StakingError::MathOverflow),
            r is Ok ==> {
                let after = staked_user(old(self).settings, old(self).stats, old(self).position(user), user, amount, now);
                &&& final(self).stats == staked_stats(old(self).settings, old(self).stats, amount, now)
                &&& old(self).holds(user) ==> final(self).users@ == old(self).users@.update(old(self).slot(user), after)
                &&& !old(self).holds(user) ==> final(self).users@ == old(self).users@.push(after)
            },
            r is Err ==> final(self).stats == old(self).stats && final(self).users@ == old(self).users@,
            final(self).stats.reward_per_token_stored_numerator >= old(self).stats.reward_per_token_stored_numerator,
            final(self).stats.total_reward_promised >= old(self).stats.total_reward_promised,
    {
        let found = self.find(&user);
        let mut u: UserInfo = match found {
            Some(i) => self.users[i],
            None => {
                let e = UserInfo::empty();
                proof { Self::lemma_vacant_exists(e); }
                e
            },
        };
        proof {
            if let Some(i) = found {
                lemma_stake_within_total(self.users@, i as int);
            }
        }
        let mut stats: Stats = self.stats;
        let r = crate::engine::stake(user, &self.settings, &mut stats, &mut u, amount, now);
        if r.is_err() {
            return r;
        }
        proof {
            lemma_accrual_monotone(self.settings, self.stats, now);
        }
        let ghost before = self.users@;
        match found {
            Some(i) => {
                proof { lemma_total_stake_update(before, i as int, u); }
                self.users.set(i, u);
            },
            None => {
                proof { lemma_total_stake_push(before, u); }
                self.users.push(u);
            },
        }
        self.stats = stats;
        proof {
            assert forall|i: int, j: int|
                0 <= i < self.users@.len() && 0 <= j < self.users@.len() && i != j
                implies (#[trigger] self.users@[i]).user.bytes@ != (#[trigger] self.users@[j]).user.bytes@ by {
                if found is None {
                    if i == before.len() as int {
                        assert(before[j].user.bytes@ != user.bytes@);
                    } else if j == before.len() as int {
                        assert(before[i].user.bytes@ != user.bytes@);
                    }
                }
            }
        }
        r
    }
    /// The acting user's position and a proof that it is consistent with
    /// the accumulator.
    fn position_of(&self, found: Option<usize>, user: Identity, now: u32) -> (u: UserInfo)
        requires
            self.wf(),
            now >= self.stats.last_update_time,
            found is None <==> !self.holds(user),
            found matches Some(i) ==> i == self.slot(user) && i < self.users@.len(),
        ensures
            u == self.position(user),
            is_vacant(vacant()),
            position_consistent(self.stats, u, now),
    {
        let e = UserInfo::empty();
        proof {
            Self::lemma_vacant_exists(e);
        }
        match found {
            Some(i) => {
                proof {
                    lemma_stake_within_total(self.users@, i as int);
                }
                self.users[i]
            },
            None => {
                proof {
                    lemma_total_stake_nonneg(self.users@);
                    assert(e.user.bytes@ =~= vacant().user.bytes@);
                    assert(e.user.bytes == vacant().user.bytes);
                    assert(e == vacant());
                }
                e
            },
        }
    }

    /// Moves `user`'s whole stake and settled reward into their withdrawal
    /// request.
    pub fn request_withdrawal(&mut self, user: Identity, now: u32) -> (r: Result<
        WithdrawalRequested,
        StakingError,
    >)
        requires
            old(self).wf(),
            now >= old(self).stats.last_update_time,
        ensures
            final(self).wf(),
            final(self).settings == old(self).settings,
            old(self).position(user).stake_amount == 0 ==> r == Err::<WithdrawalRequested, StakingError>(StakingError::NoStakeFound),
            old(self).position(user).stake_amount > 0 ==> (r is Ok <==> request_fits(
                old(self).settings,
                old(self).stats,
                old(self).position(user),
                now,
            )),
            old(self).position(user).stake_amount > 0 && r is Err ==> r == Err::<WithdrawalRequested, StakingError>(StakingError::MathOverflow),
            r is Ok ==> {
                &&& old(self).holds(user)
                &&& final(self).stats == requested_stats(old(self).settings, old(self).stats, old(self).position(user), now)
                &&& final(self).users@ == old(self).users@.update(
                    old(self).slot(user),
                    requested_user(old(self).settings, old(self).stats, old(self).position(user), now),
                )
            },
            r is Err ==> final(self).stats == old(self).stats && final(self).users@ == old(self).users@,
            final(self).stats.reward_per_token_stored_numerator >= old(self).stats.reward_per_token_stored_numerator,
            final(self).stats.total_reward_promised >= old(self).stats.total_reward_promised,
    {
        let found = self.find(&user);
        let mut u: UserInfo = self.position_of(found, user, now);
        let mut stats: Stats = self.stats;
        let r = crate::engine::request_withdrawal(user, &self.settings, &mut stats, &mut u, now);
        if r.is_err() {
            return r;
        }
        proof {
            lemma_accrual_monotone(self.settings, self.stats, now);
        }
        let i: usize = match found {
            Some(i) => i,
            None => return r,
        };
        proof {
            lemma_total_stake_update(self.users@, i as int, u);
        }
        self.users.set(i, u);
        self.stats = stats;
        r
    }

    /// Releases `user`'s pending request, principal and reward, once the
    /// delay has passed and the reserve balance covers the reward.
    pub fn withdraw(&mut self, user: Identity, now: u32, protocol_balance: u64) -> (r: Result<
        Withdrawn,
        StakingError,
    >)
        requires
            old(self).wf(),
            now >= old(self).stats.last_update_time,
        ensures
            final(self).wf(),
            final(self).settings == old(self).settings,
            final(self).stats == old(self).stats,
            !old(self).position(user).has_request() ==> r == Err::<Withdrawn, StakingError>(StakingError::NoWithdrawalRequest),
            old(self).position(user).has_request() && now < old(self).position(user).release_time(old(self).settings)
                ==> r == Err::<Withdrawn, StakingError>(StakingError::WithdrawalDelayNotMet),
            r is Ok <==> old(self).position(user).has_request()
                && now >= old(self).position(user).release_time(old(self).settings)
                && protocol_balance >= old(self).position(user).withdrawal_request_reward_amount,
            r is Ok ==> {
                &&& old(self).holds(user)
                &&& final(self).users@ == old(self).users@.update(old(self).slot(user), released(old(self).position(user)))
                &&& r == Ok::<Withdrawn, StakingError>(Withdrawn {
                    user: user,
                    token_amount: old(self).position(user).withdrawal_request_amount,
                    reward_amount: old(self).position(user).withdrawal_request_reward_amount,
                })
            },
            r is Err ==> final(self).users@ == old(self).users@,
    {
        let found = self.find(&user);
        let mut u: UserInfo = self.position_of(found, user, now);
        let r = crate::engine::withdraw(user, &self.settings, &mut u, now, protocol_balance);
        if r.is_err() {
            return r;
        }
        let i: usize = match found {
            Some(i) => i,
            None => return r,
        };
        proof {
            lemma_total_stake_update(self.users@, i as int, u);
        }
        self.users.set(i, u);
        r
    }

    /// Releases `user`'s pending principal once the delay has passed and
    /// discards the pending reward.
    pub fn withdraw_and_forfeit_rewards(&mut self, user: Identity, now: u32) -> (r: Result<
        WithdrawnAndForfeitedRewards,
        StakingError,
    >)
        requires
            old(self).wf(),
            now >= old(self).stats.last_update_time,
        ensures
            final(self).wf(),
            final(self).settings == old(self).settings,
            final(self).stats == old(self).stats,
            !old(self).position(user).has_request() ==> r == Err::<WithdrawnAndForfeitedRewards, StakingError>(StakingError::NoWithdrawalRequest),
            old(self).position(user).has_request() && now < old(self).position(user).release_time(old(self).settings)
                ==> r == Err::<WithdrawnAndForfeitedRewards, StakingError>(StakingError::WithdrawalDelayNotMet),
            r is Ok <==> old(self).position(user).has_request()
                && now >= old(self).position(user).release_time(old(self).settings),
            r is Ok ==> {
                &&& old(self).holds(user)
                &&& final(self).users@ == old(self).users@.update(old(self).slot(user), released(old(self).position(user)))
                &&& r == Ok::<WithdrawnAndForfeitedRewards, StakingError>(WithdrawnAndForfeitedRewards {
                    user: user,
                    token_amount: old(self).position(user).withdrawal_request_amount,
                    forfeited_reward_amount: old(self).position(user).withdrawal_request_reward_amount,
                })
            },
            r is Err ==> final(self).users@ == old(self).users@,
    {
        let found = self.find(&user);
        let mut u: UserInfo = self.position_of(found, user, now);
        let r = crate::engine::withdraw_and_forfeit_rewards(user, &self.settings, &mut u, now);
        if r.is_err() {
            return r;
        }
        let i: usize = match found {
            Some(i) => i,
            None => return r,
        };
        proof {
            lemma_total_stake_update(self.users@, i as int, u);
        }
        self.users.set(i, u);
        r
    }

    /// Records newly funded reward.
    pub fn add_rewards(&mut self, administrator: Identity, amount: u64) -> (r: Result<
        RewardsAdded,
        StakingError,
    >)
        requires
            old(self).wf(),
        ensures
            final(self).wf(),
            final(self).settings == old(self).settings,
            final(self).users@ == old(self).users@,
            r is Ok <==> amount > 0 && old(self).stats.total_reward_provided + amount <= u64::MAX,
            amount == 0 ==> r == Err::<RewardsAdded, StakingError>(StakingError::InvalidAmount),
            amount > 0 && r is Err ==> r == Err::<RewardsAdded, StakingError>(StakingError::MathOverflow),
            r is Ok ==> final(self).stats == (Stats {
                total_reward_provided: (old(self).stats.total_reward_provided + amount) as u64,
                ..old(self).stats
            }),
            r is Err ==> final(self).stats == old(self).stats,
    {
        crate::admin::add_rewards(administrator, &mut self.stats, amount)
    }

    /// Changes the reward rate after bringing the accumulator up to `now`.
    pub fn configure_reward_ratio(
        &mut self,
        administrator: Identity,
        new_reward_rate_yearly_percentage_numerator: u64,
        now: u32,
    ) -> (r: Result<RewardRatioConfigured, StakingError>)
        requires
            old(self).wf(),
            now >= old(self).stats.last_update_time,
        ensures
            final(self).wf(),
            final(self).users@ == old(self).users@,
            r is Ok <==> accrual_fits(old(self).settings, old(self).stats, now),
            r is Err ==> r == Err::<RewardRatioConfigured, StakingError>(StakingError::MathOverflow)
                && final(self).settings == old(self).settings && final(self).stats == old(self).stats,
            r is Ok ==> final(self).stats == accrued(old(self).settings, old(self).stats, now)
                && final(self).settings == (Settings {
                reward_rate_per_second_per_token_numerator: per_second_rate(
                    new_reward_rate_yearly_percentage_numerator as int,
                ) as u64,
                ..old(self).settings
            }),
            final(self).stats.reward_per_token_stored_numerator >= old(self).stats.reward_per_token_stored_numerator,
            final(self).stats.total_reward_promised >= old(self).stats.total_reward_promised,
    {
        crate::admin::configure_reward_ratio(
            administrator,
            &mut self.settings,
            &mut self.stats,
            new_reward_rate_yearly_percentage_numerator,
            now,
        )
    }
    /// `user`'s total reward as a settlement at `now` would capture it;
    /// zero for a user without a position.
    pub fn view_current_rewards(&self, user: Identity, now: u32) -> (r: Result<
        CurrentRewardsViewed,
        StakingError,
    >)
        requires
            self.wf(),
            now >= self.stats.last_update_time,
        ensures
            r is Ok <==> settle_fits(self.settings, self.stats, self.position(user), now),
            r is Err ==> r == Err::<CurrentRewardsViewed, StakingError>(StakingError::MathOverflow),
            r matches Ok(v) ==> v.total_reward == settled(self.settings, self.stats, self.position(user), now).captured_reward
                && v.captured_reward == self.position(user).captured_reward,
    {
        let found = self.find(&user);
        let u: UserInfo = self.position_of(found, user, now);
        crate::views::view_current_rewards(user, &self.settings, &self.stats, &u, now)
    }
}

} // verus!
