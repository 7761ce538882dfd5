//! Deposits into a stake.

use crate::registry::tier::Tier;
use crate::shared::{AccountId, Error};
use crate::staking::{
    calculate_rewards_with_fee, get_current_tier, get_unstaking_period, PendingSettlement,
    StakeInfo, Transfer, W3piStaking,
};
use crate::staking::model::{transfers_of, StakingView};
use vstd::prelude::*;

verus! {

impl W3piStaking {
    /// Begins a deposit of `amount` by `caller`. `active_tier` is what the
    /// registry answered when asked for the active tier. On success the
    /// component is locked and the transfers to make are returned: the fee on
    /// the rewards settled, if any, to the fee wallet, then the deposit from
    /// the caller. Nothing else changes until `settle_transfers`.
    pub fn stake(
        &mut self,
        caller: AccountId,
        now: u64,
        amount: u128,
        active_tier: Option<Tier>,
    ) -> (result: Result<Vec<Transfer>, Error>)
        requires
            old(self).wf(),
        ensures
            final(self).wf(),
            match old(self)@.stake_outcome(amount, active_tier) {
                Err(e) => result == Err::<Vec<Transfer>, Error>(e) && final(self)@ == old(self)@,
                Ok(_) => {
                    let pending = old(self)@.stake_settlement(
                        caller,
                        now,
                        amount,
                        active_tier.unwrap(),
                    );
                    &&& result.is_ok()
                    &&& result.unwrap()@ == transfers_of(pending, old(self)@.fee_wallet)
                    &&& final(self)@ == (StakingView { pending: Some(pending), ..old(self)@ })
                },
            },
    {
        self.reentrancy_guard.enter()?;
        match self.plan_stake(caller, now, amount, active_tier) {
            Ok(pending) => {
                self.pending = Some(pending);
                Ok(self.transfers_for(pending))
            },
            Err(e) => {
                self.reentrancy_guard.exit();
                Err(e)
            },
        }
    }

    fn plan_stake(
        &self,
        caller: AccountId,
        now: u64,
        amount: u128,
        active_tier: Option<Tier>,
    ) -> (result: Result<PendingSettlement, Error>)
        requires
            self.inv(),
            self@.pending.is_none(),
        ensures
            match self@.stake_outcome(amount, active_tier) {
                Err(e) => result == Err::<PendingSettlement, Error>(e),
                Ok(_) => result == Ok::<PendingSettlement, Error>(
                    self@.stake_settlement(caller, now, amount, active_tier.unwrap()),
                ),
            },
    {
        self.ensure_not_paused()?;
        if amount == 0 {
            return Err(Error::InvalidParameters);
        }
        let unstaking_period = get_unstaking_period(active_tier)?;
        let current_tier = get_current_tier(active_tier)?;
        match self.stakes.get(&caller) {
            Some(existing_stake) => {
                let (net_reward, fee_amount) = calculate_rewards_with_fee(existing_stake, now);
                let new_amount = existing_stake.amount.saturating_add(amount);
                let new_amount_with_rewards = new_amount.saturating_add(net_reward);
                Ok(
                    PendingSettlement::Stake {
                        account: caller,
                        stake: StakeInfo {
                            amount: new_amount_with_rewards,
                            staked_at: existing_stake.staked_at,
                            last_claim: now,
                            unstaking_period,
                            tier_at_stake: current_tier,
                        },
                        amount,
                        fee: fee_amount,
                    },
                )
            },
            None => Ok(
                PendingSettlement::Stake {
                    account: caller,
                    stake: StakeInfo {
                        amount,
                        staked_at: now,
                        last_claim: now,
                        unstaking_period,
                        tier_at_stake: current_tier,
                    },
                    amount,
                    fee: 0,
                },
            ),
        }
    }
}

} // verus!
