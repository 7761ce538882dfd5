//! The payout of rewards.

use crate::shared::{AccountId, Error};
use crate::staking::{
    calculate_rewards_with_fee, PendingSettlement, StakeInfo, Transfer, W3piStaking,
};
use crate::staking::model::{rewards_with_fee, transfers_of, StakingView};
use vstd::prelude::*;

verus! {

impl W3piStaking {
    /// Begins a payout of the rewards of `caller`. On success the component
    /// is locked and the transfers to make are returned: the net reward to
    /// the caller, then the fee, if any, to the fee wallet. The stake is
    /// marked as settled up to `now` by `settle_transfers`.
    pub fn claim_rewards(
        &mut self,
        caller: AccountId,
        now: u64,
    ) -> (result: Result<Vec<Transfer>, Error>)
        requires
            old(self).wf(),
        ensures
            final(self).wf(),
            match old(self)@.claim_rewards_outcome(caller, now) {
                Err(e) => result == Err::<Vec<Transfer>, Error>(e) && final(self)@ == old(self)@,
                Ok(_) => {
                    let stake = old(self)@.stakes[caller];
                    let pending = PendingSettlement::Rewards {
                        account: caller,
                        stake: StakeInfo { last_claim: now, ..stake },
                        net_reward: rewards_with_fee(stake, now).0,
                        fee: rewards_with_fee(stake, now).1,
                    };
                    &&& result.is_ok()
                    &&& result.unwrap()@ == transfers_of(pending, old(self)@.fee_wallet)
                    &&& final(self)@ == (StakingView { pending: Some(pending), ..old(self)@ })
                },
            },
    {
        self.reentrancy_guard.enter()?;
        match self.plan_claim_rewards(caller, now) {
            Ok(pending) => {
                self.pending = Some(pending);
                Ok(self.transfers_for(pending))
            },
            Err(e) => {
                self.reentrancy_guard.exit();
                Err(e)
            },
        }
    }

    fn plan_claim_rewards(
        &self,
        caller: AccountId,
        now: u64,
    ) -> (result: Result<PendingSettlement, Error>)
        requires
            self.inv(),
            self@.pending.is_none(),
        ensures
            match self@.claim_rewards_outcome(caller, now) {
                Err(e) => result == Err::<PendingSettlement, Error>(e),
                Ok(_) => result == Ok::<PendingSettlement, Error>(
                    PendingSettlement::Rewards {
                        account: caller,
                        stake: StakeInfo { last_claim: now, ..self@.stakes[caller] },
                        net_reward: rewards_with_fee(self@.stakes[caller], now).0,
                        fee: rewards_with_fee(self@.stakes[caller], now).1,
                    },
                ),
            },
    {
        self.ensure_not_paused()?;
        let mut stake_info = match self.stakes.get(&caller) {
            Some(stake) => *stake,
            None => {
                return Err(Error::InvalidParameters);
            },
        };
        let (net_reward, fee_amount) = calculate_rewards_with_fee(&stake_info, now);
        if net_reward == 0 {
            return Err(Error::InvalidParameters);
        }
        stake_info.last_claim = now;
        Ok(
            PendingSettlement::Rewards {
                account: caller,
                stake: stake_info,
                net_reward,
                fee: fee_amount,
            },
        )
    }

    /// The rewards that `account` could claim at `now`, net of the fee.
    pub fn get_claimable_rewards(&self, account: AccountId, now: u64) -> (r: u128)
        requires
            self.wf(),
        ensures
            r == if self@.stakes.contains_key(account) {
                rewards_with_fee(self@.stakes[account], now).0
            } else {
                0
            },
    {
        match self.stakes.get(&account) {
            Some(stake_info) => {
                let (net_reward, _) = calculate_rewards_with_fee(stake_info, now);
                net_reward
            },
            None => 0,
        }
    }
}

} // verus!
