//! Settings of the owner, and what anyone may read.

use crate::shared::{AccountId, Error};
use crate::staking::{StakeInfo, W3piStaking};
use crate::staking::events::{ContractPaused, ContractUnpaused, StakingEvent};
use crate::staking::model::StakingView;
use vstd::prelude::*;

verus! {

impl W3piStaking {
    /// Names the wallet that receives the fees. Only the owner may.
    pub fn set_fee_wallet(
        &mut self,
        caller: AccountId,
        new_fee_wallet: AccountId,
    ) -> (result: Result<(), Error>)
        requires
            old(self).wf(),
        ensures
            final(self).wf(),
            result == old(self)@.owner_gate(caller),
            result.is_err() ==> final(self)@ == old(self)@,
            result.is_ok() ==> final(self)@ == (StakingView {
                fee_wallet: new_fee_wallet,
                ..old(self)@
            }),
    {
        self.reentrancy_guard.enter()?;
        let result = self.ensure_owner(caller);
        if result.is_ok() {
            self.fee_wallet = new_fee_wallet;
        }
        self.reentrancy_guard.exit();
        result
    }

    /// Stops deposits, unstaking and claims. Only the owner may. Pausing
    /// what is paused changes nothing.
    pub fn pause(&mut self, caller: AccountId) -> (result: Result<(), Error>)
        requires
            old(self).wf(),
        ensures
            final(self).wf(),
            result == old(self)@.owner_gate(caller),
            result.is_err() || old(self)@.paused ==> final(self)@ == old(self)@,
            result.is_ok() && !old(self)@.paused ==> final(self)@ == (StakingView {
                paused: true,
                ..old(self)@
            }).with_event(StakingEvent::ContractPaused(ContractPaused { by: caller })),
    {
        self.reentrancy_guard.enter()?;
        let result = self.ensure_owner(caller);
        if result.is_ok() && !self.paused {
            self.paused = true;
            self.events.push(StakingEvent::ContractPaused(ContractPaused { by: caller }));
        }
        self.reentrancy_guard.exit();
        result
    }

    /// Allows deposits, unstaking and claims again. Only the owner may.
    /// Unpausing what is not paused changes nothing.
    pub fn unpause(&mut self, caller: AccountId) -> (result: Result<(), Error>)
        requires
            old(self).wf(),
        ensures
            final(self).wf(),
            result == old(self)@.owner_gate(caller),
            result.is_err() || !old(self)@.paused ==> final(self)@ == old(self)@,
            result.is_ok() && old(self)@.paused ==> final(self)@ == (StakingView {
                paused: false,
                ..old(self)@
            }).with_event(StakingEvent::ContractUnpaused(ContractUnpaused { by: caller })),
    {
        self.reentrancy_guard.enter()?;
        let result = self.ensure_owner(caller);
        if result.is_ok() && self.paused {
            self.paused = false;
            self.events.push(StakingEvent::ContractUnpaused(ContractUnpaused { by: caller }));
        }
        self.reentrancy_guard.exit();
        result
    }

    /// Names the contract of the staked token. Only the owner may.
    pub fn set_w3pi_token(
        &mut self,
        caller: AccountId,
        new_token: AccountId,
    ) -> (result: Result<(), Error>)
        requires
            old(self).wf(),
        ensures
            final(self).wf(),
            result == old(self)@.owner_gate(caller),
            result.is_err() ==> final(self)@ == old(self)@,
            result.is_ok() ==> final(self)@ == (StakingView {
                w3pi_token: new_token,
                ..old(self)@
            }),
    {
        self.reentrancy_guard.enter()?;
        let result = self.ensure_owner(caller);
        if result.is_ok() {
            self.w3pi_token = new_token;
        }
        self.reentrancy_guard.exit();
        result
    }

    /// Names the registry. Only the owner may.
    pub fn set_registry(
        &mut self,
        caller: AccountId,
        new_registry: AccountId,
    ) -> (result: Result<(), Error>)
        requires
            old(self).wf(),
        ensures
            final(self).wf(),
            result == old(self)@.owner_gate(caller),
            result.is_err() ==> final(self)@ == old(self)@,
            result.is_ok() ==> final(self)@ == (StakingView {
                registry: new_registry,
                ..old(self)@
            }),
    {
        self.reentrancy_guard.enter()?;
        let result = self.ensure_owner(caller);
        if result.is_ok() {
            self.registry = new_registry;
        }
        self.reentrancy_guard.exit();
        result
    }

    pub fn get_w3pi_token(&self) -> (r: AccountId)
        ensures
            r == self@.w3pi_token,
    {
        self.w3pi_token
    }

    pub fn get_registry(&self) -> (r: AccountId)
        ensures
            r == self@.registry,
    {
        self.registry
    }

    pub fn get_total_collected_fees(&self) -> (r: u128)
        ensures
            r == self@.total_collected_fees,
    {
        self.total_collected_fees
    }

    /// The stake of an account.
    pub fn get_stake_info(&self, account: AccountId) -> (r: Option<StakeInfo>)
        requires
            self.wf(),
        ensures
            r == if self@.stakes.contains_key(account) {
                Some(self@.stakes[account])
            } else {
                None
            },
    {
        match self.stakes.get(&account) {
            Some(stake) => Some(*stake),
            None => None,
        }
    }

    pub fn get_total_staked(&self) -> (r: u128)
        ensures
            r == self@.total_staked,
    {
        self.total_staked
    }
}

} // verus!
