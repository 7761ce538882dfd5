//! Ownership, state, fees and the addresses of collaborators.

use crate::portfolio::{FeeConfiguration, Portfolio, PortfolioState};
use crate::portfolio::events::{
    ContractReferenceUpdated, EmergencyPause, FeeConfigurationUpdated, PortfolioEvent,
    PortfolioStateChanged,
};
use crate::portfolio::model::PortfolioView;
use crate::shared::{AccountId, Error};
use vstd::prelude::*;

verus! {

impl Portfolio {
    pub fn get_owner(&self) -> (r: AccountId)
        ensures
            r == self@.owner,
    {
        self.owner
    }

    pub fn get_state(&self) -> (r: PortfolioState)
        ensures
            r == self@.state,
    {
        self.state
    }

    pub fn get_deployment_timestamp(&self) -> (r: u64)
        ensures
            r == self@.deployment_timestamp,
    {
        self.deployment_timestamp
    }

    pub fn is_emergency_paused(&self) -> (r: bool)
        ensures
            r == self@.emergency_paused,
    {
        self.emergency_paused
    }

    pub fn get_fee_config(&self) -> (r: FeeConfiguration)
        ensures
            r == self@.fee_config,
    {
        self.fee_config
    }

    pub fn get_total_fees_collected(&self) -> (r: u128)
        ensures
            r == self@.total_fees_collected,
    {
        self.total_fees_collected
    }

    /// Sets the state of the portfolio. Only the owner may.
    pub fn set_state(
        &mut self,
        caller: AccountId,
        now: u64,
        new_state: PortfolioState,
        reason: String,
    ) -> (result: Result<(), Error>)
        requires
            old(self).wf(),
        ensures
            final(self).wf(),
            result == if caller != old(self)@.owner {
                Err::<(), Error>(Error::Unauthorized)
            } else {
                Ok::<(), Error>(())
            },
            result.is_err() ==> final(self)@ == old(self)@,
            result.is_ok() ==> final(self)@ == (PortfolioView {
                state: new_state,
                ..old(self)@
            }).with_event(
                PortfolioEvent::PortfolioStateChanged(
                    PortfolioStateChanged {
                        old_state: old(self)@.state,
                        new_state,
                        changed_by: caller,
                        timestamp: now,
                        reason,
                    },
                ),
            ),
    {
        self.ensure_owner(caller)?;
        let old_state = self.state;
        self.state = new_state;
        self.events.push(
            PortfolioEvent::PortfolioStateChanged(
                PortfolioStateChanged {
                    old_state,
                    new_state,
                    changed_by: caller,
                    timestamp: now,
                    reason,
                },
            ),
        );
        Ok(())
    }

    /// Stops all changes of holdings. Only the owner may.
    pub fn emergency_pause(
        &mut self,
        caller: AccountId,
        now: u64,
        reason: String,
    ) -> (result: Result<(), Error>)
        requires
            old(self).wf(),
        ensures
            final(self).wf(),
            result == if caller != old(self)@.owner {
                Err::<(), Error>(Error::Unauthorized)
            } else {
                Ok::<(), Error>(())
            },
            result.is_err() ==> final(self)@ == old(self)@,
            result.is_ok() ==> final(self)@ == (PortfolioView {
                emergency_paused: true,
                state: PortfolioState::Emergency,
                ..old(self)@
            }).with_event(
                PortfolioEvent::EmergencyPause(
                    EmergencyPause { paused: true, paused_by: caller, timestamp: now, reason },
                ),
            ),
    {
        self.ensure_owner(caller)?;
        self.emergency_paused = true;
        self.state = PortfolioState::Emergency;
        self.events.push(
            PortfolioEvent::EmergencyPause(
                EmergencyPause { paused: true, paused_by: caller, timestamp: now, reason },
            ),
        );
        Ok(())
    }

    /// Allows changes of holdings again. Only the owner may.
    pub fn resume_operations(
        &mut self,
        caller: AccountId,
        now: u64,
        reason: String,
    ) -> (result: Result<(), Error>)
        requires
            old(self).wf(),
        ensures
            final(self).wf(),
            result == if caller != old(self)@.owner {
                Err::<(), Error>(Error::Unauthorized)
            } else {
                Ok::<(), Error>(())
            },
            result.is_err() ==> final(self)@ == old(self)@,
            result.is_ok() ==> final(self)@ == (PortfolioView {
                emergency_paused: false,
                state: PortfolioState::Active,
                ..old(self)@
            }).with_event(
                PortfolioEvent::EmergencyPause(
                    EmergencyPause { paused: false, paused_by: caller, timestamp: now, reason },
                ),
            ),
    {
        self.ensure_owner(caller)?;
        self.emergency_paused = false;
        self.state = PortfolioState::Active;
        self.events.push(
            PortfolioEvent::EmergencyPause(
                EmergencyPause { paused: false, paused_by: caller, timestamp: now, reason },
            ),
        );
        Ok(())
    }

    /// Sets the fees, none of which may exceed 10000 basis points. Only the
    /// owner may.
    pub fn set_fee_config(
        &mut self,
        caller: AccountId,
        now: u64,
        new_config: FeeConfiguration,
    ) -> (result: Result<(), Error>)
        requires
            old(self).wf(),
        ensures
            final(self).wf(),
            result == if caller != old(self)@.owner {
                Err::<(), Error>(Error::Unauthorized)
            } else if !new_config.within_bounds() {
                Err::<(), Error>(Error::InvalidParameter)
            } else {
                Ok::<(), Error>(())
            },
            result.is_err() ==> final(self)@ == old(self)@,
            result.is_ok() ==> final(self)@ == (PortfolioView {
                fee_config: new_config,
                ..old(self)@
            }).with_event(
                PortfolioEvent::FeeConfigurationUpdated(
                    FeeConfigurationUpdated {
                        old_config: old(self)@.fee_config,
                        new_config,
                        updated_by: caller,
                        timestamp: now,
                    },
                ),
            ),
    {
        self.ensure_owner(caller)?;
        if new_config.buy_fee_bp > 10000 || new_config.sell_fee_bp > 10000
            || new_config.streaming_fee_bp > 10000 {
            return Err(Error::InvalidParameter);
        }
        let old_config = self.fee_config;
        self.fee_config = new_config;
        self.events.push(
            PortfolioEvent::FeeConfigurationUpdated(
                FeeConfigurationUpdated {
                    old_config,
                    new_config,
                    updated_by: caller,
                    timestamp: now,
                },
            ),
        );
        Ok(())
    }

    /// Names the registry. Only the owner may.
    pub fn set_registry_contract(
        &mut self,
        caller: AccountId,
        now: u64,
        registry: AccountId,
    ) -> (result: Result<(), Error>)
        requires
            old(self).wf(),
        ensures
            final(self).wf(),
            result == if caller != old(self)@.owner {
                Err::<(), Error>(Error::Unauthorized)
            } else {
                Ok::<(), Error>(())
            },
            result.is_err() ==> final(self)@ == old(self)@,
            result.is_ok() ==> final(self)@ == (PortfolioView {
                registry_contract: Some(registry),
                ..old(self)@
            }).with_event(
                PortfolioEvent::ContractReferenceUpdated(
                    ContractReferenceUpdated {
                        contract_type: "registry",
                        old_address: old(self)@.registry_contract,
                        new_address: registry,
                        updated_by: caller,
                        timestamp: now,
                    },
                ),
            ),
    {
        self.ensure_owner(caller)?;
        let old_address = self.registry_contract;
        self.registry_contract = Some(registry);
        self.events.push(
            PortfolioEvent::ContractReferenceUpdated(
                ContractReferenceUpdated {
                    contract_type: "registry",
                    old_address,
                    new_address: registry,
                    updated_by: caller,
                    timestamp: now,
                },
            ),
        );
        Ok(())
    }

    /// Names the contract of the index token. Only the owner may.
    pub fn set_token_contract(
        &mut self,
        caller: AccountId,
        now: u64,
        token: AccountId,
    ) -> (result: Result<(), Error>)
        requires
            old(self).wf(),
        ensures
            final(self).wf(),
            result == if caller != old(self)@.owner {
                Err::<(), Error>(Error::Unauthorized)
            } else {
                Ok::<(), Error>(())
            },
            result.is_err() ==> final(self)@ == old(self)@,
            result.is_ok() ==> final(self)@ == (PortfolioView {
                token_contract: Some(token),
                ..old(self)@
            }).with_event(
                PortfolioEvent::ContractReferenceUpdated(
                    ContractReferenceUpdated {
                        contract_type: "token",
                        old_address: old(self)@.token_contract,
                        new_address: token,
                        updated_by: caller,
                        timestamp: now,
                    },
                ),
            ),
    {
        self.ensure_owner(caller)?;
        let old_address = self.token_contract;
        self.token_contract = Some(token);
        self.events.push(
            PortfolioEvent::ContractReferenceUpdated(
                ContractReferenceUpdated {
                    contract_type: "token",
                    old_address,
                    new_address: token,
                    updated_by: caller,
                    timestamp: now,
                },
            ),
        );
        Ok(())
    }

    /// Names the exchange. Only the owner may.
    pub fn set_dex_contract(
        &mut self,
        caller: AccountId,
        now: u64,
        dex: AccountId,
    ) -> (result: Result<(), Error>)
        requires
            old(self).wf(),
        ensures
            final(self).wf(),
            result == if caller != old(self)@.owner {
                Err::<(), Error>(Error::Unauthorized)
            } else {
                Ok::<(), Error>(())
            },
            result.is_err() ==> final(self)@ == old(self)@,
            result.is_ok() ==> final(self)@ == (PortfolioView {
                dex_contract: Some(dex),
                ..old(self)@
            }).with_event(
                PortfolioEvent::ContractReferenceUpdated(
                    ContractReferenceUpdated {
                        contract_type: "dex",
                        old_address: old(self)@.dex_contract,
                        new_address: dex,
                        updated_by: caller,
                        timestamp: now,
                    },
                ),
            ),
    {
        self.ensure_owner(caller)?;
        let old_address = self.dex_contract;
        self.dex_contract = Some(dex);
        self.events.push(
            PortfolioEvent::ContractReferenceUpdated(
                ContractReferenceUpdated {
                    contract_type: "dex",
                    old_address,
                    new_address: dex,
                    updated_by: caller,
                    timestamp: now,
                },
            ),
        );
        Ok(())
    }

    /// Names the oracle. Only the owner may.
    pub fn set_oracle_contract(
        &mut self,
        caller: AccountId,
        now: u64,
        oracle: AccountId,
    ) -> (result: Result<(), Error>)
        requires
            old(self).wf(),
        ensures
            final(self).wf(),
            result == if caller != old(self)@.owner {
                Err::<(), Error>(Error::Unauthorized)
            } else {
                Ok::<(), Error>(())
            },
            result.is_err() ==> final(self)@ == old(self)@,
            result.is_ok() ==> final(self)@ == (PortfolioView {
                oracle_contract: Some(oracle),
                ..old(self)@
            }).with_event(
                PortfolioEvent::ContractReferenceUpdated(
                    ContractReferenceUpdated {
                        contract_type: "oracle",
                        old_address: old(self)@.oracle_contract,
                        new_address: oracle,
                        updated_by: caller,
                        timestamp: now,
                    },
                ),
            ),
    {
        self.ensure_owner(caller)?;
        let old_address = self.oracle_contract;
        self.oracle_contract = Some(oracle);
        self.events.push(
            PortfolioEvent::ContractReferenceUpdated(
                ContractReferenceUpdated {
                    contract_type: "oracle",
                    old_address,
                    new_address: oracle,
                    updated_by: caller,
                    timestamp: now,
                },
            ),
        );
        Ok(())
    }

    pub fn get_registry_contract(&self) -> (r: Option<AccountId>)
        ensures
            r == self@.registry_contract,
    {
        self.registry_contract
    }

    pub fn get_token_contract(&self) -> (r: Option<AccountId>)
        ensures
            r == self@.token_contract,
    {
        self.token_contract
    }

    pub fn get_dex_contract(&self) -> (r: Option<AccountId>)
        ensures
            r == self@.dex_contract,
    {
        self.dex_contract
    }

    pub fn get_oracle_contract(&self) -> (r: Option<AccountId>)
        ensures
            r == self@.oracle_contract,
    {
        self.oracle_contract
    }
}

} // verus!
