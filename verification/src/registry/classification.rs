//! The tier that market data gives a token, and the settings it depends on.

use crate::feed::{quoted_market_data, OracleFeed};
use crate::registry::Registry;
use crate::registry::events::{RegistryEvent, TierThresholdsUpdated};
use crate::registry::model::RegistryView;
use crate::registry::tier::{
    calculate_tier, Tier, TierThresholds, FALLBACK_USD_RATE, PLANCKS_PER_DOT,
};
use crate::registry::tokens::token_with_id;
use crate::shared::{AccountId, Error};
use vstd::prelude::*;

verus! {

impl Registry {
    /// Market capitalisation and volume of a token as its oracle quoted them,
    /// present only when both were answered.
    pub fn get_market_data_from_oracle(
        feed: &OracleFeed,
        token_contract: AccountId,
        oracle_contract: AccountId,
    ) -> (r: Option<(u128, u128)>)
        ensures
            r == quoted_market_data(feed@, oracle_contract, token_contract),
    {
        let market_cap = match feed.get_market_cap(oracle_contract, token_contract) {
            Some(value) => value,
            None => {
                return None;
            },
        };
        let volume = match feed.get_market_volume(oracle_contract, token_contract) {
            Some(value) => value,
            None => {
                return None;
            },
        };
        Some((market_cap, volume))
    }

    /// Plancks per USD, from the DOT/USD oracle.
    fn get_usd_to_plancks_rate(&self, feed: &OracleFeed) -> (r: Option<u128>)
        ensures
            r == self@.usd_rate(feed@),
    {
        let oracle_contract = match self.dot_usd_oracle {
            Some(oracle) => oracle,
            None => {
                return None;
            },
        };
        match feed.get_price(oracle_contract, AccountId::dot_token()) {
            Some(dot_price) => {
                if dot_price > 0 {
                    PLANCKS_PER_DOT.checked_div(dot_price)
                } else {
                    None
                }
            },
            None => None,
        }
    }

    /// Classifies market data by the registry's thresholds. Without a
    /// conversion rate the fallback rate is used.
    fn calculate_tier_from_values(
        &self,
        feed: &OracleFeed,
        market_cap: u128,
        volume: u128,
    ) -> (r: Tier)
        ensures
            r == self@.tier_from_values(feed@, market_cap, volume),
    {
        let usd_to_plancks_rate = match self.get_usd_to_plancks_rate(feed) {
            Some(rate) => rate,
            None => FALLBACK_USD_RATE,
        };
        calculate_tier(market_cap, volume, &self.tier_thresholds, usd_to_plancks_rate)
    }

    pub(super) fn calculate_token_tier_internal(
        &self,
        feed: &OracleFeed,
        token_contract: AccountId,
        oracle_contract: AccountId,
    ) -> (r: Option<Tier>)
        ensures
            r == self@.computed_tier(feed@, token_contract, oracle_contract),
    {
        match Self::get_market_data_from_oracle(feed, token_contract, oracle_contract) {
            Some((market_cap, volume)) => Some(
                self.calculate_tier_from_values(feed, market_cap, volume),
            ),
            None => None,
        }
    }

    /// The tier that the quotes give the token `token_id`.
    pub fn calculate_token_tier(
        &self,
        token_id: u32,
        feed: &OracleFeed,
    ) -> (result: Result<Tier, Error>)
        requires
            self.wf(),
        ensures
            result == match token_with_id(self@.tokens, token_id) {
                None => Err::<Tier, Error>(Error::TokenNotFound),
                Some(data) => match self@.computed_tier(
                    feed@,
                    data.token_contract,
                    data.oracle_contract,
                ) {
                    Some(tier) => Ok::<Tier, Error>(tier),
                    None => Err::<Tier, Error>(Error::OracleCallFailed),
                },
            },
    {
        let index = match self.find_token(token_id) {
            Some(index) => index,
            None => {
                return Err(Error::TokenNotFound);
            },
        };
        let token_data = self.tokens[index].data;
        match self.calculate_token_tier_internal(
            feed,
            token_data.token_contract,
            token_data.oracle_contract,
        ) {
            Some(tier) => Ok(tier),
            None => Err(Error::OracleCallFailed),
        }
    }

    /// Plancks per USD as the DOT/USD oracle implies it.
    pub fn get_current_usd_rate(&self, feed: &OracleFeed) -> (r: Option<u128>)
        ensures
            r == self@.usd_rate(feed@),
    {
        self.get_usd_to_plancks_rate(feed)
    }

    /// Names the oracle that quotes DOT in USD. Only the owner may.
    pub fn set_dot_usd_oracle(
        &mut self,
        caller: AccountId,
        oracle_contract: AccountId,
    ) -> (result: Result<(), Error>)
        requires
            old(self).wf(),
        ensures
            final(self).wf(),
            result == if caller != old(self)@.owner {
                Err::<(), Error>(Error::Unauthorized)
            } else if oracle_contract == AccountId::spec_zero() {
                Err::<(), Error>(Error::ZeroAddress)
            } else {
                Ok::<(), Error>(())
            },
            result.is_err() ==> final(self)@ == old(self)@,
            result.is_ok() ==> final(self)@ == (RegistryView {
                dot_usd_oracle: Some(oracle_contract),
                ..old(self)@
            }),
    {
        self.ensure_owner(caller)?;
        if oracle_contract.is_zero() {
            return Err(Error::ZeroAddress);
        }
        self.dot_usd_oracle = Some(oracle_contract);
        Ok(())
    }

    pub fn get_dot_usd_oracle(&self) -> (r: Option<AccountId>)
        ensures
            r == self@.dot_usd_oracle,
    {
        self.dot_usd_oracle
    }

    /// Replaces the thresholds, which must rise strictly from tier to tier in
    /// both columns. Only the owner may.
    pub fn set_tier_thresholds(
        &mut self,
        caller: AccountId,
        now: u64,
        thresholds: TierThresholds,
        feed: &OracleFeed,
    ) -> (result: Result<(), Error>)
        requires
            old(self).wf(),
        ensures
            final(self).wf(),
            result == if caller != old(self)@.owner {
                Err::<(), Error>(Error::Unauthorized)
            } else if !thresholds.ascending() {
                Err::<(), Error>(Error::InvalidParameter)
            } else {
                Ok::<(), Error>(())
            },
            result.is_err() ==> final(self)@ == old(self)@,
            result.is_ok() ==> final(self)@ == (RegistryView {
                tier_thresholds: thresholds,
                ..old(self)@
            }).with_event(
                RegistryEvent::TierThresholdsUpdated(
                    TierThresholdsUpdated {
                        updated_by: caller,
                        timestamp: now,
                        new_usd_rate: match old(self)@.usd_rate(feed@) {
                            Some(rate) => rate,
                            None => 0,
                        },
                    },
                ),
            ),
    {
        self.ensure_owner(caller)?;
        if thresholds.tier1_market_cap_usd >= thresholds.tier2_market_cap_usd
            || thresholds.tier2_market_cap_usd >= thresholds.tier3_market_cap_usd
            || thresholds.tier3_market_cap_usd >= thresholds.tier4_market_cap_usd {
            return Err(Error::InvalidParameter);
        }
        if thresholds.tier1_volume_usd >= thresholds.tier2_volume_usd || thresholds.tier2_volume_usd
            >= thresholds.tier3_volume_usd || thresholds.tier3_volume_usd
            >= thresholds.tier4_volume_usd {
            return Err(Error::InvalidParameter);
        }
        self.tier_thresholds = thresholds;
        let new_usd_rate = match self.get_usd_to_plancks_rate(feed) {
            Some(rate) => rate,
            None => 0,
        };
        self.events.push(
            RegistryEvent::TierThresholdsUpdated(
                TierThresholdsUpdated { updated_by: caller, timestamp: now, new_usd_rate },
            ),
        );
        Ok(())
    }

    pub fn get_tier_thresholds(&self) -> (r: TierThresholds)
        ensures
            r == self@.tier_thresholds,
    {
        self.tier_thresholds
    }
}

} // verus!
