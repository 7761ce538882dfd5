//! What the portfolio asks of the registry.

use crate::feed::{tier_answer, RegistryFeed};
use crate::portfolio::Portfolio;
use crate::shared::{EnrichedTokenData, Error};
use vstd::prelude::*;

verus! {

impl Portfolio {
    /// Asks the registry for the data of a token.
    pub fn call_registry_get_token_data(
        &self,
        token_id: u32,
        registry: &RegistryFeed,
    ) -> (result: Result<EnrichedTokenData, Error>)
        ensures
            result == self@.token_data(registry.tokens@, token_id),
    {
        if self.registry_contract.is_none() {
            return Err(Error::InvalidParameter);
        }
        match registry.token_data(token_id) {
            Some(answer) => answer,
            None => Err(Error::OracleCallFailed),
        }
    }

    /// Asks the registry for the active tier.
    pub fn call_registry_get_active_tier(
        &self,
        registry: &RegistryFeed,
    ) -> (result: Result<u32, Error>)
        ensures
            result == if self@.registry_contract.is_none() {
                Err::<u32, Error>(Error::InvalidParameter)
            } else {
                match registry.active_tier {
                    Some(tier) => Ok::<u32, Error>(tier),
                    None => Err::<u32, Error>(Error::OracleCallFailed),
                }
            },
    {
        if self.registry_contract.is_none() {
            return Err(Error::InvalidParameter);
        }
        match registry.active_tier {
            Some(tier) => Ok(tier),
            None => Err(Error::OracleCallFailed),
        }
    }

    /// Asks the registry for the tokens of a tier.
    pub fn call_registry_get_tokens_by_tier(
        &self,
        tier: u32,
        registry: &RegistryFeed,
    ) -> (result: Result<Vec<u32>, Error>)
        ensures
            self@.registry_contract.is_none() ==> result == Err::<Vec<u32>, Error>(
                Error::InvalidParameter,
            ),
            self@.registry_contract.is_some() ==> match tier_answer(registry.tiers@, tier) {
                Some(ids) => result.is_ok() && result.unwrap()@ == ids,
                None => result == Err::<Vec<u32>, Error>(Error::OracleCallFailed),
            },
    {
        if self.registry_contract.is_none() {
            return Err(Error::InvalidParameter);
        }
        match registry.tokens_by_tier(tier) {
            Some(listed) => {
                let mut ids: Vec<u32> = Vec::new();
                let mut i: usize = 0;
                while i < listed.len()
                    invariant
                        i <= listed@.len(),
                        ids@ == listed@.take(i as int),
                    decreases listed@.len() - i,
                {
                    ids.push(listed[i]);
                    i = i + 1;
                }
                Ok(ids)
            },
            None => Err(Error::OracleCallFailed),
        }
    }

    /// Price, market capitalisation and volume of a token as the registry
    /// reports them.
    pub fn get_token_market_data(
        &self,
        token_id: u32,
        registry: &RegistryFeed,
    ) -> (result: Result<(u128, u128, u128), Error>)
        ensures
            result == match self@.token_data(registry.tokens@, token_id) {
                Ok(data) => Ok::<(u128, u128, u128), Error>(
                    (data.price, data.market_cap, data.market_volume),
                ),
                Err(e) => Err::<(u128, u128, u128), Error>(e),
            },
    {
        let token_data = self.call_registry_get_token_data(token_id, registry)?;
        Ok((token_data.price, token_data.market_cap, token_data.market_volume))
    }

    /// The tokens of the active tier, as the registry lists them.
    pub fn get_rebalancing_targets(
        &self,
        registry: &RegistryFeed,
    ) -> (result: Result<Vec<u32>, Error>)
        ensures
            self@.registry_contract.is_none() ==> result == Err::<Vec<u32>, Error>(
                Error::InvalidParameter,
            ),
            self@.registry_contract.is_some() ==> match registry.active_tier {
                None => result == Err::<Vec<u32>, Error>(Error::OracleCallFailed),
                Some(tier) => match tier_answer(registry.tiers@, tier) {
                    Some(ids) => result.is_ok() && result.unwrap()@ == ids,
                    None => result == Err::<Vec<u32>, Error>(Error::OracleCallFailed),
                },
            },
    {
        let active_tier = self.call_registry_get_active_tier(registry)?;
        self.call_registry_get_tokens_by_tier(active_tier, registry)
    }

    /// Whether the registry lists a token in the active tier.
    pub fn is_token_in_active_tier(
        &self,
        token_id: u32,
        registry: &RegistryFeed,
    ) -> (result: Result<bool, Error>)
        ensures
            self@.registry_contract.is_none() ==> result == Err::<bool, Error>(
                Error::InvalidParameter,
            ),
            self@.registry_contract.is_some() ==> match registry.active_tier {
                None => result == Err::<bool, Error>(Error::OracleCallFailed),
                Some(tier) => match tier_answer(registry.tiers@, tier) {
                    Some(ids) => result == Ok::<bool, Error>(ids.contains(token_id)),
                    None => result == Err::<bool, Error>(Error::OracleCallFailed),
                },
            },
    {
        let active_tier_tokens = self.get_rebalancing_targets(registry)?;
        let mut i: usize = 0;
        while i < active_tier_tokens.len()
            invariant
                i <= active_tier_tokens@.len(),
                forall|j: int| 0 <= j < i ==> active_tier_tokens@[j] != token_id,
                self@.registry_contract.is_some(),
                registry.active_tier.is_some(),
                tier_answer(registry.tiers@, registry.active_tier.unwrap()) == Some(
                    active_tier_tokens@,
                ),
            decreases active_tier_tokens@.len() - i,
        {
            if active_tier_tokens[i] == token_id {
                return Ok(true);
            }
            i = i + 1;
        }
        Ok(false)
    }

    /// The ids of the tokens held for which the registry does not answer.
    pub fn validate_holdings_against_registry(
        &self,
        registry: &RegistryFeed,
    ) -> (result: Result<Vec<u32>, Error>)
        ensures
            result.is_ok(),
            result.unwrap()@ == self@.unanswered(registry.tokens@, self@.holdings.len() as int),
    {
        let mut invalid_tokens: Vec<u32> = Vec::new();
        let n = self.holdings.len();
        let mut i: usize = 0;
        while i < n
            invariant
                n == self@.holdings.len(),
                i <= n,
                invalid_tokens@ == self@.unanswered(registry.tokens@, i as int),
            decreases n - i,
        {
            let token_id = self.holdings[i].token_id;
            if self.call_registry_get_token_data(token_id, registry).is_err() {
                invalid_tokens.push(token_id);
            }
            i = i + 1;
        }
        Ok(invalid_tokens)
    }

    /// Probes the registry with up to five of the tokens held: whether it
    /// answered for any, and for how many.
    pub fn test_registry_connection(
        &self,
        registry: &RegistryFeed,
    ) -> (result: Result<(bool, u32), Error>)
        ensures
            result == Ok::<(bool, u32), Error>(
                if self@.registry_contract.is_none() {
                    (false, 0u32)
                } else {
                    let probed = if self@.holdings.len() < 5 {
                        self@.holdings.len() as int
                    } else {
                        5
                    };
                    (
                        self@.priced_count(registry.tokens@, probed) > 0,
                        self@.priced_count(registry.tokens@, probed) as u32,
                    )
                },
            ),
    {
        if self.registry_contract.is_none() {
            return Ok((false, 0));
        }
        let mut successful_calls: u32 = 0;
        let probed: usize = if self.holdings.len() < 5 {
            self.holdings.len()
        } else {
            5
        };
        let mut i: usize = 0;
        while i < probed
            invariant
                probed <= self@.holdings.len(),
                probed <= 5,
                i <= probed,
                successful_calls == self@.priced_count(registry.tokens@, i as int),
                successful_calls <= i,
            decreases probed - i,
        {
            if self.call_registry_get_token_data(self.holdings[i].token_id, registry).is_ok() {
                successful_calls = successful_calls + 1;
            }
            i = i + 1;
        }
        Ok((successful_calls > 0, successful_calls))
    }
}

} // verus!
