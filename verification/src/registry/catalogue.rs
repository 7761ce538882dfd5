//! The catalogue of tokens: adding, updating, removing and looking up.

use crate::feed::{quoted_price, OracleFeed};
use crate::registry::Registry;
use crate::registry::events::{
    RegistryEvent, TierChangeReason, TokenAdded, TokenRemoved, TokenUpdated,
};
use crate::registry::model::{ids_in_tier, pending_changes};
use crate::registry::tier::Tier;
use crate::registry::tokens::{
    has_id, id_of_contract, lemma_count_push, lemma_count_remove, lemma_counts_sum_to_len,
    lemma_len_below_next_id, lemma_remove_keeps_order, position_of_id, token_with_id,
    EnhancedTokenData, TokenRecord,
};
use crate::shared::{AccountId, EnrichedTokenData, Error, Role, TokenData};
use vstd::prelude::*;

verus! {

impl Registry {
    /// Registers a token and classifies it at once, without a grace period.
    /// Ids are given out from 1 upwards and never reused; a registry that has
    /// given out the last id but one refuses further tokens.
    pub fn add_token(
        &mut self,
        caller: AccountId,
        now: u64,
        token_contract: AccountId,
        oracle_contract: AccountId,
        feed: &OracleFeed,
    ) -> (result: Result<u32, Error>)
        requires
            old(self).wf(),
        ensures
            final(self).wf(),
            result == old(self)@.add_token_outcome(caller, token_contract, oracle_contract),
            result.is_err() ==> final(self)@ == old(self)@,
            result.is_ok() ==> ({
                let record = old(self)@.new_record(feed@, token_contract, oracle_contract);
                final(self)@ == old(self)@.with_token(record).after_auto_shift(now).with_event(
                    RegistryEvent::TokenAdded(
                        TokenAdded {
                            token_id: record.id,
                            token_contract,
                            oracle_contract,
                            initial_tier: record.data.tier,
                            added_by: caller,
                        },
                    ),
                )
            }),
    {
        if self.ensure_role(Role::TokenManager, caller).is_err() {
            return Err(Error::UnauthorizedRole);
        }
        if token_contract.is_zero() {
            return Err(Error::ZeroAddress);
        }
        if oracle_contract.is_zero() {
            return Err(Error::ZeroAddress);
        }
        if self.find_contract(token_contract).is_some() {
            return Err(Error::TokenAlreadyExists);
        }
        if self.next_token_id == u32::MAX {
            return Err(Error::InvalidParameter);
        }
        let token_id = self.next_token_id;
        let initial_tier = match self.calculate_token_tier_internal(
            feed,
            token_contract,
            oracle_contract,
        ) {
            Some(tier) => tier,
            None => Tier::Unranked,
        };
        let record = TokenRecord {
            id: token_id,
            data: EnhancedTokenData {
                token_contract,
                oracle_contract,
                balance: 0,
                weight_investment: 0,
                tier: initial_tier,
                tier_change_timestamp: None,
                pending_tier_change: None,
            },
        };
        let ghost before = self.tokens@;
        proof {
            lemma_counts_sum_to_len(before);
            lemma_counts_sum_to_len(before.push(record));
            lemma_len_below_next_id(before, self.next_token_id);
            lemma_count_push(before, record, Tier::Unranked);
            lemma_count_push(before, record, Tier::Tier1);
            lemma_count_push(before, record, Tier::Tier2);
            lemma_count_push(before, record, Tier::Tier3);
            lemma_count_push(before, record, Tier::Tier4);
        }
        self.tokens.push(record);
        self.next_token_id = self.next_token_id + 1;
        self.tier_distribution.increment(initial_tier);
        self.check_and_execute_auto_tier_shift(now);
        self.events.push(
            RegistryEvent::TokenAdded(
                TokenAdded {
                    token_id,
                    token_contract,
                    oracle_contract,
                    initial_tier,
                    added_by: caller,
                },
            ),
        );
        Ok(token_id)
    }

    /// Sets balance and weight of a token and recalculates its tier. A
    /// different tier is parked for the grace period; when the oracle is
    /// silent the tier stays as it is and the update still goes through.
    pub fn update_token(
        &mut self,
        caller: AccountId,
        now: u64,
        token_id: u32,
        balance: u128,
        weight_investment: u32,
        feed: &OracleFeed,
    ) -> (result: Result<(), Error>)
        requires
            old(self).wf(),
        ensures
            final(self).wf(),
            result == old(self)@.update_token_outcome(caller, token_id, weight_investment),
            result.is_err() ==> final(self)@ == old(self)@,
            result.is_ok() ==> ({
                let index = position_of_id(old(self)@.tokens, token_id);
                let stored = old(self)@.tokens[index].data;
                let updated = EnhancedTokenData { balance, weight_investment, ..stored };
                let new_tier = match old(self)@.computed_tier(
                    feed@,
                    stored.token_contract,
                    stored.oracle_contract,
                ) {
                    Some(tier) => tier,
                    None => stored.tier,
                };
                final(self)@ == old(self)@.with_token_data(index, updated).with_tier_change(
                    index,
                    new_tier,
                    TierChangeReason::Automatic,
                    now,
                    feed@,
                ).after_auto_shift(now).with_event(
                    RegistryEvent::TokenUpdated(
                        TokenUpdated {
                            token_id,
                            balance,
                            weight_investment,
                            old_tier: stored.tier,
                            new_tier: stored.tier,
                            updated_by: caller,
                        },
                    ),
                )
            }),
    {
        if self.ensure_role(Role::TokenUpdater, caller).is_err() {
            return Err(Error::UnauthorizedRole);
        }
        if weight_investment > 10000 {
            return Err(Error::InvalidWeight);
        }
        let index = match self.find_token(token_id) {
            Some(index) => index,
            None => {
                return Err(Error::TokenNotFound);
            },
        };
        let mut token_data = self.tokens[index].data;
        let old_tier = token_data.tier;
        token_data.balance = balance;
        token_data.weight_investment = weight_investment;
        let new_tier = match self.calculate_token_tier_internal(
            feed,
            token_data.token_contract,
            token_data.oracle_contract,
        ) {
            Some(tier) => tier,
            None => old_tier,
        };
        self.replace_token(index, token_data);
        self.handle_tier_change(index, new_tier, TierChangeReason::Automatic, now, feed);
        let applied_tier = self.tokens[index].data.tier;
        self.check_and_execute_auto_tier_shift(now);
        self.events.push(
            RegistryEvent::TokenUpdated(
                TokenUpdated {
                    token_id,
                    balance,
                    weight_investment,
                    old_tier,
                    new_tier: applied_tier,
                    updated_by: caller,
                },
            ),
        );
        Ok(())
    }

    /// Takes a token out of the registry. Its id is not given out again.
    pub fn remove_token(
        &mut self,
        caller: AccountId,
        now: u64,
        token_id: u32,
    ) -> (result: Result<(), Error>)
        requires
            old(self).wf(),
        ensures
            final(self).wf(),
            result == old(self)@.remove_token_outcome(caller, token_id),
            result.is_err() ==> final(self)@ == old(self)@,
            result.is_ok() ==> ({
                let index = position_of_id(old(self)@.tokens, token_id);
                let removed = old(self)@.tokens[index].data;
                final(self)@ == old(self)@.without_token(index).after_auto_shift(now).with_event(
                    RegistryEvent::TokenRemoved(
                        TokenRemoved {
                            token_id,
                            token_contract: removed.token_contract,
                            tier: removed.tier,
                            removed_by: caller,
                        },
                    ),
                )
            }),
    {
        if self.ensure_role(Role::TokenManager, caller).is_err() {
            return Err(Error::UnauthorizedRole);
        }
        let index = match self.find_token(token_id) {
            Some(index) => index,
            None => {
                return Err(Error::TokenNotFound);
            },
        };
        let ghost before = self.tokens@;
        proof {
            lemma_counts_sum_to_len(before);
            lemma_counts_sum_to_len(before.remove(index as int));
            lemma_len_below_next_id(before, self.next_token_id);
            lemma_count_remove(before, index as int, Tier::Unranked);
            lemma_count_remove(before, index as int, Tier::Tier1);
            lemma_count_remove(before, index as int, Tier::Tier2);
            lemma_count_remove(before, index as int, Tier::Tier3);
            lemma_count_remove(before, index as int, Tier::Tier4);
            lemma_remove_keeps_order(before, index as int, self.next_token_id);
        }
        let record = self.tokens.remove(index);
        self.tier_distribution.decrement(record.data.tier);
        self.check_and_execute_auto_tier_shift(now);
        self.events.push(
            RegistryEvent::TokenRemoved(
                TokenRemoved {
                    token_id,
                    token_contract: record.data.token_contract,
                    tier: record.data.tier,
                    removed_by: caller,
                },
            ),
        );
        Ok(())
    }

    /// The number of registered tokens.
    pub fn get_token_count(&self) -> (r: u32)
        requires
            self.wf(),
        ensures
            r == self@.token_count(),
            r == self@.tokens.len(),
    {
        proof {
            lemma_len_below_next_id(self@.tokens, self@.next_token_id);
        }
        self.tokens.len() as u32
    }

    pub fn get_owner(&self) -> (r: AccountId)
        ensures
            r == self@.owner,
    {
        self.owner
    }

    /// Whether a token is registered under `token_id`.
    pub fn token_exists(&self, token_id: u32) -> (r: bool)
        requires
            self.wf(),
        ensures
            r == has_id(self@.tokens, token_id),
    {
        self.find_token(token_id).is_some()
    }

    pub fn get_enhanced_token_data(
        &self,
        token_id: u32,
    ) -> (result: Result<EnhancedTokenData, Error>)
        requires
            self.wf(),
        ensures
            result == match token_with_id(self@.tokens, token_id) {
                Some(data) => Ok::<EnhancedTokenData, Error>(data),
                None => Err::<EnhancedTokenData, Error>(Error::TokenNotFound),
            },
    {
        match self.find_token(token_id) {
            Some(index) => Ok(self.tokens[index].data),
            None => Err(Error::TokenNotFound),
        }
    }

    /// A token together with what its oracle quotes. Whatever the oracle
    /// does not answer counts as 0.
    pub fn get_token_data(
        &self,
        token_id: u32,
        feed: &OracleFeed,
    ) -> (result: Result<EnrichedTokenData, Error>)
        requires
            self.wf(),
        ensures
            result == match token_with_id(self@.tokens, token_id) {
                Some(data) => Ok::<EnrichedTokenData, Error>(
                    EnrichedTokenData {
                        token_contract: data.token_contract,
                        oracle_contract: data.oracle_contract,
                        balance: data.balance,
                        weight_investment: data.weight_investment,
                        tier: data.tier.rank() as u32,
                        market_cap: crate::feed::quoted_market_cap(
                            feed@,
                            data.oracle_contract,
                            data.token_contract,
                        ).unwrap_or(0),
                        market_volume: crate::feed::quoted_market_volume(
                            feed@,
                            data.oracle_contract,
                            data.token_contract,
                        ).unwrap_or(0),
                        price: quoted_price(
                            feed@,
                            data.oracle_contract,
                            data.token_contract,
                        ).unwrap_or(0),
                    },
                ),
                None => Err::<EnrichedTokenData, Error>(Error::TokenNotFound),
            },
    {
        let index = match self.find_token(token_id) {
            Some(index) => index,
            None => {
                return Err(Error::TokenNotFound);
            },
        };
        let token_data = self.tokens[index].data;
        let price = match feed.get_price(token_data.oracle_contract, token_data.token_contract) {
            Some(p) => p,
            None => 0,
        };
        let market_cap = match feed.get_market_cap(
            token_data.oracle_contract,
            token_data.token_contract,
        ) {
            Some(mc) => mc,
            None => 0,
        };
        let market_volume = match feed.get_market_volume(
            token_data.oracle_contract,
            token_data.token_contract,
        ) {
            Some(mv) => mv,
            None => 0,
        };
        Ok(
            EnrichedTokenData {
                token_contract: token_data.token_contract,
                oracle_contract: token_data.oracle_contract,
                balance: token_data.balance,
                weight_investment: token_data.weight_investment,
                tier: token_data.tier.number(),
                market_cap,
                market_volume,
                price,
            },
        )
    }

    /// A token without grace-period details and oracle data.
    pub fn get_basic_token_data(&self, token_id: u32) -> (result: Result<TokenData, Error>)
        requires
            self.wf(),
        ensures
            result == match token_with_id(self@.tokens, token_id) {
                Some(data) => Ok::<TokenData, Error>(data.basic()),
                None => Err::<TokenData, Error>(Error::TokenNotFound),
            },
    {
        let index = match self.find_token(token_id) {
            Some(index) => index,
            None => {
                return Err(Error::TokenNotFound);
            },
        };
        let enhanced_data = self.tokens[index].data;
        Ok(
            TokenData {
                token_contract: enhanced_data.token_contract,
                oracle_contract: enhanced_data.oracle_contract,
                balance: enhanced_data.balance,
                weight_investment: enhanced_data.weight_investment,
                tier: enhanced_data.tier.number(),
            },
        )
    }

    /// The id under which `token_contract` is registered.
    pub fn get_token_id_by_contract(&self, token_contract: AccountId) -> (r: Option<u32>)
        requires
            self.wf(),
        ensures
            r == id_of_contract(self@.tokens, token_contract),
    {
        match self.find_contract(token_contract) {
            Some(index) => Some(self.tokens[index].id),
            None => None,
        }
    }

    /// The ids of the tokens in `tier`, rising.
    pub fn get_tokens_by_tier(&self, tier: Tier) -> (r: Vec<u32>)
        ensures
            r@ == ids_in_tier(self@.tokens, tier),
    {
        let mut ids: Vec<u32> = Vec::new();
        let n = self.tokens.len();
        let mut i: usize = 0;
        while i < n
            invariant
                n == self@.tokens.len(),
                i <= n,
                ids@ == ids_in_tier(self@.tokens.take(i as int), tier),
            decreases n - i,
        {
            proof {
                assert(self@.tokens.take(i + 1).drop_last() =~= self@.tokens.take(i as int));
            }
            if self.tokens[i].data.tier == tier {
                ids.push(self.tokens[i].id);
            }
            i = i + 1;
        }
        assert(self@.tokens.take(n as int) =~= self@.tokens);
        ids
    }

    /// For each token with a pending change: its id, the tier in force, the
    /// pending tier and the time at which it was parked.
    pub fn get_tokens_with_pending_changes(&self) -> (r: Vec<(u32, Tier, Tier, u64)>)
        ensures
            r@ == pending_changes(self@.tokens),
    {
        let mut pending: Vec<(u32, Tier, Tier, u64)> = Vec::new();
        let n = self.tokens.len();
        let mut i: usize = 0;
        while i < n
            invariant
                n == self@.tokens.len(),
                i <= n,
                pending@ == pending_changes(self@.tokens.take(i as int)),
            decreases n - i,
        {
            proof {
                assert(self@.tokens.take(i + 1).drop_last() =~= self@.tokens.take(i as int));
            }
            let record = self.tokens[i];
            if let (Some(pending_tier), Some(change_time)) = (
                record.data.pending_tier_change,
                record.data.tier_change_timestamp,
            ) {
                pending.push((record.id, record.data.tier, pending_tier, change_time));
            }
            i = i + 1;
        }
        assert(self@.tokens.take(n as int) =~= self@.tokens);
        pending
    }
}

} // verus!
