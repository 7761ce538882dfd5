//! Adding, updating and removing holdings, one by one and in batches.

use crate::feed::RegistryFeed;
use crate::portfolio::{Portfolio, PortfolioComposition};
use crate::portfolio::events::{
    PortfolioEvent, TokenHoldingAdded, TokenHoldingRemoved, TokenHoldingUpdated,
};
use crate::portfolio::holdings::{
    holding_of, holds, ids_distinct, lemma_remove_keeps_distinct, lemma_weight_push,
    lemma_weight_remove, lemma_weight_update, position_of, total_amount, total_weight,
    HoldingRecord, TokenHolding, FULL_WEIGHT_BP,
};
use crate::portfolio::model::{
    amount_events, amount_updates, amounts_applied, batch_record, batch_rejection, batch_weight,
    entry_rejection, lemma_accepted_batch, lemma_rejection_persists, listed_before, NewHolding,
    PortfolioView,
};
use crate::shared::{AccountId, Error};
use vstd::prelude::*;

verus! {

impl Portfolio {
    /// Adds a holding. The target weights of all holdings may not exceed
    /// 10000 basis points together; a weight that would is refused.
    pub fn add_token_holding(
        &mut self,
        caller: AccountId,
        now: u64,
        token_id: u32,
        amount: u128,
        target_weight_bp: u32,
        registry: &RegistryFeed,
    ) -> (result: Result<(), Error>)
        requires
            old(self).wf(),
        ensures
            final(self).wf(),
            result == old(self)@.add_holding_outcome(caller, token_id, amount, target_weight_bp),
            result.is_err() ==> final(self)@ == old(self)@,
            result.is_ok() ==> final(self)@ == (PortfolioView {
                holdings: old(self)@.holdings.push(
                    HoldingRecord {
                        token_id,
                        holding: TokenHolding {
                            amount,
                            target_weight_bp,
                            last_rebalance: now,
                            fees_collected: 0,
                        },
                    },
                ),
                ..old(self)@
            }).with_index_refreshed(now, registry.tokens@).with_event(
                PortfolioEvent::TokenHoldingAdded(
                    TokenHoldingAdded {
                        token_id,
                        amount,
                        target_weight_bp,
                        added_by: caller,
                        timestamp: now,
                    },
                ),
            ),
    {
        self.ensure_owner(caller)?;
        self.ensure_not_emergency_paused()?;
        if amount == 0 {
            return Err(Error::InvalidParameter);
        }
        if target_weight_bp > 10000 {
            return Err(Error::InvalidParameter);
        }
        if self.find_holding(token_id).is_some() {
            return Err(Error::TokenAlreadyExists);
        }
        if self.holdings.len() >= self.max_tokens as usize {
            return Err(Error::InvalidParameter);
        }
        let current_weight = self.calculate_total_target_weight();
        let total_weight = current_weight.saturating_add(target_weight_bp);
        if total_weight > 10000 {
            return Err(Error::InvalidParameter);
        }
        let record = HoldingRecord {
            token_id,
            holding: TokenHolding {
                amount,
                target_weight_bp,
                last_rebalance: now,
                fees_collected: 0,
            },
        };
        proof {
            lemma_weight_push(self.holdings@, record);
        }
        self.holdings.push(record);
        self.trigger_index_update(now, registry);
        self.events.push(
            PortfolioEvent::TokenHoldingAdded(
                TokenHoldingAdded {
                    token_id,
                    amount,
                    target_weight_bp,
                    added_by: caller,
                    timestamp: now,
                },
            ),
        );
        Ok(())
    }

    /// Sets amount and target weight of a holding.
    pub fn update_token_holding(
        &mut self,
        caller: AccountId,
        now: u64,
        token_id: u32,
        new_amount: u128,
        new_target_weight_bp: u32,
        registry: &RegistryFeed,
    ) -> (result: Result<(), Error>)
        requires
            old(self).wf(),
        ensures
            final(self).wf(),
            result == old(self)@.update_holding_outcome(caller, token_id, new_target_weight_bp),
            result.is_err() ==> final(self)@ == old(self)@,
            result.is_ok() ==> ({
                let index = position_of(old(self)@.holdings, token_id);
                let held = old(self)@.holdings[index].holding;
                final(self)@ == (PortfolioView {
                    holdings: old(self)@.holdings.update(
                        index,
                        HoldingRecord {
                            token_id,
                            holding: TokenHolding {
                                amount: new_amount,
                                target_weight_bp: new_target_weight_bp,
                                last_rebalance: now,
                                ..held
                            },
                        },
                    ),
                    ..old(self)@
                }).with_index_refreshed(now, registry.tokens@).with_event(
                    PortfolioEvent::TokenHoldingUpdated(
                        TokenHoldingUpdated {
                            token_id,
                            old_amount: held.amount,
                            new_amount,
                            old_weight: held.target_weight_bp,
                            new_weight: new_target_weight_bp,
                            updated_by: caller,
                            timestamp: now,
                        },
                    ),
                )
            }),
    {
        self.ensure_owner(caller)?;
        self.ensure_not_emergency_paused()?;
        if new_target_weight_bp > 10000 {
            return Err(Error::InvalidParameter);
        }
        let index = match self.find_holding(token_id) {
            Some(index) => index,
            None => {
                return Err(Error::TokenNotFound);
            },
        };
        let mut holding = self.holdings[index].holding;
        let current_total_weight = self.calculate_total_target_weight();
        let new_total_weight = if new_target_weight_bp >= holding.target_weight_bp {
            current_total_weight.saturating_add(
                new_target_weight_bp.saturating_sub(holding.target_weight_bp),
            )
        } else {
            current_total_weight.saturating_sub(
                holding.target_weight_bp.saturating_sub(new_target_weight_bp),
            )
        };
        if new_total_weight > 10000 {
            return Err(Error::InvalidParameter);
        }
        let old_amount = holding.amount;
        let old_weight = holding.target_weight_bp;
        holding.amount = new_amount;
        holding.target_weight_bp = new_target_weight_bp;
        holding.last_rebalance = now;
        proof {
            lemma_weight_update(self.holdings@, index as int, HoldingRecord { token_id, holding });
        }
        self.holdings.set(index, HoldingRecord { token_id, holding });
        self.trigger_index_update(now, registry);
        self.events.push(
            PortfolioEvent::TokenHoldingUpdated(
                TokenHoldingUpdated {
                    token_id,
                    old_amount,
                    new_amount,
                    old_weight,
                    new_weight: new_target_weight_bp,
                    updated_by: caller,
                    timestamp: now,
                },
            ),
        );
        Ok(())
    }

    /// Removes a holding.
    pub fn remove_token_holding(
        &mut self,
        caller: AccountId,
        now: u64,
        token_id: u32,
        registry: &RegistryFeed,
    ) -> (result: Result<(), Error>)
        requires
            old(self).wf(),
        ensures
            final(self).wf(),
            result == old(self)@.remove_holding_outcome(caller, token_id),
            result.is_err() ==> final(self)@ == old(self)@,
            result.is_ok() ==> ({
                let index = position_of(old(self)@.holdings, token_id);
                final(self)@ == (PortfolioView {
                    holdings: old(self)@.holdings.remove(index),
                    ..old(self)@
                }).with_index_refreshed(now, registry.tokens@).with_event(
                    PortfolioEvent::TokenHoldingRemoved(
                        TokenHoldingRemoved {
                            token_id,
                            final_amount: old(self)@.holdings[index].holding.amount,
                            removed_by: caller,
                            timestamp: now,
                        },
                    ),
                )
            }),
    {
        self.ensure_owner(caller)?;
        self.ensure_not_emergency_paused()?;
        let index = match self.find_holding(token_id) {
            Some(index) => index,
            None => {
                return Err(Error::TokenNotFound);
            },
        };
        proof {
            lemma_weight_remove(self.holdings@, index as int);
            lemma_remove_keeps_distinct(self.holdings@, index as int);
        }
        let record = self.holdings.remove(index);
        let final_amount = record.holding.amount;
        self.trigger_index_update(now, registry);
        self.events.push(
            PortfolioEvent::TokenHoldingRemoved(
                TokenHoldingRemoved { token_id, final_amount, removed_by: caller, timestamp: now },
            ),
        );
        Ok(())
    }

    /// Adds several holdings at once, or none of them. An entry is refused
    /// for an amount of zero, a weight above the whole, or a token that is
    /// held already or listed twice. Returns how many were added.
    pub fn add_multiple_holdings(
        &mut self,
        caller: AccountId,
        now: u64,
        holdings_data: Vec<NewHolding>,
    ) -> (result: Result<u32, Error>)
        requires
            old(self).wf(),
        ensures
            final(self).wf(),
            result == old(self)@.add_batch_outcome(caller, holdings_data@),
            result.is_err() ==> final(self)@ == old(self)@,
            result.is_ok() ==> final(self)@ == (PortfolioView {
                holdings: old(self)@.holdings + Seq::new(
                    holdings_data@.len(),
                    |i: int| batch_record(holdings_data@[i], now),
                ),
                events: old(self)@.events + Seq::new(
                    holdings_data@.len(),
                    |i: int|
                        PortfolioEvent::TokenHoldingAdded(
                            TokenHoldingAdded {
                                token_id: holdings_data@[i].0,
                                amount: holdings_data@[i].1,
                                target_weight_bp: holdings_data@[i].2,
                                added_by: caller,
                                timestamp: now,
                            },
                        ),
                ),
                ..old(self)@
            }),
    {
        self.ensure_owner(caller)?;
        self.ensure_not_emergency_paused()?;
        let n = holdings_data.len();
        if n == 0 {
            return Err(Error::InvalidParameter);
        }
        let held = self.holdings.len();
        if n > self.max_tokens as usize || held > self.max_tokens as usize - n {
            return Err(Error::InvalidParameter);
        }
        let ghost entries = holdings_data@;
        let ghost before = self@;
        let mut total_new_weight: u64 = 0;
        let mut i: usize = 0;
        while i < n
            invariant
                self.wf(),
                self@ == before,
                before == old(self)@,
                before.holdings_gate(caller).is_ok(),
                entries == holdings_data@,
                n == entries.len(),
                n > 0,
                before.holdings.len() + n <= before.max_tokens,
                n <= u32::MAX,
                i <= n,
                batch_rejection(entries, i as int, before.holdings).is_none(),
                total_new_weight == batch_weight(entries, i as int),
                total_new_weight <= 10000 * i,
            decreases n - i,
        {
            let entry = holdings_data[i];
            if entry.1 == 0 || entry.2 > 10000 {
                proof {
                    lemma_rejection_persists(entries, i + 1, n as int, before.holdings);
                }
                return Err(Error::InvalidParameter);
            }
            let mut listed = self.find_holding(entry.0).is_some();
            let mut j: usize = 0;
            while j < i
                invariant
                    j <= i,
                    i < n,
                    entries == holdings_data@,
                    n == entries.len(),
                    entry == entries[i as int],
                    listed == (holds(before.holdings, entry.0) || listed_before(
                        entries,
                        j as int,
                        entry.0,
                    )),
                decreases i - j,
            {
                if holdings_data[j].0 == entry.0 {
                    listed = true;
                }
                proof {
                    if listed_before(entries, j + 1, entry.0) && !listed_before(
                        entries,
                        j as int,
                        entry.0,
                    ) {
                        let k = choose|k: int|
                            0 <= k < j + 1 && k < entries.len() && #[trigger] entries[k].0
                                == entry.0;
                        assert(k == j);
                    }
                    if listed_before(entries, j as int, entry.0) {
                        let k = choose|k: int|
                            0 <= k < j && k < entries.len() && #[trigger] entries[k].0 == entry.0;
                        assert(0 <= k < j + 1 && entries[k].0 == entry.0);
                    }
                    if holdings_data@[j as int].0 == entry.0 {
                        assert(0 <= j < j + 1 && entries[j as int].0 == entry.0);
                    }
                }
                j = j + 1;
            }
            if listed {
                proof {
                    lemma_rejection_persists(entries, i + 1, n as int, before.holdings);
                }
                return Err(Error::TokenAlreadyExists);
            }
            total_new_weight = total_new_weight + entry.2 as u64;
            i = i + 1;
        }
        let current_total_weight = self.calculate_total_target_weight();
        if current_total_weight as u64 + total_new_weight > 10000 {
            return Err(Error::InvalidParameter);
        }
        proof {
            lemma_accepted_batch(entries, n as int, before.holdings);
        }
        let mut added_count: u32 = 0;
        let mut k: usize = 0;
        while k < n
            invariant
                before.valid(),
                entries == holdings_data@,
                n == entries.len(),
                before.holdings.len() + n <= before.max_tokens,
                k <= n,
                added_count == k,
                batch_rejection(entries, n as int, before.holdings).is_none(),
                forall|m: int|
                    0 <= m < n ==> entry_rejection(entries, m, before.holdings).is_none(),
                forall|m: int|
                    0 <= m <= n ==> batch_weight(entries, m) <= batch_weight(entries, n as int),
                total_weight(before.holdings) + batch_weight(entries, n as int) <= 10000,
                total_weight(self@.holdings) == total_weight(before.holdings) + batch_weight(
                    entries,
                    k as int,
                ),
                ids_distinct(self@.holdings),
                self@.holdings == before.holdings + Seq::new(
                    k as nat,
                    |i: int| batch_record(entries[i], now),
                ),
                self@.events == before.events + Seq::new(
                    k as nat,
                    |i: int|
                        PortfolioEvent::TokenHoldingAdded(
                            TokenHoldingAdded {
                                token_id: entries[i].0,
                                amount: entries[i].1,
                                target_weight_bp: entries[i].2,
                                added_by: caller,
                                timestamp: now,
                            },
                        ),
                ),
                self@ == (PortfolioView {
                    holdings: self@.holdings,
                    events: self@.events,
                    ..before
                }),
            decreases n - k,
        {
            let entry = holdings_data[k];
            let record = HoldingRecord {
                token_id: entry.0,
                holding: TokenHolding {
                    amount: entry.1,
                    target_weight_bp: entry.2,
                    last_rebalance: now,
                    fees_collected: 0,
                },
            };
            let ghost grown = self@.holdings;
            proof {
                lemma_weight_push(grown, record);
                assert(entry_rejection(entries, k as int, before.holdings).is_none());
            }
            self.holdings.push(record);
            added_count = added_count + 1;
            self.events.push(
                PortfolioEvent::TokenHoldingAdded(
                    TokenHoldingAdded {
                        token_id: entry.0,
                        amount: entry.1,
                        target_weight_bp: entry.2,
                        added_by: caller,
                        timestamp: now,
                    },
                ),
            );
            k = k + 1;
        }
        Ok(added_count)
    }

    /// Sets the amounts of several holdings, one after the other. Tokens
    /// that are not held are passed over. Returns how many holdings were set.
    pub fn update_multiple_amounts(
        &mut self,
        caller: AccountId,
        now: u64,
        updates: Vec<(u32, u128)>,
    ) -> (result: Result<u32, Error>)
        requires
            old(self).wf(),
        ensures
            final(self).wf(),
            result == if old(self)@.holdings_gate(caller).is_err() {
                match old(self)@.holdings_gate(caller) {
                    Err(e) => Err::<u32, Error>(e),
                    Ok(_) => Err::<u32, Error>(Error::InvalidParameter),
                }
            } else if updates@.len() == 0 {
                Err::<u32, Error>(Error::InvalidParameter)
            } else {
                Ok::<u32, Error>(
                    if amount_updates(old(self)@.holdings, updates@, updates@.len() as int)
                        > u32::MAX {
                        u32::MAX
                    } else {
                        amount_updates(old(self)@.holdings, updates@, updates@.len() as int) as u32
                    },
                )
            },
            result.is_err() ==> final(self)@ == old(self)@,
            result.is_ok() ==> final(self)@ == (PortfolioView {
                holdings: amounts_applied(
                    old(self)@.holdings,
                    updates@,
                    updates@.len() as int,
                    now,
                ),
                events: old(self)@.events + amount_events(
                    old(self)@.holdings,
                    updates@,
                    updates@.len() as int,
                    caller,
                    now,
                ),
                ..old(self)@
            }),
    {
        self.ensure_owner(caller)?;
        self.ensure_not_emergency_paused()?;
        let n = updates.len();
        if n == 0 {
            return Err(Error::InvalidParameter);
        }
        let ghost before = self@;
        let mut updated_count: u32 = 0;
        let mut i: usize = 0;
        while i < n
            invariant
                self.wf(),
                n == updates@.len(),
                i <= n,
                updated_count == if amount_updates(before.holdings, updates@, i as int)
                    > u32::MAX {
                    u32::MAX
                } else {
                    amount_updates(before.holdings, updates@, i as int) as u32
                },
                self@.holdings == amounts_applied(before.holdings, updates@, i as int, now),
                self@.events == before.events + amount_events(
                    before.holdings,
                    updates@,
                    i as int,
                    caller,
                    now,
                ),
                self@.holdings.len() == before.holdings.len(),
                forall|id: u32| holds(self@.holdings, id) == holds(before.holdings, id),
                self@ == (PortfolioView {
                    holdings: self@.holdings,
                    events: self@.events,
                    ..before
                }),
            decreases n - i,
        {
            let update = updates[i];
            let ghost earlier = self@.holdings;
            if let Some(index) = self.find_holding(update.0) {
                let mut holding = self.holdings[index].holding;
                let old_amount = holding.amount;
                holding.amount = update.1;
                holding.last_rebalance = now;
                proof {
                    lemma_weight_update(
                        earlier,
                        index as int,
                        HoldingRecord { token_id: update.0, holding },
                    );
                }
                self.holdings.set(index, HoldingRecord { token_id: update.0, holding });
                updated_count = updated_count.saturating_add(1);
                self.events.push(
                    PortfolioEvent::TokenHoldingUpdated(
                        TokenHoldingUpdated {
                            token_id: update.0,
                            old_amount,
                            new_amount: update.1,
                            old_weight: holding.target_weight_bp,
                            new_weight: holding.target_weight_bp,
                            updated_by: caller,
                            timestamp: now,
                        },
                    ),
                );
                proof {
                    let stored = self@.holdings;
                    assert forall|id: u32| holds(stored, id) == holds(earlier, id) by {
                        if holds(earlier, id) {
                            let a = position_of(earlier, id);
                            assert(stored[a].token_id == id);
                        }
                    }
                }
            }
            i = i + 1;
        }
        Ok(updated_count)
    }

    /// Sets the most tokens that can be held: at least one, and not fewer
    /// than are held. Only the owner may.
    pub fn set_max_tokens(
        &mut self,
        caller: AccountId,
        max_tokens: u32,
    ) -> (result: Result<(), Error>)
        requires
            old(self).wf(),
        ensures
            final(self).wf(),
            result == if caller != old(self)@.owner {
                Err::<(), Error>(Error::Unauthorized)
            } else if max_tokens == 0 || max_tokens < old(self)@.holdings.len() {
                Err::<(), Error>(Error::InvalidParameter)
            } else {
                Ok::<(), Error>(())
            },
            result.is_err() ==> final(self)@ == old(self)@,
            result.is_ok() ==> final(self)@ == (PortfolioView { max_tokens, ..old(self)@ }),
    {
        self.ensure_owner(caller)?;
        if max_tokens == 0 || (max_tokens as usize) < self.holdings.len() {
            return Err(Error::InvalidParameter);
        }
        self.max_tokens = max_tokens;
        Ok(())
    }

    pub fn get_max_tokens(&self) -> (r: u32)
        ensures
            r == self@.max_tokens,
    {
        self.max_tokens
    }

    /// Whether `count` more tokens can be held.
    pub fn can_add_tokens(&self, count: u32) -> (r: bool)
        requires
            self.wf(),
        ensures
            r == ((self@.holdings.len() as u32).saturating_add(count) <= self@.max_tokens),
            self@.holdings.len() + count <= u32::MAX ==> r == (self@.holdings.len() + count
                <= self@.max_tokens),
    {
        (self.holdings.len() as u32).saturating_add(count) <= self.max_tokens
    }

    /// Whether the target weights add up to at most the whole; they always
    /// do.
    pub fn validate_weight_allocation(&self) -> (result: Result<bool, Error>)
        requires
            self.wf(),
        ensures
            result == Ok::<bool, Error>(true),
    {
        let total_weight = self.calculate_total_target_weight();
        Ok(total_weight <= 10000)
    }

    /// The weight that is not allocated yet, in basis points.
    pub fn get_remaining_weight_capacity(&self) -> (r: u32)
        requires
            self.wf(),
        ensures
            r == FULL_WEIGHT_BP - total_weight(self@.holdings),
    {
        let total_weight = self.calculate_total_target_weight();
        if total_weight < 10000 {
            10000_u32.saturating_sub(total_weight)
        } else {
            0
        }
    }

    /// The number of tokens held.
    pub fn get_total_tokens_held(&self) -> (r: u32)
        requires
            self.wf(),
        ensures
            r == self@.holdings.len(),
    {
        self.holdings.len() as u32
    }

    /// The ids of the tokens held, in the order in which they were added.
    pub fn get_held_token_ids(&self) -> (r: Vec<u32>)
        ensures
            r@ == Seq::new(self@.holdings.len(), |i: int| self@.holdings[i].token_id),
    {
        let mut ids: Vec<u32> = Vec::new();
        let n = self.holdings.len();
        let mut i: usize = 0;
        while i < n
            invariant
                n == self@.holdings.len(),
                i <= n,
                ids@.len() == i,
                forall|j: int| 0 <= j < i ==> ids@[j] == self@.holdings[j].token_id,
            decreases n - i,
        {
            ids.push(self.holdings[i].token_id);
            i = i + 1;
        }
        ids
    }

    /// The holding of a token.
    pub fn get_token_holding(&self, token_id: u32) -> (r: Option<TokenHolding>)
        requires
            self.wf(),
        ensures
            r == holding_of(self@.holdings, token_id),
    {
        match self.find_holding(token_id) {
            Some(index) => Some(self.holdings[index].holding),
            None => None,
        }
    }

    /// Whether a token is held.
    pub fn holds_token(&self, token_id: u32) -> (r: bool)
        requires
            self.wf(),
        ensures
            r == holds(self@.holdings, token_id),
    {
        self.find_holding(token_id).is_some()
    }

    /// The amount held of a token, 0 if it is not held.
    pub fn get_token_amount(&self, token_id: u32) -> (r: u128)
        requires
            self.wf(),
        ensures
            r == match holding_of(self@.holdings, token_id) {
                Some(holding) => holding.amount,
                None => 0,
            },
    {
        match self.get_token_holding(token_id) {
            Some(holding) => holding.amount,
            None => 0,
        }
    }

    /// The target weight of a token, 0 if it is not held.
    pub fn get_token_target_weight(&self, token_id: u32) -> (r: u32)
        requires
            self.wf(),
        ensures
            r == match holding_of(self@.holdings, token_id) {
                Some(holding) => holding.target_weight_bp,
                None => 0,
            },
    {
        match self.get_token_holding(token_id) {
            Some(holding) => holding.target_weight_bp,
            None => 0,
        }
    }

    /// All holdings, with the amounts held as their value.
    pub fn get_portfolio_composition(&self) -> (r: PortfolioComposition)
        requires
            self.wf(),
        ensures
            r.total_tokens == self@.holdings.len(),
            r.total_value == total_amount(self@.holdings),
            r.holdings@ == Seq::new(
                self@.holdings.len(),
                |i: int| (self@.holdings[i].token_id, self@.holdings[i].holding),
            ),
    {
        let mut holdings_vec: Vec<(u32, TokenHolding)> = Vec::new();
        let mut total_value: u128 = 0;
        let n = self.holdings.len();
        let mut i: usize = 0;
        while i < n
            invariant
                n == self@.holdings.len(),
                i <= n,
                holdings_vec@.len() == i,
                forall|j: int|
                    0 <= j < i ==> holdings_vec@[j] == (
                        self@.holdings[j].token_id,
                        self@.holdings[j].holding,
                    ),
                total_value == total_amount(self@.holdings.take(i as int)),
            decreases n - i,
        {
            proof {
                assert(self@.holdings.take(i + 1).drop_last() =~= self@.holdings.take(i as int));
            }
            let record = self.holdings[i];
            total_value = total_value.saturating_add(record.holding.amount);
            holdings_vec.push((record.token_id, record.holding));
            i = i + 1;
        }
        assert(self@.holdings.take(n as int) =~= self@.holdings);
        PortfolioComposition { total_tokens: n as u32, total_value, holdings: holdings_vec }
    }

    /// For each holding the id of its token and the amount held.
    pub fn get_all_holdings(&self) -> (r: Vec<(u32, u128)>)
        ensures
            r@ == Seq::new(
                self@.holdings.len(),
                |i: int| (self@.holdings[i].token_id, self@.holdings[i].holding.amount),
            ),
    {
        let mut holdings_vec: Vec<(u32, u128)> = Vec::new();
        let n = self.holdings.len();
        let mut i: usize = 0;
        while i < n
            invariant
                n == self@.holdings.len(),
                i <= n,
                holdings_vec@.len() == i,
                forall|j: int|
                    0 <= j < i ==> holdings_vec@[j] == (
                        self@.holdings[j].token_id,
                        self@.holdings[j].holding.amount,
                    ),
            decreases n - i,
        {
            holdings_vec.push((self.holdings[i].token_id, self.holdings[i].holding.amount));
            i = i + 1;
        }
        holdings_vec
    }

    /// For each holding the id of its token and its target weight.
    pub fn get_all_target_weights(&self) -> (r: Vec<(u32, u32)>)
        ensures
            r@ == Seq::new(
                self@.holdings.len(),
                |i: int| (self@.holdings[i].token_id, self@.holdings[i].holding.target_weight_bp),
            ),
    {
        let mut weights_vec: Vec<(u32, u32)> = Vec::new();
        let n = self.holdings.len();
        let mut i: usize = 0;
        while i < n
            invariant
                n == self@.holdings.len(),
                i <= n,
                weights_vec@.len() == i,
                forall|j: int|
                    0 <= j < i ==> weights_vec@[j] == (
                        self@.holdings[j].token_id,
                        self@.holdings[j].holding.target_weight_bp,
                    ),
            decreases n - i,
        {
            let record = self.holdings[i];
            weights_vec.push((record.token_id, record.holding.target_weight_bp));
            i = i + 1;
        }
        weights_vec
    }

    /// The target weights of all holdings together; never above 10000.
    pub fn get_total_target_weight(&self) -> (r: u32)
        requires
            self.wf(),
        ensures
            r == total_weight(self@.holdings),
            r <= FULL_WEIGHT_BP,
    {
        self.calculate_total_target_weight()
    }

    /// Whether anything is held.
    pub fn has_holdings(&self) -> (r: bool)
        ensures
            r == (self@.holdings.len() > 0),
    {
        self.holdings.len() > 0
    }

    /// The number of tokens held, the total of their target weights, and the
    /// most tokens that can be held.
    pub fn get_portfolio_stats(&self) -> (r: (u32, u32, u32))
        requires
            self.wf(),
        ensures
            r.0 == self@.holdings.len(),
            r.1 == total_weight(self@.holdings),
            r.2 == self@.max_tokens,
    {
        (self.holdings.len() as u32, self.calculate_total_target_weight(), self.max_tokens)
    }
}

} // verus!
