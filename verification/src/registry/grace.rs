//! Tier changes: parked for a grace period, put in force when it has
//! passed, or forced at once by the owner.

use crate::feed::OracleFeed;
use crate::registry::{Registry, MAX_GRACE_PERIOD_MS, MIN_GRACE_PERIOD_MS, MS_PER_DAY, MS_PER_HOUR};
use crate::registry::events::{
    EmergencyTierOverride, GracePeriodStarted, GracePeriodUpdated, RegistryEvent, TierChangeReason,
    TokenTierChanged,
};
use crate::registry::model::{
    expired_count, grace_events, graced, tier_applied_events, tier_change_events, RegistryView,
};
use crate::registry::tier::Tier;
use crate::registry::tokens::{
    has_id, lemma_len_below_next_id, position_of_id, token_with_id, EnhancedTokenData,
};
use crate::shared::{AccountId, Error, Role};
use vstd::prelude::*;

verus! {

impl Registry {
    /// Asks for a tier change of the token at `index`. A tier already in
    /// force changes nothing. An immediate reason puts the tier in force at
    /// once and clears what was pending; any other reason parks it until the
    /// grace period has passed and leaves the tier in force untouched.
    pub(super) fn handle_tier_change(
        &mut self,
        index: usize,
        new_tier: Tier,
        reason: TierChangeReason,
        now: u64,
        feed: &OracleFeed,
    )
        requires
            old(self).wf(),
            index < old(self)@.tokens.len(),
        ensures
            final(self).wf(),
            final(self)@ == old(self)@.with_tier_change(index as int, new_tier, reason, now, feed@),
    {
        let record = self.tokens[index];
        let old_tier = record.data.tier;
        if new_tier == old_tier {
            proof {
                assert(self@.tokens.update(index as int, record) =~= self@.tokens);
            }
            return ;
        }
        let mut token_data = record.data;
        if reason.immediate() {
            token_data.tier = new_tier;
            token_data.tier_change_timestamp = Some(now);
            token_data.pending_tier_change = None;
            self.replace_token(index, token_data);
            let ghost stored = self@;
            if let Some((market_cap, volume)) = Self::get_market_data_from_oracle(
                feed,
                record.data.token_contract,
                record.data.oracle_contract,
            ) {
                self.events.push(
                    RegistryEvent::TokenTierChanged(
                        TokenTierChanged {
                            token_id: record.id,
                            token_contract: record.data.token_contract,
                            old_tier,
                            new_tier,
                            market_cap,
                            volume,
                            reason,
                        },
                    ),
                );
            }
            proof {
                let raised = tier_change_events(
                    record,
                    new_tier,
                    reason,
                    now,
                    self@.grace_period_ms,
                    feed@,
                );
                assert(self@.events =~= stored.events + raised);
            }
        } else {
            token_data.pending_tier_change = Some(new_tier);
            token_data.tier_change_timestamp = Some(now);
            self.replace_token(index, token_data);
            let ghost stored = self@;
            let grace_end_time = now.saturating_add(self.grace_period_ms);
            self.events.push(
                RegistryEvent::GracePeriodStarted(
                    GracePeriodStarted {
                        token_id: record.id,
                        current_tier: old_tier,
                        pending_tier: new_tier,
                        grace_end_time,
                    },
                ),
            );
            proof {
                let raised = tier_change_events(
                    record,
                    new_tier,
                    reason,
                    now,
                    self@.grace_period_ms,
                    feed@,
                );
                assert(self@.events =~= stored.events + raised);
            }
        }
    }

    /// Recalculates the tier of one token on a manager's request. A
    /// different tier is parked for the grace period. Returns the tier in
    /// force.
    pub fn update_token_tier(
        &mut self,
        caller: AccountId,
        now: u64,
        token_id: u32,
        feed: &OracleFeed,
    ) -> (result: Result<Tier, Error>)
        requires
            old(self).wf(),
        ensures
            final(self).wf(),
            result == if !old(self)@.may_act_as(Role::TokenManager, caller) {
                Err::<Tier, Error>(Error::UnauthorizedRole)
            } else {
                match token_with_id(old(self)@.tokens, token_id) {
                    None => Err::<Tier, Error>(Error::TokenNotFound),
                    Some(data) => match old(self)@.computed_tier(
                        feed@,
                        data.token_contract,
                        data.oracle_contract,
                    ) {
                        None => Err::<Tier, Error>(Error::OracleCallFailed),
                        Some(_) => Ok::<Tier, Error>(data.tier),
                    },
                }
            },
            result.is_err() ==> final(self)@ == old(self)@,
            result.is_ok() ==> ({
                let index = position_of_id(old(self)@.tokens, token_id);
                let data = old(self)@.tokens[index].data;
                final(self)@ == old(self)@.with_tier_change(
                    index,
                    old(self)@.computed_tier(
                        feed@,
                        data.token_contract,
                        data.oracle_contract,
                    ).unwrap(),
                    TierChangeReason::Manual,
                    now,
                    feed@,
                )
            }),
    {
        if self.ensure_role(Role::TokenManager, caller).is_err() {
            return Err(Error::UnauthorizedRole);
        }
        let index = match self.find_token(token_id) {
            Some(index) => index,
            None => {
                return Err(Error::TokenNotFound);
            },
        };
        let token_data = self.tokens[index].data;
        let new_tier = match self.calculate_token_tier_internal(
            feed,
            token_data.token_contract,
            token_data.oracle_contract,
        ) {
            Some(tier) => tier,
            None => {
                return Err(Error::OracleCallFailed);
            },
        };
        self.handle_tier_change(index, new_tier, TierChangeReason::Manual, now, feed);
        Ok(self.tokens[index].data.tier)
    }

    /// Puts `new_tier` in force for a token at once, past any grace period,
    /// and clears what was pending. Only the owner may. Nothing changes when
    /// the tier is in force already.
    pub fn emergency_tier_override(
        &mut self,
        caller: AccountId,
        now: u64,
        token_id: u32,
        new_tier: Tier,
        reason: String,
        feed: &OracleFeed,
    ) -> (result: Result<(), Error>)
        requires
            old(self).wf(),
        ensures
            final(self).wf(),
            result == if caller != old(self)@.owner {
                Err::<(), Error>(Error::Unauthorized)
            } else if !has_id(old(self)@.tokens, token_id) {
                Err::<(), Error>(Error::TokenNotFound)
            } else {
                Ok::<(), Error>(())
            },
            result.is_err() ==> final(self)@ == old(self)@,
            result.is_ok() ==> final(self)@ == old(self)@.with_tier_override(
                position_of_id(old(self)@.tokens, token_id),
                new_tier,
                caller,
                now,
                reason,
                feed@,
            ),
    {
        self.ensure_owner(caller)?;
        let index = match self.find_token(token_id) {
            Some(index) => index,
            None => {
                return Err(Error::TokenNotFound);
            },
        };
        let record = self.tokens[index];
        let old_tier = record.data.tier;
        if old_tier == new_tier {
            return Ok(());
        }
        let mut token_data = record.data;
        token_data.tier = new_tier;
        token_data.tier_change_timestamp = Some(now);
        token_data.pending_tier_change = None;
        self.replace_token(index, token_data);
        let ghost stored = self@;
        let ghost overridden = RegistryEvent::EmergencyTierOverride(
            EmergencyTierOverride {
                token_id,
                token_contract: record.data.token_contract,
                old_tier,
                new_tier,
                overridden_by: caller,
                timestamp: now,
                reason,
            },
        );
        self.events.push(
            RegistryEvent::EmergencyTierOverride(
                EmergencyTierOverride {
                    token_id,
                    token_contract: record.data.token_contract,
                    old_tier,
                    new_tier,
                    overridden_by: caller,
                    timestamp: now,
                    reason,
                },
            ),
        );
        if let Some((market_cap, volume)) = Self::get_market_data_from_oracle(
            feed,
            record.data.token_contract,
            record.data.oracle_contract,
        ) {
            self.events.push(
                RegistryEvent::TokenTierChanged(
                    TokenTierChanged {
                        token_id,
                        token_contract: record.data.token_contract,
                        old_tier,
                        new_tier,
                        market_cap,
                        volume,
                        reason: TierChangeReason::EmergencyOverride,
                    },
                ),
            );
        }
        proof {
            assert(self@.events =~= stored.events.push(overridden) + tier_applied_events(
                record,
                new_tier,
                TierChangeReason::EmergencyOverride,
                feed@,
            ));
        }
        Ok(())
    }

    /// Puts the tier that the quotes give a token in force at once. Only the
    /// owner may. Returns that tier.
    pub fn emergency_tier_override_to_calculated(
        &mut self,
        caller: AccountId,
        now: u64,
        token_id: u32,
        reason: String,
        feed: &OracleFeed,
    ) -> (result: Result<Tier, Error>)
        requires
            old(self).wf(),
        ensures
            final(self).wf(),
            result == if caller != old(self)@.owner {
                Err::<Tier, Error>(Error::Unauthorized)
            } else {
                match token_with_id(old(self)@.tokens, token_id) {
                    None => Err::<Tier, Error>(Error::TokenNotFound),
                    Some(data) => match old(self)@.computed_tier(
                        feed@,
                        data.token_contract,
                        data.oracle_contract,
                    ) {
                        None => Err::<Tier, Error>(Error::OracleCallFailed),
                        Some(tier) => Ok::<Tier, Error>(tier),
                    },
                }
            },
            result.is_err() ==> final(self)@ == old(self)@,
            result.is_ok() ==> final(self)@ == old(self)@.with_tier_override(
                position_of_id(old(self)@.tokens, token_id),
                result.unwrap(),
                caller,
                now,
                reason,
                feed@,
            ),
    {
        self.ensure_owner(caller)?;
        let index = match self.find_token(token_id) {
            Some(index) => index,
            None => {
                return Err(Error::TokenNotFound);
            },
        };
        let token_data = self.tokens[index].data;
        let calculated_tier = match self.calculate_token_tier_internal(
            feed,
            token_data.token_contract,
            token_data.oracle_contract,
        ) {
            Some(tier) => tier,
            None => {
                return Err(Error::OracleCallFailed);
            },
        };
        match self.emergency_tier_override(caller, now, token_id, calculated_tier, reason, feed) {
            Ok(()) => Ok(calculated_tier),
            Err(e) => Err(e),
        }
    }

    /// Drops the pending tier change of a token, and with it the time at
    /// which it was parked. Only the owner may.
    pub fn clear_pending_tier_change(
        &mut self,
        caller: AccountId,
        token_id: u32,
    ) -> (result: Result<(), Error>)
        requires
            old(self).wf(),
        ensures
            final(self).wf(),
            result == if caller != old(self)@.owner {
                Err::<(), Error>(Error::Unauthorized)
            } else if !has_id(old(self)@.tokens, token_id) {
                Err::<(), Error>(Error::TokenNotFound)
            } else {
                Ok::<(), Error>(())
            },
            result.is_err() ==> final(self)@ == old(self)@,
            result.is_ok() ==> ({
                let index = position_of_id(old(self)@.tokens, token_id);
                let data = old(self)@.tokens[index].data;
                final(self)@ == if data.pending_tier_change.is_some() {
                    old(self)@.with_token_data(
                        index,
                        EnhancedTokenData {
                            pending_tier_change: None,
                            tier_change_timestamp: None,
                            ..data
                        },
                    )
                } else {
                    old(self)@
                }
            }),
    {
        self.ensure_owner(caller)?;
        let index = match self.find_token(token_id) {
            Some(index) => index,
            None => {
                return Err(Error::TokenNotFound);
            },
        };
        let mut token_data = self.tokens[index].data;
        if token_data.pending_tier_change.is_some() {
            token_data.pending_tier_change = None;
            token_data.tier_change_timestamp = None;
            self.replace_token(index, token_data);
        }
        Ok(())
    }

    /// Recalculates the tier of every token. A different tier is parked for
    /// the grace period. Returns how many tokens got a new pending tier.
    pub fn refresh_all_tiers(
        &mut self,
        caller: AccountId,
        now: u64,
        feed: &OracleFeed,
    ) -> (result: Result<u32, Error>)
        requires
            old(self).wf(),
        ensures
            final(self).wf(),
            !old(self)@.may_act_as(Role::TokenManager, caller) ==> result == Err::<u32, Error>(
                Error::UnauthorizedRole,
            ) && final(self)@ == old(self)@,
            old(self)@.may_act_as(Role::TokenManager, caller) ==> result == Ok::<u32, Error>(
                old(self)@.refresh_count(old(self)@.tokens, feed@) as u32,
            ) && final(self)@ == old(self)@.after_refresh(now, feed@),
    {
        if self.ensure_role(Role::TokenManager, caller).is_err() {
            return Err(Error::UnauthorizedRole);
        }
        let ghost before = self@;
        let n = self.tokens.len();
        let mut updated_count: u32 = 0;
        let mut i: usize = 0;
        proof {
            lemma_len_below_next_id(before.tokens, before.next_token_id);
        }
        while i < n
            invariant
                self.wf(),
                before.valid(),
                n == before.tokens.len(),
                n < u32::MAX,
                i <= n,
                self@.tokens.len() == n,
                forall|j: int|
                    0 <= j < i ==> #[trigger] self@.tokens[j] == before.refreshed(
                        before.tokens,
                        now,
                        feed@,
                    )[j],
                forall|j: int| i <= j < n ==> #[trigger] self@.tokens[j] == before.tokens[j],
                self@.events == before.events + before.refresh_events(
                    before.tokens.take(i as int),
                    now,
                    feed@,
                ),
                updated_count == before.refresh_count(before.tokens.take(i as int), feed@),
                updated_count <= i,
                self@ == (RegistryView {
                    tokens: self@.tokens,
                    tier_distribution: self@.tier_distribution,
                    events: self@.events,
                    ..before
                }),
            decreases n - i,
        {
            let record = self.tokens[i];
            proof {
                assert(before.tokens.take(i + 1).drop_last() =~= before.tokens.take(i as int));
            }
            if let Some(new_tier) = self.calculate_token_tier_internal(
                feed,
                record.data.token_contract,
                record.data.oracle_contract,
            ) {
                if new_tier != record.data.tier {
                    self.handle_tier_change(i, new_tier, TierChangeReason::Scheduled, now, feed);
                    updated_count = updated_count + 1;
                }
            }
            i = i + 1;
        }
        proof {
            assert(before.tokens.take(n as int) =~= before.tokens);
            assert(self@.tokens =~= before.refreshed(before.tokens, now, feed@));
        }
        self.check_and_execute_auto_tier_shift(now);
        Ok(updated_count)
    }

    /// Puts in force every pending change whose grace period has passed and
    /// returns how many there were. Tokens without such a change are left
    /// untouched, so calling again at once changes nothing.
    pub fn process_grace_periods(
        &mut self,
        caller: AccountId,
        now: u64,
        feed: &OracleFeed,
    ) -> (result: Result<u32, Error>)
        requires
            old(self).wf(),
        ensures
            final(self).wf(),
            !old(self)@.may_act_as(Role::TokenUpdater, caller) ==> result == Err::<u32, Error>(
                Error::UnauthorizedRole,
            ) && final(self)@ == old(self)@,
            old(self)@.may_act_as(Role::TokenUpdater, caller) ==> result == Ok::<u32, Error>(
                expired_count(old(self)@.tokens, now, old(self)@.grace_period_ms) as u32,
            ) && final(self)@ == old(self)@.after_grace_periods(now, feed@),
    {
        if self.ensure_role(Role::TokenUpdater, caller).is_err() {
            return Err(Error::UnauthorizedRole);
        }
        let ghost before = self@;
        let n = self.tokens.len();
        let mut processed_count: u32 = 0;
        let mut i: usize = 0;
        proof {
            lemma_len_below_next_id(before.tokens, before.next_token_id);
        }
        while i < n
            invariant
                self.wf(),
                before.valid(),
                n == before.tokens.len(),
                n < u32::MAX,
                i <= n,
                self@.tokens.len() == n,
                forall|j: int|
                    0 <= j < i ==> #[trigger] self@.tokens[j] == graced(
                        before.tokens,
                        now,
                        before.grace_period_ms,
                    )[j],
                forall|j: int| i <= j < n ==> #[trigger] self@.tokens[j] == before.tokens[j],
                self@.events == before.events + grace_events(
                    before.tokens.take(i as int),
                    now,
                    before.grace_period_ms,
                    feed@,
                ),
                processed_count == expired_count(
                    before.tokens.take(i as int),
                    now,
                    before.grace_period_ms,
                ),
                processed_count <= i,
                self@ == (RegistryView {
                    tokens: self@.tokens,
                    tier_distribution: self@.tier_distribution,
                    events: self@.events,
                    ..before
                }),
            decreases n - i,
        {
            let record = self.tokens[i];
            proof {
                assert(before.tokens.take(i + 1).drop_last() =~= before.tokens.take(i as int));
            }
            let mut expired = false;
            if let (Some(pending_tier), Some(change_time)) = (
                record.data.pending_tier_change,
                record.data.tier_change_timestamp,
            ) {
                if now.saturating_sub(change_time) >= self.grace_period_ms {
                    expired = true;
                    let mut token_data = record.data;
                    token_data.tier = pending_tier;
                    token_data.pending_tier_change = None;
                    token_data.tier_change_timestamp = Some(now);
                    self.replace_token(i, token_data);
                    processed_count = processed_count + 1;
                    if let Some((market_cap, volume)) = Self::get_market_data_from_oracle(
                        feed,
                        record.data.token_contract,
                        record.data.oracle_contract,
                    ) {
                        self.events.push(
                            RegistryEvent::TokenTierChanged(
                                TokenTierChanged {
                                    token_id: record.id,
                                    token_contract: record.data.token_contract,
                                    old_tier: record.data.tier,
                                    new_tier: pending_tier,
                                    market_cap,
                                    volume,
                                    reason: TierChangeReason::GracePeriodEnded,
                                },
                            ),
                        );
                    }
                }
            }
            i = i + 1;
        }
        proof {
            assert(before.tokens.take(n as int) =~= before.tokens);
            assert(self@.tokens =~= graced(before.tokens, now, before.grace_period_ms));
        }
        if processed_count > 0 {
            self.check_and_execute_auto_tier_shift(now);
        }
        Ok(processed_count)
    }

    /// Sets the grace period, which must lie between one hour and 365 days.
    /// Only the owner may.
    pub fn set_grace_period(
        &mut self,
        caller: AccountId,
        now: u64,
        period_ms: u64,
    ) -> (result: Result<(), Error>)
        requires
            old(self).wf(),
        ensures
            final(self).wf(),
            result == if caller != old(self)@.owner {
                Err::<(), Error>(Error::Unauthorized)
            } else if period_ms < MIN_GRACE_PERIOD_MS || period_ms > MAX_GRACE_PERIOD_MS {
                Err::<(), Error>(Error::InvalidParameter)
            } else {
                Ok::<(), Error>(())
            },
            result.is_err() ==> final(self)@ == old(self)@,
            result.is_ok() ==> final(self)@ == (RegistryView {
                grace_period_ms: period_ms,
                ..old(self)@
            }).with_event(
                RegistryEvent::GracePeriodUpdated(
                    GracePeriodUpdated {
                        old_period_ms: old(self)@.grace_period_ms,
                        new_period_ms: period_ms,
                        updated_by: caller,
                        timestamp: now,
                    },
                ),
            ),
    {
        self.ensure_owner(caller)?;
        if period_ms < MIN_GRACE_PERIOD_MS || period_ms > MAX_GRACE_PERIOD_MS {
            return Err(Error::InvalidParameter);
        }
        let old_period = self.grace_period_ms;
        self.grace_period_ms = period_ms;
        self.events.push(
            RegistryEvent::GracePeriodUpdated(
                GracePeriodUpdated {
                    old_period_ms: old_period,
                    new_period_ms: period_ms,
                    updated_by: caller,
                    timestamp: now,
                },
            ),
        );
        Ok(())
    }

    /// The grace period in milliseconds.
    pub fn get_grace_period(&self) -> (r: u64)
        ensures
            r == self@.grace_period_ms,
    {
        self.grace_period_ms
    }

    /// The grace period in whole days.
    pub fn get_grace_period_days(&self) -> (r: u64)
        ensures
            r == self@.grace_period_ms / MS_PER_DAY,
    {
        self.grace_period_ms / MS_PER_DAY
    }

    /// The grace period in whole hours.
    pub fn get_grace_period_hours(&self) -> (r: u64)
        ensures
            r == self@.grace_period_ms / MS_PER_HOUR,
    {
        self.grace_period_ms / MS_PER_HOUR
    }

    /// The shortest and the longest grace period that can be set.
    pub fn get_grace_period_limits(&self) -> (r: (u64, u64))
        ensures
            r == (MIN_GRACE_PERIOD_MS, MAX_GRACE_PERIOD_MS),
    {
        (MIN_GRACE_PERIOD_MS, MAX_GRACE_PERIOD_MS)
    }

    /// When the grace period of a token ends: the time of its last tier
    /// change plus the grace period, held at the numeric bound.
    pub fn get_grace_period_end_time(&self, token_id: u32) -> (r: Option<u64>)
        requires
            self.wf(),
        ensures
            r == match token_with_id(self@.tokens, token_id) {
                Some(data) => match data.tier_change_timestamp {
                    Some(start) => Some(start.saturating_add(self@.grace_period_ms)),
                    None => None,
                },
                None => None,
            },
    {
        let index = self.find_token(token_id)?;
        let start_time = self.tokens[index].data.tier_change_timestamp?;
        Some(start_time.saturating_add(self.grace_period_ms))
    }

    /// How long the grace period of a token still runs at `now`, 0 once it
    /// has ended.
    pub fn get_grace_period_remaining(&self, token_id: u32, now: u64) -> (r: Option<u64>)
        requires
            self.wf(),
        ensures
            r == match token_with_id(self@.tokens, token_id) {
                Some(data) => match data.tier_change_timestamp {
                    Some(start) => Some(
                        start.saturating_add(self@.grace_period_ms).saturating_sub(now),
                    ),
                    None => None,
                },
                None => None,
            },
    {
        let end_time = self.get_grace_period_end_time(token_id)?;
        if now >= end_time {
            Some(0)
        } else {
            Some(end_time.saturating_sub(now))
        }
    }

    /// Whether the grace period of a token has ended at `now`. A token
    /// without a tier change has none.
    pub fn is_grace_period_expired(&self, token_id: u32, now: u64) -> (r: bool)
        requires
            self.wf(),
        ensures
            r == match token_with_id(self@.tokens, token_id) {
                Some(data) => match data.tier_change_timestamp {
                    Some(start) => now >= start.saturating_add(self@.grace_period_ms),
                    None => false,
                },
                None => false,
            },
    {
        match self.get_grace_period_remaining(token_id, now) {
            Some(remaining) => remaining == 0,
            None => false,
        }
    }
}

} // verus!
