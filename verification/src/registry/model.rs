//! The state of the registry as contracts speak of it, and what each
//! operation makes of it.

use crate::feed::{quoted_market_data, quoted_price, OracleQuote};
use crate::registry::{MAX_GRACE_PERIOD_MS, MIN_GRACE_PERIOD_MS};
use crate::registry::events::{
    ActiveTierShifted, EmergencyTierOverride, GracePeriodStarted, RegistryEvent, ShiftTrigger,
    TierChangeReason, TokenTierChanged,
};
use crate::registry::tier::{
    shift_target, tier_of, Tier, TierDistribution, TierThresholds, FALLBACK_USD_RATE,
    PLANCKS_PER_DOT,
};
use crate::registry::tokens::{
    contracts_distinct, has_contract, has_id, ids_ascending, ids_issued, tally, EnhancedTokenData,
    TokenRecord,
};
use crate::shared::{AccountId, Error, Role};
use vstd::prelude::*;

verus! {

/// The state of a registry as contracts speak of it.
pub struct RegistryView {
    /// The registered tokens, by rising id.
    pub tokens: Seq<TokenRecord>,
    /// Who holds which role.
    pub roles: Set<(Role, AccountId)>,
    /// The id that the next token gets.
    pub next_token_id: u32,
    pub owner: AccountId,
    /// The tier that rebalancing aims at.
    pub active_tier: Tier,
    pub tier_thresholds: TierThresholds,
    /// The cached number of tokens in each tier.
    pub tier_distribution: TierDistribution,
    /// When the active tier last moved.
    pub last_tier_change: Option<u64>,
    /// The oracle that quotes DOT in USD.
    pub dot_usd_oracle: Option<AccountId>,
    pub grace_period_ms: u64,
    /// Events raised and not yet taken by the host, oldest first.
    pub events: Seq<RegistryEvent>,
}

/// A token after a tier change was asked for it.
pub open spec fn tier_changed(
    data: EnhancedTokenData,
    new_tier: Tier,
    reason: TierChangeReason,
    now: u64,
) -> EnhancedTokenData {
    if new_tier == data.tier {
        data
    } else if reason.is_immediate() {
        data.with_tier(new_tier, now)
    } else {
        data.with_pending(new_tier, now)
    }
}

/// The event of a tier that came into force, raised only when the token's
/// oracle quoted its market data.
pub open spec fn tier_applied_events(
    record: TokenRecord,
    new_tier: Tier,
    reason: TierChangeReason,
    quotes: Seq<OracleQuote>,
) -> Seq<RegistryEvent> {
    match quoted_market_data(quotes, record.data.oracle_contract, record.data.token_contract) {
        Some((market_cap, volume)) => seq![
            RegistryEvent::TokenTierChanged(
                TokenTierChanged {
                    token_id: record.id,
                    token_contract: record.data.token_contract,
                    old_tier: record.data.tier,
                    new_tier,
                    market_cap,
                    volume,
                    reason,
                },
            ),
        ],
        None => Seq::empty(),
    }
}

/// The events of a tier change asked for `record`.
pub open spec fn tier_change_events(
    record: TokenRecord,
    new_tier: Tier,
    reason: TierChangeReason,
    now: u64,
    grace_period_ms: u64,
    quotes: Seq<OracleQuote>,
) -> Seq<RegistryEvent> {
    if new_tier == record.data.tier {
        Seq::empty()
    } else if reason.is_immediate() {
        tier_applied_events(record, new_tier, reason, quotes)
    } else {
        seq![
            RegistryEvent::GracePeriodStarted(
                GracePeriodStarted {
                    token_id: record.id,
                    current_tier: record.data.tier,
                    pending_tier: new_tier,
                    grace_end_time: now.saturating_add(grace_period_ms),
                },
            ),
        ]
    }
}

/// The tokens after every pending change whose grace period has passed by
/// `now` was put in force.
pub open spec fn graced(
    tokens: Seq<TokenRecord>,
    now: u64,
    grace_period_ms: u64,
) -> Seq<TokenRecord> {
    Seq::new(
        tokens.len(),
        |i: int|
            TokenRecord {
                id: tokens[i].id,
                data: tokens[i].data.after_grace(now, grace_period_ms),
            },
    )
}

/// How many tokens have a pending change whose grace period has passed.
pub open spec fn expired_count(tokens: Seq<TokenRecord>, now: u64, grace_period_ms: u64) -> nat
    decreases tokens.len(),
{
    if tokens.len() == 0 {
        0
    } else {
        let counted = expired_count(tokens.drop_last(), now, grace_period_ms);
        if tokens.last().data.grace_expired(now, grace_period_ms) {
            counted + 1
        } else {
            counted
        }
    }
}

/// The events of putting the expired pending changes in force, token by
/// token.
pub open spec fn grace_events(
    tokens: Seq<TokenRecord>,
    now: u64,
    grace_period_ms: u64,
    quotes: Seq<OracleQuote>,
) -> Seq<RegistryEvent>
    decreases tokens.len(),
{
    if tokens.len() == 0 {
        Seq::empty()
    } else {
        let raised = grace_events(tokens.drop_last(), now, grace_period_ms, quotes);
        if tokens.last().data.grace_expired(now, grace_period_ms) {
            raised + tier_applied_events(
                tokens.last(),
                tokens.last().data.pending_tier_change.unwrap(),
                TierChangeReason::GracePeriodEnded,
                quotes,
            )
        } else {
            raised
        }
    }
}

/// The ids of the tokens in `tier`, in the order of `tokens`.
pub open spec fn ids_in_tier(tokens: Seq<TokenRecord>, tier: Tier) -> Seq<u32>
    decreases tokens.len(),
{
    if tokens.len() == 0 {
        Seq::empty()
    } else if tokens.last().data.tier == tier {
        ids_in_tier(tokens.drop_last(), tier).push(tokens.last().id)
    } else {
        ids_in_tier(tokens.drop_last(), tier)
    }
}

/// For each token with a pending change, in the order of `tokens`: its id,
/// the tier in force, the pending tier and the time at which it was parked.
pub open spec fn pending_changes(tokens: Seq<TokenRecord>) -> Seq<(u32, Tier, Tier, u64)>
    decreases tokens.len(),
{
    if tokens.len() == 0 {
        Seq::empty()
    } else if tokens.last().data.pending_tier_change.is_some()
        && tokens.last().data.tier_change_timestamp.is_some() {
        pending_changes(tokens.drop_last()).push(
            (
                tokens.last().id,
                tokens.last().data.tier,
                tokens.last().data.pending_tier_change.unwrap(),
                tokens.last().data.tier_change_timestamp.unwrap(),
            ),
        )
    } else {
        pending_changes(tokens.drop_last())
    }
}

/// What made the active tier move, read from the reason given: the rule's own
/// name stands for the rule.
pub open spec fn trigger_of(reason: String) -> ShiftTrigger {
    if reason@ == "80_percent_rule"@ {
        ShiftTrigger::EightyPercentRule
    } else {
        ShiftTrigger::Manual(reason)
    }
}

impl RegistryView {
    /// What the registry maintains: ids rise from 1 and were all issued, no
    /// contract is registered twice, the cached distribution counts exactly
    /// the registered tokens, the grace period is within its bounds and the
    /// thresholds rise.
    pub open spec fn valid(self) -> bool {
        &&& self.next_token_id >= 1
        &&& ids_ascending(self.tokens)
        &&& ids_issued(self.tokens, self.next_token_id)
        &&& contracts_distinct(self.tokens)
        &&& self.tier_distribution == tally(self.tokens)
        &&& MIN_GRACE_PERIOD_MS <= self.grace_period_ms <= MAX_GRACE_PERIOD_MS
        &&& self.tier_thresholds.ascending()
    }

    pub open spec fn has_role(self, role: Role, account: AccountId) -> bool {
        self.roles.contains((role, account))
    }

    /// `caller` is the owner or holds `role`.
    pub open spec fn may_act_as(self, role: Role, caller: AccountId) -> bool {
        caller == self.owner || self.has_role(role, caller)
    }

    /// The number of registered tokens.
    pub open spec fn token_count(self) -> u32 {
        self.tokens.len() as u32
    }

    /// Plancks per USD as the DOT/USD oracle implies it: one DOT in plancks
    /// divided by the quoted price. Unknown without an oracle, without a
    /// quote, or at a price of zero.
    pub open spec fn usd_rate(self, quotes: Seq<OracleQuote>) -> Option<u128> {
        match self.dot_usd_oracle {
            Some(oracle) => match quoted_price(quotes, oracle, AccountId::spec_dot_token()) {
                Some(price) => if price > 0 {
                    Some(PLANCKS_PER_DOT / price)
                } else {
                    None
                },
                None => None,
            },
            None => None,
        }
    }

    /// The tier that market data classifies into, at the quoted conversion
    /// rate or else the fallback rate.
    pub open spec fn tier_from_values(
        self,
        quotes: Seq<OracleQuote>,
        market_cap: u128,
        volume: u128,
    ) -> Tier {
        tier_of(
            market_cap,
            volume,
            self.tier_thresholds,
            match self.usd_rate(quotes) {
                Some(rate) => rate,
                None => FALLBACK_USD_RATE,
            },
        )
    }

    /// The tier that the quotes give the token of `token_contract`, unknown
    /// when its oracle did not quote both market cap and volume.
    pub open spec fn computed_tier(
        self,
        quotes: Seq<OracleQuote>,
        token_contract: AccountId,
        oracle_contract: AccountId,
    ) -> Option<Tier> {
        match quoted_market_data(quotes, oracle_contract, token_contract) {
            Some((market_cap, volume)) => Some(self.tier_from_values(quotes, market_cap, volume)),
            None => None,
        }
    }

    /// The registry with `event` recorded.
    pub open spec fn with_event(self, event: RegistryEvent) -> Self {
        RegistryView { events: self.events.push(event), ..self }
    }

    /// The registry with `record` registered under the next id.
    pub open spec fn with_token(self, record: TokenRecord) -> Self {
        RegistryView {
            tokens: self.tokens.push(record),
            next_token_id: (self.next_token_id + 1) as u32,
            tier_distribution: tally(self.tokens.push(record)),
            ..self
        }
    }

    /// The registry without the token at `index`.
    pub open spec fn without_token(self, index: int) -> Self {
        RegistryView {
            tokens: self.tokens.remove(index),
            tier_distribution: tally(self.tokens.remove(index)),
            ..self
        }
    }

    /// The registry with new data for the token at `index`.
    pub open spec fn with_token_data(self, index: int, data: EnhancedTokenData) -> Self {
        RegistryView {
            tokens: self.tokens.update(index, TokenRecord { id: self.tokens[index].id, data }),
            tier_distribution: tally(
                self.tokens.update(index, TokenRecord { id: self.tokens[index].id, data }),
            ),
            ..self
        }
    }

    /// The registry after a tier change was asked for the token at `index`:
    /// nothing if the tier is in force already, else in force at once for an
    /// immediate reason, else parked for the grace period.
    pub open spec fn with_tier_change(
        self,
        index: int,
        new_tier: Tier,
        reason: TierChangeReason,
        now: u64,
        quotes: Seq<OracleQuote>,
    ) -> Self {
        RegistryView {
            events: self.events + tier_change_events(
                self.tokens[index],
                new_tier,
                reason,
                now,
                self.grace_period_ms,
                quotes,
            ),
            ..self.with_token_data(
                index,
                tier_changed(self.tokens[index].data, new_tier, reason, now),
            )
        }
    }

    /// The record that a new token gets: no balance, no weight, and the tier
    /// that the quotes give it at once, `Unranked` when its oracle is silent.
    pub open spec fn new_record(
        self,
        quotes: Seq<OracleQuote>,
        token_contract: AccountId,
        oracle_contract: AccountId,
    ) -> TokenRecord {
        TokenRecord {
            id: self.next_token_id,
            data: EnhancedTokenData {
                token_contract,
                oracle_contract,
                balance: 0,
                weight_investment: 0,
                tier: match self.computed_tier(quotes, token_contract, oracle_contract) {
                    Some(tier) => tier,
                    None => Tier::Unranked,
                },
                tier_change_timestamp: None,
                pending_tier_change: None,
            },
        }
    }

    /// Whether a token may be added, and under which id.
    pub open spec fn add_token_outcome(
        self,
        caller: AccountId,
        token_contract: AccountId,
        oracle_contract: AccountId,
    ) -> Result<u32, Error> {
        if !self.may_act_as(Role::TokenManager, caller) {
            Err(Error::UnauthorizedRole)
        } else if token_contract == AccountId::spec_zero() || oracle_contract
            == AccountId::spec_zero() {
            Err(Error::ZeroAddress)
        } else if has_contract(self.tokens, token_contract) {
            Err(Error::TokenAlreadyExists)
        } else if self.next_token_id == u32::MAX {
            Err(Error::InvalidParameter)
        } else {
            Ok(self.next_token_id)
        }
    }

    /// Whether a token may be updated.
    pub open spec fn update_token_outcome(
        self,
        caller: AccountId,
        token_id: u32,
        weight_investment: u32,
    ) -> Result<(), Error> {
        if !self.may_act_as(Role::TokenUpdater, caller) {
            Err(Error::UnauthorizedRole)
        } else if weight_investment > 10000 {
            Err(Error::InvalidWeight)
        } else if !has_id(self.tokens, token_id) {
            Err(Error::TokenNotFound)
        } else {
            Ok(())
        }
    }

    /// Whether a token may be removed.
    pub open spec fn remove_token_outcome(
        self,
        caller: AccountId,
        token_id: u32,
    ) -> Result<(), Error> {
        if !self.may_act_as(Role::TokenManager, caller) {
            Err(Error::UnauthorizedRole)
        } else if !has_id(self.tokens, token_id) {
            Err(Error::TokenNotFound)
        } else {
            Ok(())
        }
    }

    /// A token after a scheduled recalculation: a different tier is parked, a
    /// silent oracle changes nothing.
    pub open spec fn refreshed_data(
        self,
        data: EnhancedTokenData,
        now: u64,
        quotes: Seq<OracleQuote>,
    ) -> EnhancedTokenData {
        match self.computed_tier(quotes, data.token_contract, data.oracle_contract) {
            Some(tier) => tier_changed(data, tier, TierChangeReason::Scheduled, now),
            None => data,
        }
    }

    /// The tokens after a scheduled recalculation of each.
    pub open spec fn refreshed(
        self,
        tokens: Seq<TokenRecord>,
        now: u64,
        quotes: Seq<OracleQuote>,
    ) -> Seq<TokenRecord> {
        Seq::new(
            tokens.len(),
            |i: int|
                TokenRecord {
                    id: tokens[i].id,
                    data: self.refreshed_data(tokens[i].data, now, quotes),
                },
        )
    }

    /// The tier of `data` differs from what the quotes give it.
    pub open spec fn needs_refresh(
        self,
        data: EnhancedTokenData,
        quotes: Seq<OracleQuote>,
    ) -> bool {
        match self.computed_tier(quotes, data.token_contract, data.oracle_contract) {
            Some(tier) => tier != data.tier,
            None => false,
        }
    }

    /// How many of `tokens` a scheduled recalculation changes.
    pub open spec fn refresh_count(self, tokens: Seq<TokenRecord>, quotes: Seq<OracleQuote>) -> nat
        decreases tokens.len(),
    {
        if tokens.len() == 0 {
            0
        } else {
            self.refresh_count(tokens.drop_last(), quotes) + if self.needs_refresh(
                tokens.last().data,
                quotes,
            ) {
                1nat
            } else {
                0nat
            }
        }
    }

    /// The events of a scheduled recalculation, token by token.
    pub open spec fn refresh_events(
        self,
        tokens: Seq<TokenRecord>,
        now: u64,
        quotes: Seq<OracleQuote>,
    ) -> Seq<RegistryEvent>
        decreases tokens.len(),
    {
        if tokens.len() == 0 {
            Seq::empty()
        } else {
            self.refresh_events(tokens.drop_last(), now, quotes) + match self.computed_tier(
                quotes,
                tokens.last().data.token_contract,
                tokens.last().data.oracle_contract,
            ) {
                Some(tier) => tier_change_events(
                    tokens.last(),
                    tier,
                    TierChangeReason::Scheduled,
                    now,
                    self.grace_period_ms,
                    quotes,
                ),
                None => Seq::empty(),
            }
        }
    }

    /// The registry after a scheduled recalculation of all tiers.
    pub open spec fn after_refresh(self, now: u64, quotes: Seq<OracleQuote>) -> Self {
        (RegistryView {
            tokens: self.refreshed(self.tokens, now, quotes),
            tier_distribution: tally(self.refreshed(self.tokens, now, quotes)),
            events: self.events + self.refresh_events(self.tokens, now, quotes),
            ..self
        }).after_auto_shift(now)
    }

    /// The registry after the expired pending changes were put in force. The
    /// 80% rule is applied only if there were any.
    pub open spec fn after_grace_periods(self, now: u64, quotes: Seq<OracleQuote>) -> Self {
        let processed = RegistryView {
            tokens: graced(self.tokens, now, self.grace_period_ms),
            tier_distribution: tally(graced(self.tokens, now, self.grace_period_ms)),
            events: self.events + grace_events(self.tokens, now, self.grace_period_ms, quotes),
            ..self
        };
        if expired_count(self.tokens, now, self.grace_period_ms) > 0 {
            processed.after_auto_shift(now)
        } else {
            processed
        }
    }

    /// The registry after the owner put `new_tier` in force for the token at
    /// `index`, past any grace period.
    pub open spec fn with_tier_override(
        self,
        index: int,
        new_tier: Tier,
        caller: AccountId,
        now: u64,
        reason: String,
        quotes: Seq<OracleQuote>,
    ) -> Self {
        let record = self.tokens[index];
        if record.data.tier == new_tier {
            self
        } else {
            RegistryView {
                events: self.events.push(
                    RegistryEvent::EmergencyTierOverride(
                        EmergencyTierOverride {
                            token_id: record.id,
                            token_contract: record.data.token_contract,
                            old_tier: record.data.tier,
                            new_tier,
                            overridden_by: caller,
                            timestamp: now,
                            reason,
                        },
                    ),
                ) + tier_applied_events(
                    record,
                    new_tier,
                    TierChangeReason::EmergencyOverride,
                    quotes,
                ),
                ..self.with_token_data(index, record.data.with_tier(new_tier, now))
            }
        }
    }

    /// The tier that the 80% rule would make active now.
    pub open spec fn shift_due(self) -> Option<Tier> {
        shift_target(self.tier_distribution, self.token_count(), self.active_tier)
    }

    /// The registry after `new_tier` became active at `now`. Nothing changes
    /// when it is active already.
    pub open spec fn with_active_tier(
        self,
        new_tier: Tier,
        trigger: ShiftTrigger,
        now: u64,
    ) -> Self {
        if new_tier == self.active_tier {
            self
        } else {
            RegistryView {
                active_tier: new_tier,
                last_tier_change: Some(now),
                events: self.events.push(
                    RegistryEvent::ActiveTierShifted(
                        ActiveTierShifted {
                            old_tier: self.active_tier,
                            new_tier,
                            trigger_reason: trigger,
                            timestamp: now,
                            tokens_qualifying: self.tier_distribution.count(new_tier),
                            total_tokens: self.token_count(),
                        },
                    ),
                ),
                ..self
            }
        }
    }

    /// The registry after the 80% rule was applied at `now`.
    pub open spec fn after_auto_shift(self, now: u64) -> Self {
        match self.shift_due() {
            Some(new_tier) => self.with_active_tier(new_tier, ShiftTrigger::EightyPercentRule, now),
            None => self,
        }
    }
}

} // verus!
