//! The state of the portfolio as contracts speak of it, and what each
//! operation makes of it.

use crate::feed::{token_answer, TokenAnswer};
use crate::math::{abs_diff_spec, checked_mul_div_spec};
use crate::portfolio::{FeeConfiguration, PortfolioState};
use crate::portfolio::events::{
    BasePortfolioValueSet, IndexValueUpdated, PortfolioEvent, TokenHoldingUpdated,
};
use crate::portfolio::holdings::{
    holding_of, holds, ids_distinct, position_of, total_weight, HoldingRecord, TokenHolding,
    FULL_WEIGHT_BP,
};
use crate::shared::{AccountId, EnrichedTokenData, Error};
use vstd::prelude::*;

verus! {

/// The state of a portfolio as contracts speak of it.
pub struct PortfolioView {
    pub owner: AccountId,
    pub state: PortfolioState,
    pub deployment_timestamp: u64,
    /// The holdings, in the order in which they were added.
    pub holdings: Seq<HoldingRecord>,
    /// The index value at the baseline.
    pub index_base_value: u128,
    /// The value of the portfolio at the baseline, 0 while none is set.
    pub base_portfolio_value: u128,
    /// The index value as last computed.
    pub current_index_value: u128,
    pub last_index_update: u64,
    pub index_tracking_enabled: bool,
    pub fee_config: FeeConfiguration,
    pub total_fees_collected: u128,
    pub registry_contract: Option<AccountId>,
    pub token_contract: Option<AccountId>,
    pub dex_contract: Option<AccountId>,
    pub oracle_contract: Option<AccountId>,
    pub max_tokens: u32,
    pub min_portfolio_value: u128,
    pub last_rebalance: u64,
    pub rebalance_threshold_bp: u32,
    pub emergency_paused: bool,
    pub min_liquidity_buffer: u128,
    /// The cash buffer.
    pub usdc_balance: u128,
    pub max_single_position_bp: u32,
    pub max_slippage_bp: u32,
    /// Events raised and not yet taken by the host, oldest first.
    pub events: Seq<PortfolioEvent>,
}

/// The value of one holding: amount times price where the registry answered
/// and the product fits, and the bare amount where the product does not fit
/// or the registry did not answer.
pub open spec fn holding_value(
    record: HoldingRecord,
    answer: Result<EnrichedTokenData, Error>,
) -> u128 {
    match answer {
        Ok(data) => if record.holding.amount * data.price > u128::MAX {
            record.holding.amount
        } else {
            (record.holding.amount * data.price) as u128
        },
        Err(_) => record.holding.amount,
    }
}

/// The market value of one holding: amount times price, and 0 where the
/// registry did not answer or the product does not fit.
pub open spec fn market_value(
    record: HoldingRecord,
    answer: Result<EnrichedTokenData, Error>,
) -> u128 {
    match answer {
        Ok(data) => if record.holding.amount * data.price > u128::MAX {
            0
        } else {
            (record.holding.amount * data.price) as u128
        },
        Err(_) => 0,
    }
}

/// One entry of a batch of new holdings: token id, amount, target weight.
pub type NewHolding = (u32, u128, u32);

/// One of the first `count` entries is about `token_id`.
pub open spec fn listed_before(entries: Seq<NewHolding>, count: int, token_id: u32) -> bool {
    exists|j: int| 0 <= j < count && j < entries.len() && #[trigger] entries[j].0 == token_id
}

/// Why the entry at `index` cannot be added, if it cannot: an amount of zero
/// or a weight above the whole, or a token that is held already or listed
/// earlier in the batch.
pub open spec fn entry_rejection(
    entries: Seq<NewHolding>,
    index: int,
    holdings: Seq<HoldingRecord>,
) -> Option<Error> {
    if entries[index].1 == 0 || entries[index].2 > FULL_WEIGHT_BP {
        Some(Error::InvalidParameter)
    } else if holds(holdings, entries[index].0) || listed_before(entries, index, entries[index].0) {
        Some(Error::TokenAlreadyExists)
    } else {
        None
    }
}

/// Why the first `count` entries cannot be added, if they cannot: the
/// rejection of the first entry that has one.
pub open spec fn batch_rejection(
    entries: Seq<NewHolding>,
    count: int,
    holdings: Seq<HoldingRecord>,
) -> Option<Error>
    decreases count,
{
    if count <= 0 {
        None
    } else {
        match batch_rejection(entries, count - 1, holdings) {
            Some(e) => Some(e),
            None => entry_rejection(entries, count - 1, holdings),
        }
    }
}

/// The target weights of the first `count` entries together.
pub open spec fn batch_weight(entries: Seq<NewHolding>, count: int) -> nat
    decreases count,
{
    if count <= 0 {
        0
    } else {
        batch_weight(entries, count - 1) + entries[count - 1].2 as nat
    }
}

/// The holding that an entry of a batch becomes.
pub open spec fn batch_record(entry: NewHolding, now: u64) -> HoldingRecord {
    HoldingRecord {
        token_id: entry.0,
        holding: TokenHolding {
            amount: entry.1,
            target_weight_bp: entry.2,
            last_rebalance: now,
            fees_collected: 0,
        },
    }
}

/// The holdings after the first `count` of `updates` set new amounts, one
/// after the other. An update for a token that is not held changes nothing.
pub open spec fn amounts_applied(
    holdings: Seq<HoldingRecord>,
    updates: Seq<(u32, u128)>,
    count: int,
    now: u64,
) -> Seq<HoldingRecord>
    decreases count,
{
    if count <= 0 {
        holdings
    } else {
        let earlier = amounts_applied(holdings, updates, count - 1, now);
        let update = updates[count - 1];
        if holds(earlier, update.0) {
            let index = position_of(earlier, update.0);
            earlier.update(
                index,
                HoldingRecord {
                    token_id: update.0,
                    holding: TokenHolding {
                        amount: update.1,
                        last_rebalance: now,
                        ..earlier[index].holding
                    },
                },
            )
        } else {
            earlier
        }
    }
}

/// The events of the first `count` of `updates`.
pub open spec fn amount_events(
    holdings: Seq<HoldingRecord>,
    updates: Seq<(u32, u128)>,
    count: int,
    caller: AccountId,
    now: u64,
) -> Seq<PortfolioEvent>
    decreases count,
{
    if count <= 0 {
        Seq::empty()
    } else {
        let earlier = amounts_applied(holdings, updates, count - 1, now);
        let update = updates[count - 1];
        if holds(earlier, update.0) {
            let held = earlier[position_of(earlier, update.0)].holding;
            amount_events(holdings, updates, count - 1, caller, now).push(
                PortfolioEvent::TokenHoldingUpdated(
                    TokenHoldingUpdated {
                        token_id: update.0,
                        old_amount: held.amount,
                        new_amount: update.1,
                        old_weight: held.target_weight_bp,
                        new_weight: held.target_weight_bp,
                        updated_by: caller,
                        timestamp: now,
                    },
                ),
            )
        } else {
            amount_events(holdings, updates, count - 1, caller, now)
        }
    }
}

/// How many of the first `count` of `updates` are about a token that is
/// held. The operation reports this number held at the bound of `u32`.
pub open spec fn amount_updates(
    holdings: Seq<HoldingRecord>,
    updates: Seq<(u32, u128)>,
    count: int,
) -> nat
    decreases count,
{
    if count <= 0 {
        0
    } else {
        amount_updates(holdings, updates, count - 1) + if holds(holdings, updates[count - 1].0) {
            1nat
        } else {
            0nat
        }
    }
}

/// Deviation of `current` from `base` in basis points, negative below the
/// base, held within the range of `i32`. A base of zero gives 0. It cannot be
/// computed when the difference times 10000 does not fit.
pub open spec fn performance_bp_of(base: u128, current: u128) -> Result<i32, Error> {
    if base == 0 {
        Ok(0)
    } else {
        match checked_mul_div_spec(abs_diff_spec(current, base), 10000, base) {
            None => Err(Error::InvalidParameter),
            Some(bp) => {
                let capped: int = if bp > i32::MAX {
                    i32::MAX as int
                } else {
                    bp as int
                };
                if current >= base {
                    Ok(capped as i32)
                } else {
                    Ok((-capped) as i32)
                }
            },
        }
    }
}

impl PortfolioView {
    /// What the portfolio maintains: no token is held twice, the target
    /// weights add up to at most 10000 basis points, there are no more
    /// holdings than allowed, and no fee exceeds the whole.
    pub open spec fn valid(self) -> bool {
        &&& ids_distinct(self.holdings)
        &&& total_weight(self.holdings) <= FULL_WEIGHT_BP
        &&& self.holdings.len() <= self.max_tokens
        &&& self.max_tokens > 0
        &&& self.fee_config.within_bounds()
    }

    /// The portfolio with `event` recorded.
    pub open spec fn with_event(self, event: PortfolioEvent) -> Self {
        PortfolioView { events: self.events.push(event), ..self }
    }

    /// What asking the registry for `token_id` comes to: refused without a
    /// registry, failed when the call did, else what the registry answered.
    pub open spec fn token_data(
        self,
        answers: Seq<TokenAnswer>,
        token_id: u32,
    ) -> Result<EnrichedTokenData, Error> {
        if self.registry_contract.is_none() {
            Err(Error::InvalidParameter)
        } else {
            match token_answer(answers, token_id) {
                None => Err(Error::OracleCallFailed),
                Some(answer) => answer,
            }
        }
    }

    /// The value of the first `count` holdings together, held at the numeric
    /// bound.
    pub open spec fn valued_total(self, answers: Seq<TokenAnswer>, count: int) -> u128
        decreases count,
    {
        if count <= 0 {
            0
        } else {
            self.valued_total(answers, count - 1).saturating_add(
                holding_value(
                    self.holdings[count - 1],
                    self.token_data(answers, self.holdings[count - 1].token_id),
                ),
            )
        }
    }

    /// How many of the first `count` holdings the registry answered for.
    pub open spec fn priced_count(self, answers: Seq<TokenAnswer>, count: int) -> nat
        decreases count,
    {
        if count <= 0 {
            0
        } else {
            self.priced_count(answers, count - 1) + if self.token_data(
                answers,
                self.holdings[count - 1].token_id,
            ).is_ok() {
                1nat
            } else {
                0nat
            }
        }
    }

    /// The value of the whole portfolio: the value of each holding plus the
    /// cash buffer, held at the numeric bound. With holdings of which the
    /// registry answered for none, there is no market data to value them.
    pub open spec fn total_portfolio_value(self, answers: Seq<TokenAnswer>) -> Result<u128, Error> {
        if self.holdings.len() == 0 {
            Ok(self.usdc_balance)
        } else if self.priced_count(answers, self.holdings.len() as int) == 0 {
            Err(Error::OracleCallFailed)
        } else {
            Ok(
                self.valued_total(answers, self.holdings.len() as int).saturating_add(
                    self.usdc_balance,
                ),
            )
        }
    }

    /// The index value: the value of the portfolio over its value at the
    /// baseline, times the index value at the baseline. While tracking is off
    /// or no baseline is set it is the index value at the baseline.
    pub open spec fn index_value(self, answers: Seq<TokenAnswer>) -> Result<u128, Error> {
        if !self.index_tracking_enabled || self.base_portfolio_value == 0 {
            Ok(self.index_base_value)
        } else {
            match self.total_portfolio_value(answers) {
                Err(e) => Err(e),
                Ok(value) => match checked_mul_div_spec(
                    value,
                    self.index_base_value,
                    self.base_portfolio_value,
                ) {
                    Some(index) => Ok(index),
                    None => Err(Error::InvalidParameter),
                },
            }
        }
    }

    /// Deviation of `current_value` from the index value at the baseline.
    pub open spec fn performance_bp(self, current_value: u128) -> Result<i32, Error> {
        performance_bp_of(self.index_base_value, current_value)
    }

    /// The index value to store on a refresh, if it and its performance can
    /// be computed.
    pub open spec fn refreshable_index(self, answers: Seq<TokenAnswer>) -> Result<u128, Error> {
        match self.index_value(answers) {
            Err(e) => Err(e),
            Ok(value) => match self.performance_bp(value) {
                Err(e) => Err(e),
                Ok(_) => Ok(value),
            },
        }
    }

    /// The portfolio after its cached index value was refreshed at `now`.
    /// With tracking off, or when the value cannot be computed, nothing
    /// changes.
    pub open spec fn with_index_refreshed(self, now: u64, answers: Seq<TokenAnswer>) -> Self {
        if !self.index_tracking_enabled {
            self
        } else {
            match self.refreshable_index(answers) {
                Err(_) => self,
                Ok(value) => (PortfolioView {
                    current_index_value: value,
                    last_index_update: now,
                    ..self
                }).with_event(
                    PortfolioEvent::IndexValueUpdated(
                        IndexValueUpdated {
                            old_value: self.current_index_value,
                            new_value: value,
                            performance_bp: self.performance_bp(value).unwrap(),
                            total_portfolio_value: match self.total_portfolio_value(answers) {
                                Ok(total) => total,
                                Err(_) => 0,
                            },
                            timestamp: now,
                        },
                    ),
                ),
            }
        }
    }

    /// Whether a holding may be added.
    pub open spec fn add_holding_outcome(
        self,
        caller: AccountId,
        token_id: u32,
        amount: u128,
        target_weight_bp: u32,
    ) -> Result<(), Error> {
        if self.holdings_gate(caller).is_err() {
            self.holdings_gate(caller)
        } else if amount == 0 || target_weight_bp > FULL_WEIGHT_BP {
            Err(Error::InvalidParameter)
        } else if holds(self.holdings, token_id) {
            Err(Error::TokenAlreadyExists)
        } else if self.holdings.len() >= self.max_tokens {
            Err(Error::InvalidParameter)
        } else if total_weight(self.holdings) + target_weight_bp > FULL_WEIGHT_BP {
            Err(Error::InvalidParameter)
        } else {
            Ok(())
        }
    }

    /// Whether a holding may be updated: the weights of all other holdings
    /// and the new weight together may not exceed the whole.
    pub open spec fn update_holding_outcome(
        self,
        caller: AccountId,
        token_id: u32,
        new_target_weight_bp: u32,
    ) -> Result<(), Error> {
        if self.holdings_gate(caller).is_err() {
            self.holdings_gate(caller)
        } else if new_target_weight_bp > FULL_WEIGHT_BP {
            Err(Error::InvalidParameter)
        } else if !holds(self.holdings, token_id) {
            Err(Error::TokenNotFound)
        } else if total_weight(self.holdings) - holding_of(
            self.holdings,
            token_id,
        ).unwrap().target_weight_bp + new_target_weight_bp > FULL_WEIGHT_BP {
            Err(Error::InvalidParameter)
        } else {
            Ok(())
        }
    }

    /// Whether a holding may be removed.
    pub open spec fn remove_holding_outcome(
        self,
        caller: AccountId,
        token_id: u32,
    ) -> Result<(), Error> {
        if self.holdings_gate(caller).is_err() {
            self.holdings_gate(caller)
        } else if !holds(self.holdings, token_id) {
            Err(Error::TokenNotFound)
        } else {
            Ok(())
        }
    }

    /// Whether the baseline may be set: once, with holdings, and at a value
    /// that is not zero.
    pub open spec fn initialize_outcome(
        self,
        caller: AccountId,
        answers: Seq<TokenAnswer>,
    ) -> Result<(), Error> {
        if caller != self.owner {
            Err(Error::Unauthorized)
        } else if self.base_portfolio_value != 0 {
            Err(Error::InvalidParameter)
        } else if self.holdings.len() == 0 {
            Err(Error::InvalidParameter)
        } else {
            match self.total_portfolio_value(answers) {
                Err(e) => Err(e),
                Ok(value) => if value == 0 {
                    Err(Error::InvalidParameter)
                } else {
                    Ok(())
                },
            }
        }
    }

    /// The portfolio with its baseline set to the value it has now.
    pub open spec fn with_baseline(
        self,
        caller: AccountId,
        now: u64,
        answers: Seq<TokenAnswer>,
    ) -> Self {
        (PortfolioView {
            base_portfolio_value: self.total_portfolio_value(answers).unwrap(),
            current_index_value: self.index_base_value,
            index_tracking_enabled: true,
            last_index_update: now,
            ..self
        }).with_event(
            PortfolioEvent::BasePortfolioValueSet(
                BasePortfolioValueSet {
                    base_value: self.index_base_value,
                    base_portfolio_value: self.total_portfolio_value(answers).unwrap(),
                    deployment_timestamp: self.deployment_timestamp,
                    set_by: caller,
                },
            ),
        )
    }

    /// The market value of the first `count` holdings together, held at the
    /// numeric bound. Holdings for which the registry does not answer count
    /// for nothing.
    pub open spec fn market_total(self, answers: Seq<TokenAnswer>, count: int) -> u128
        decreases count,
    {
        if count <= 0 {
            0
        } else {
            self.market_total(answers, count - 1).saturating_add(
                market_value(
                    self.holdings[count - 1],
                    self.token_data(answers, self.holdings[count - 1].token_id),
                ),
            )
        }
    }

    /// The ids of those of the first `count` holdings for which the registry
    /// does not answer.
    pub open spec fn unanswered(self, answers: Seq<TokenAnswer>, count: int) -> Seq<u32>
        decreases count,
    {
        if count <= 0 {
            Seq::empty()
        } else if self.token_data(answers, self.holdings[count - 1].token_id).is_err() {
            self.unanswered(answers, count - 1).push(self.holdings[count - 1].token_id)
        } else {
            self.unanswered(answers, count - 1)
        }
    }

    /// Whether a batch of holdings may be added.
    pub open spec fn add_batch_outcome(
        self,
        caller: AccountId,
        entries: Seq<NewHolding>,
    ) -> Result<u32, Error> {
        if self.holdings_gate(caller).is_err() {
            match self.holdings_gate(caller) {
                Err(e) => Err(e),
                Ok(_) => Err(Error::InvalidParameter),
            }
        } else if entries.len() == 0 {
            Err(Error::InvalidParameter)
        } else if self.holdings.len() + entries.len() > self.max_tokens {
            Err(Error::InvalidParameter)
        } else if batch_rejection(entries, entries.len() as int, self.holdings).is_some() {
            Err(batch_rejection(entries, entries.len() as int, self.holdings).unwrap())
        } else if total_weight(self.holdings) + batch_weight(entries, entries.len() as int)
            > FULL_WEIGHT_BP {
            Err(Error::InvalidParameter)
        } else {
            Ok(entries.len() as u32)
        }
    }

    /// Whether the owner may change holdings now.
    pub open spec fn holdings_gate(self, caller: AccountId) -> Result<(), Error> {
        if caller != self.owner {
            Err(Error::Unauthorized)
        } else if self.emergency_paused {
            Err(Error::InvalidParameter)
        } else {
            Ok(())
        }
    }
}

/// A rejection found among the first entries stands for the whole batch.
pub proof fn lemma_rejection_persists(
    entries: Seq<NewHolding>,
    count: int,
    longer: int,
    holdings: Seq<HoldingRecord>,
)
    requires
        0 <= count <= longer,
        batch_rejection(entries, count, holdings).is_some(),
    ensures
        batch_rejection(entries, longer, holdings) == batch_rejection(entries, count, holdings),
    decreases longer - count,
{
    if count < longer {
        lemma_rejection_persists(entries, count, longer - 1, holdings);
    }
}

/// A batch without a rejection has none for any of its entries, and its
/// weights grow from entry to entry.
pub proof fn lemma_accepted_batch(
    entries: Seq<NewHolding>,
    count: int,
    holdings: Seq<HoldingRecord>,
)
    requires
        0 <= count,
        batch_rejection(entries, count, holdings).is_none(),
    ensures
        forall|k: int| 0 <= k < count ==> entry_rejection(entries, k, holdings).is_none(),
        forall|k: int| 0 <= k <= count ==> batch_weight(entries, k) <= batch_weight(entries, count),
    decreases count,
{
    if count > 0 {
        lemma_accepted_batch(entries, count - 1, holdings);
    }
}

} // verus!
