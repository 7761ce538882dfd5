//! The portfolio: weighted holdings, and an index value that follows the
//! value of the holdings from a baseline that is set once.

pub mod admin;
pub mod events;
pub mod holdings;
pub mod index;
pub mod laws;
pub mod management;
pub mod model;
pub mod registry_link;
pub mod snapshot;
pub mod valuation;

use crate::portfolio::events::{PortfolioEvent, PortfolioInitialized};
use crate::portfolio::holdings::{
    holds, lemma_weight_prefix, position_of, total_weight, HoldingRecord, TokenHolding,
    FULL_WEIGHT_BP,
};
use crate::portfolio::model::PortfolioView;
use crate::shared::{AccountId, Error};
use vstd::prelude::*;

verus! {

/// Most tokens that a new portfolio can hold.
pub const DEFAULT_MAX_TOKENS: u32 = 50;

/// Deviation that calls for rebalancing, in basis points.
pub const DEFAULT_REBALANCE_THRESHOLD_BP: u32 = 500;

/// Largest share of one token, in basis points.
pub const DEFAULT_MAX_SINGLE_POSITION_BP: u32 = 2000;

/// Slippage that trades tolerate, in basis points.
pub const DEFAULT_MAX_SLIPPAGE_BP: u32 = 200;

/// The index value at the baseline: 100 USD, in plancks.
pub const INDEX_BASE_VALUE: u128 = 100_000_000_000;

/// Smallest portfolio value at which trades are allowed, in plancks.
pub const MIN_PORTFOLIO_VALUE: u128 = 1_000_000_000_000;

/// Smallest cash buffer, in plancks.
pub const DEFAULT_MIN_LIQUIDITY_BUFFER: u128 = 100_000_000_000;

/// Plancks per USD used to show the index value in USD.
pub const DISPLAY_USD_RATE: u128 = 1_666_666_667;

/// Age, in milliseconds, from which a cached index value counts as stale.
pub const INDEX_STALENESS_MS: u64 = 3_600_000;

/// How far operations of the portfolio are restricted.
#[derive(Clone, Copy, Debug, PartialEq, Eq, Structural)]
pub enum PortfolioState {
    /// Normal operations.
    Active,
    /// No trades.
    Paused,
    /// Rebalancing in progress.
    Maintenance,
    /// Withdrawals only.
    Emergency,
}

impl Default for PortfolioState {
    fn default() -> (r: Self)
        ensures
            r == PortfolioState::Active,
    {
        PortfolioState::Active
    }
}

/// The fees of the portfolio, each in basis points.
#[derive(Clone, Copy, Debug, PartialEq, Eq, Structural)]
pub struct FeeConfiguration {
    pub buy_fee_bp: u32,
    pub sell_fee_bp: u32,
    /// Charged per year.
    pub streaming_fee_bp: u32,
}

impl FeeConfiguration {
    /// No fee exceeds the whole.
    pub open spec fn within_bounds(self) -> bool {
        self.buy_fee_bp <= 10000 && self.sell_fee_bp <= 10000 && self.streaming_fee_bp <= 10000
    }
}

impl Default for FeeConfiguration {
    fn default() -> (r: Self)
        ensures
            r == (FeeConfiguration { buy_fee_bp: 55, sell_fee_bp: 95, streaming_fee_bp: 195 }),
    {
        FeeConfiguration { buy_fee_bp: 55, sell_fee_bp: 95, streaming_fee_bp: 195 }
    }
}

/// A summary of what the portfolio holds.
#[derive(Clone, Debug, PartialEq, Eq)]
pub struct PortfolioComposition {
    pub total_tokens: u32,
    pub total_value: u128,
    /// Each holding under the id of its token.
    pub holdings: Vec<(u32, TokenHolding)>,
}

/// The portfolio.
#[derive(Clone, Debug, PartialEq, Eq)]
pub struct Portfolio {
    owner: AccountId,
    state: PortfolioState,
    deployment_timestamp: u64,
    /// The holdings, in the order in which they were added.
    holdings: Vec<HoldingRecord>,
    index_base_value: u128,
    base_portfolio_value: u128,
    current_index_value: u128,
    last_index_update: u64,
    index_tracking_enabled: bool,
    fee_config: FeeConfiguration,
    total_fees_collected: u128,
    registry_contract: Option<AccountId>,
    token_contract: Option<AccountId>,
    dex_contract: Option<AccountId>,
    oracle_contract: Option<AccountId>,
    max_tokens: u32,
    min_portfolio_value: u128,
    last_rebalance: u64,
    rebalance_threshold_bp: u32,
    emergency_paused: bool,
    min_liquidity_buffer: u128,
    usdc_balance: u128,
    max_single_position_bp: u32,
    max_slippage_bp: u32,
    events: Vec<PortfolioEvent>,
}

impl View for Portfolio {
    type V = PortfolioView;

    closed spec fn view(&self) -> PortfolioView {
        PortfolioView {
            owner: self.owner,
            state: self.state,
            deployment_timestamp: self.deployment_timestamp,
            holdings: self.holdings@,
            index_base_value: self.index_base_value,
            base_portfolio_value: self.base_portfolio_value,
            current_index_value: self.current_index_value,
            last_index_update: self.last_index_update,
            index_tracking_enabled: self.index_tracking_enabled,
            fee_config: self.fee_config,
            total_fees_collected: self.total_fees_collected,
            registry_contract: self.registry_contract,
            token_contract: self.token_contract,
            dex_contract: self.dex_contract,
            oracle_contract: self.oracle_contract,
            max_tokens: self.max_tokens,
            min_portfolio_value: self.min_portfolio_value,
            last_rebalance: self.last_rebalance,
            rebalance_threshold_bp: self.rebalance_threshold_bp,
            emergency_paused: self.emergency_paused,
            min_liquidity_buffer: self.min_liquidity_buffer,
            usdc_balance: self.usdc_balance,
            max_single_position_bp: self.max_single_position_bp,
            max_slippage_bp: self.max_slippage_bp,
            events: self.events@,
        }
    }
}

impl Portfolio {
    /// The portfolio keeps what `PortfolioView::valid` states.
    pub closed spec fn wf(&self) -> bool {
        self@.valid()
    }

    /// A well-formed portfolio is valid.
    pub proof fn lemma_wf_is_valid(&self)
        requires
            self.wf(),
        ensures
            self@.valid(),
    {
    }

    /// An empty portfolio owned by `caller`, deployed at `now`.
    pub fn new(caller: AccountId, now: u64) -> (portfolio: Self)
        ensures
            portfolio.wf(),
            portfolio@ == (PortfolioView {
                owner: caller,
                state: PortfolioState::Active,
                deployment_timestamp: now,
                holdings: Seq::empty(),
                index_base_value: INDEX_BASE_VALUE,
                base_portfolio_value: 0,
                current_index_value: INDEX_BASE_VALUE,
                last_index_update: now,
                index_tracking_enabled: false,
                fee_config: FeeConfiguration {
                    buy_fee_bp: 55,
                    sell_fee_bp: 95,
                    streaming_fee_bp: 195,
                },
                total_fees_collected: 0,
                registry_contract: None,
                token_contract: None,
                dex_contract: None,
                oracle_contract: None,
                max_tokens: DEFAULT_MAX_TOKENS,
                min_portfolio_value: MIN_PORTFOLIO_VALUE,
                last_rebalance: now,
                rebalance_threshold_bp: DEFAULT_REBALANCE_THRESHOLD_BP,
                emergency_paused: false,
                min_liquidity_buffer: DEFAULT_MIN_LIQUIDITY_BUFFER,
                usdc_balance: 0,
                max_single_position_bp: DEFAULT_MAX_SINGLE_POSITION_BP,
                max_slippage_bp: DEFAULT_MAX_SLIPPAGE_BP,
                events: seq![
                    PortfolioEvent::PortfolioInitialized(
                        PortfolioInitialized {
                            owner: caller,
                            deployment_timestamp: now,
                            index_base_value: INDEX_BASE_VALUE,
                            initial_state: PortfolioState::Active,
                        },
                    ),
                ],
            }),
    {
        let mut events: Vec<PortfolioEvent> = Vec::new();
        events.push(
            PortfolioEvent::PortfolioInitialized(
                PortfolioInitialized {
                    owner: caller,
                    deployment_timestamp: now,
                    index_base_value: INDEX_BASE_VALUE,
                    initial_state: PortfolioState::Active,
                },
            ),
        );
        let portfolio = Portfolio {
            owner: caller,
            state: PortfolioState::Active,
            deployment_timestamp: now,
            holdings: Vec::new(),
            index_base_value: INDEX_BASE_VALUE,
            base_portfolio_value: 0,
            current_index_value: INDEX_BASE_VALUE,
            last_index_update: now,
            index_tracking_enabled: false,
            fee_config: FeeConfiguration::default(),
            total_fees_collected: 0,
            registry_contract: None,
            token_contract: None,
            dex_contract: None,
            oracle_contract: None,
            max_tokens: DEFAULT_MAX_TOKENS,
            min_portfolio_value: MIN_PORTFOLIO_VALUE,
            last_rebalance: now,
            rebalance_threshold_bp: DEFAULT_REBALANCE_THRESHOLD_BP,
            emergency_paused: false,
            min_liquidity_buffer: DEFAULT_MIN_LIQUIDITY_BUFFER,
            usdc_balance: 0,
            max_single_position_bp: DEFAULT_MAX_SINGLE_POSITION_BP,
            max_slippage_bp: DEFAULT_MAX_SLIPPAGE_BP,
            events,
        };
        portfolio
    }

    /// Hands the recorded events to the host and clears the log.
    pub fn take_events(&mut self) -> (taken: Vec<PortfolioEvent>)
        requires
            old(self).wf(),
        ensures
            final(self).wf(),
            taken@ == old(self)@.events,
            final(self)@ == (PortfolioView { events: Seq::empty(), ..old(self)@ }),
    {
        let mut taken: Vec<PortfolioEvent> = Vec::new();
        core::mem::swap(&mut taken, &mut self.events);
        taken
    }

    fn ensure_owner(&self, caller: AccountId) -> (r: Result<(), Error>)
        ensures
            r == if caller == self@.owner {
                Ok::<(), Error>(())
            } else {
                Err::<(), Error>(Error::Unauthorized)
            },
    {
        if caller != self.owner {
            return Err(Error::Unauthorized);
        }
        Ok(())
    }

    /// Whether the portfolio is in its active state.
    pub fn ensure_active(&self) -> (r: Result<(), Error>)
        ensures
            r == if self@.state == PortfolioState::Active {
                Ok::<(), Error>(())
            } else {
                Err::<(), Error>(Error::InvalidParameter)
            },
    {
        match self.state {
            PortfolioState::Active => Ok(()),
            _ => Err(Error::InvalidParameter),
        }
    }

    fn ensure_not_emergency_paused(&self) -> (r: Result<(), Error>)
        ensures
            r == if self@.emergency_paused {
                Err::<(), Error>(Error::InvalidParameter)
            } else {
                Ok::<(), Error>(())
            },
    {
        if self.emergency_paused {
            return Err(Error::InvalidParameter);
        }
        Ok(())
    }

    /// The position of the holding of `token_id`.
    fn find_holding(&self, token_id: u32) -> (r: Option<usize>)
        requires
            self.wf(),
        ensures
            match r {
                Some(i) => i < self@.holdings.len() && self@.holdings[i as int].token_id
                    == token_id && holds(self@.holdings, token_id) && position_of(
                    self@.holdings,
                    token_id,
                ) == i,
                None => !holds(self@.holdings, token_id),
            },
    {
        let mut i: usize = 0;
        while i < self.holdings.len()
            invariant
                self.wf(),
                i <= self.holdings@.len(),
                forall|j: int| 0 <= j < i ==> self.holdings@[j].token_id != token_id,
            decreases self.holdings@.len() - i,
        {
            if self.holdings[i].token_id == token_id {
                return Some(i);
            }
            i = i + 1;
        }
        None
    }

    /// The target weights of all holdings together, in basis points.
    fn calculate_total_target_weight(&self) -> (r: u32)
        requires
            self.wf(),
        ensures
            r == total_weight(self@.holdings),
            r <= FULL_WEIGHT_BP,
    {
        let mut total: u32 = 0;
        let n = self.holdings.len();
        let mut i: usize = 0;
        while i < n
            invariant
                self.wf(),
                n == self@.holdings.len(),
                i <= n,
                total == total_weight(self@.holdings.take(i as int)),
                total <= total_weight(self@.holdings),
            decreases n - i,
        {
            proof {
                assert(self@.holdings.take(i + 1).drop_last() =~= self@.holdings.take(i as int));
                lemma_weight_prefix(self@.holdings, i + 1);
            }
            total = total.saturating_add(self.holdings[i].holding.target_weight_bp);
            i = i + 1;
        }
        assert(self@.holdings.take(n as int) =~= self@.holdings);
        total
    }
}

} // verus!
