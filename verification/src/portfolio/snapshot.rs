//! The stored form of a portfolio: plain values that a host keeps between
//! calls, and that are checked when a portfolio is made of them again.

use crate::portfolio::holdings::{
    ids_distinct, lemma_weight_prefix, total_weight, HoldingRecord, FULL_WEIGHT_BP,
};
use crate::portfolio::model::PortfolioView;
use crate::portfolio::{FeeConfiguration, Portfolio, PortfolioState};
use crate::shared::AccountId;
use vstd::prelude::*;

verus! {

/// A portfolio as a host stores it. Events are not stored: the host takes
/// them before it stores the portfolio.
#[derive(Clone, Debug, PartialEq, Eq)]
pub struct PortfolioSnapshot {
    pub owner: AccountId,
    pub state: PortfolioState,
    pub deployment_timestamp: u64,
    pub holdings: Vec<HoldingRecord>,
    pub index_base_value: u128,
    pub base_portfolio_value: u128,
    pub current_index_value: u128,
    pub last_index_update: u64,
    pub index_tracking_enabled: bool,
    pub fee_config: FeeConfiguration,
    pub total_fees_collected: u128,
    pub registry_contract: Option<AccountId>,
    pub token_contract: Option<AccountId>,
    pub dex_contract: Option<AccountId>,
    pub oracle_contract: Option<AccountId>,
    pub max_tokens: u32,
    pub min_portfolio_value: u128,
    pub last_rebalance: u64,
    pub rebalance_threshold_bp: u32,
    pub emergency_paused: bool,
    pub min_liquidity_buffer: u128,
    pub usdc_balance: u128,
    pub max_single_position_bp: u32,
    pub max_slippage_bp: u32,
}

impl View for PortfolioSnapshot {
    type V = PortfolioView;

    /// The portfolio that the snapshot stands for.
    open spec fn view(&self) -> PortfolioView {
        PortfolioView {
            owner: self.owner,
            state: self.state,
            deployment_timestamp: self.deployment_timestamp,
            holdings: self.holdings@,
            index_base_value: self.index_base_value,
            base_portfolio_value: self.base_portfolio_value,
            current_index_value: self.current_index_value,
            last_index_update: self.last_index_update,
            index_tracking_enabled: self.index_tracking_enabled,
            fee_config: self.fee_config,
            total_fees_collected: self.total_fees_collected,
            registry_contract: self.registry_contract,
            token_contract: self.token_contract,
            dex_contract: self.dex_contract,
            oracle_contract: self.oracle_contract,
            max_tokens: self.max_tokens,
            min_portfolio_value: self.min_portfolio_value,
            last_rebalance: self.last_rebalance,
            rebalance_threshold_bp: self.rebalance_threshold_bp,
            emergency_paused: self.emergency_paused,
            min_liquidity_buffer: self.min_liquidity_buffer,
            usdc_balance: self.usdc_balance,
            max_single_position_bp: self.max_single_position_bp,
            max_slippage_bp: self.max_slippage_bp,
            events: Seq::empty(),
        }
    }
}

impl PortfolioSnapshot {
    /// The snapshot stands for a portfolio: the portfolio it stands for is
    /// valid.
    pub open spec fn restorable(&self) -> bool {
        self@.valid()
    }
}

/// Whether no token is held twice.
fn holdings_are_distinct(holdings: &Vec<HoldingRecord>) -> (r: bool)
    ensures
        r == ids_distinct(holdings@),
{
    let n = holdings.len();
    let mut i: usize = 0;
    while i < n
        invariant
            n == holdings@.len(),
            i <= n,
            forall|a: int, b: int|
                0 <= a < b < i ==> holdings@[a].token_id != holdings@[b].token_id,
        decreases n - i,
    {
        let token_id = holdings[i].token_id;
        let mut j: usize = 0;
        while j < i
            invariant
                n == holdings@.len(),
                i < n,
                j <= i,
                token_id == holdings@[i as int].token_id,
                forall|a: int| 0 <= a < j ==> holdings@[a].token_id != token_id,
            decreases i - j,
        {
            if holdings[j].token_id == token_id {
                return false;
            }
            j = j + 1;
        }
        i = i + 1;
    }
    true
}

/// Whether the target weights add up to at most the whole.
fn weights_fit(holdings: &Vec<HoldingRecord>) -> (r: bool)
    ensures
        r == (total_weight(holdings@) <= FULL_WEIGHT_BP),
{
    let n = holdings.len();
    let mut total: u32 = 0;
    let mut i: usize = 0;
    while i < n
        invariant
            n == holdings@.len(),
            i <= n,
            total == total_weight(holdings@.take(i as int)),
            total <= FULL_WEIGHT_BP,
        decreases n - i,
    {
        proof {
            assert(holdings@.take(i + 1).drop_last() =~= holdings@.take(i as int));
            lemma_weight_prefix(holdings@, i + 1);
        }
        let weight = holdings[i].holding.target_weight_bp;
        if weight > FULL_WEIGHT_BP - total {
            return false;
        }
        total = total + weight;
        i = i + 1;
    }
    assert(holdings@.take(n as int) =~= holdings@);
    true
}

impl Portfolio {
    /// The portfolio as a host stores it. The events recorded are dropped;
    /// the host takes them first.
    pub fn snapshot(self) -> (snapshot: PortfolioSnapshot)
        requires
            self.wf(),
        ensures
            snapshot.restorable(),
            snapshot@ == (PortfolioView { events: Seq::empty(), ..self@ }),
    {
        PortfolioSnapshot {
            owner: self.owner,
            state: self.state,
            deployment_timestamp: self.deployment_timestamp,
            holdings: self.holdings,
            index_base_value: self.index_base_value,
            base_portfolio_value: self.base_portfolio_value,
            current_index_value: self.current_index_value,
            last_index_update: self.last_index_update,
            index_tracking_enabled: self.index_tracking_enabled,
            fee_config: self.fee_config,
            total_fees_collected: self.total_fees_collected,
            registry_contract: self.registry_contract,
            token_contract: self.token_contract,
            dex_contract: self.dex_contract,
            oracle_contract: self.oracle_contract,
            max_tokens: self.max_tokens,
            min_portfolio_value: self.min_portfolio_value,
            last_rebalance: self.last_rebalance,
            rebalance_threshold_bp: self.rebalance_threshold_bp,
            emergency_paused: self.emergency_paused,
            min_liquidity_buffer: self.min_liquidity_buffer,
            usdc_balance: self.usdc_balance,
            max_single_position_bp: self.max_single_position_bp,
            max_slippage_bp: self.max_slippage_bp,
        }
    }

    /// The portfolio that a snapshot stands for, if it stands for one.
    pub fn restore(snapshot: PortfolioSnapshot) -> (r: Option<Portfolio>)
        ensures
            match r {
                Some(portfolio) => snapshot.restorable() && portfolio.wf() && portfolio@
                    == snapshot@,
                None => !snapshot.restorable(),
            },
    {
        if snapshot.max_tokens == 0 || snapshot.holdings.len() > snapshot.max_tokens as usize {
            return None;
        }
        if snapshot.fee_config.buy_fee_bp > 10000 || snapshot.fee_config.sell_fee_bp > 10000
            || snapshot.fee_config.streaming_fee_bp > 10000 {
            return None;
        }
        if !holdings_are_distinct(&snapshot.holdings) {
            return None;
        }
        if !weights_fit(&snapshot.holdings) {
            return None;
        }
        Some(
            Portfolio {
                owner: snapshot.owner,
                state: snapshot.state,
                deployment_timestamp: snapshot.deployment_timestamp,
                holdings: snapshot.holdings,
                index_base_value: snapshot.index_base_value,
                base_portfolio_value: snapshot.base_portfolio_value,
                current_index_value: snapshot.current_index_value,
                last_index_update: snapshot.last_index_update,
                index_tracking_enabled: snapshot.index_tracking_enabled,
                fee_config: snapshot.fee_config,
                total_fees_collected: snapshot.total_fees_collected,
                registry_contract: snapshot.registry_contract,
                token_contract: snapshot.token_contract,
                dex_contract: snapshot.dex_contract,
                oracle_contract: snapshot.oracle_contract,
                max_tokens: snapshot.max_tokens,
                min_portfolio_value: snapshot.min_portfolio_value,
                last_rebalance: snapshot.last_rebalance,
                rebalance_threshold_bp: snapshot.rebalance_threshold_bp,
                emergency_paused: snapshot.emergency_paused,
                min_liquidity_buffer: snapshot.min_liquidity_buffer,
                usdc_balance: snapshot.usdc_balance,
                max_single_position_bp: snapshot.max_single_position_bp,
                max_slippage_bp: snapshot.max_slippage_bp,
                events: Vec::new(),
            },
        )
    }
}

} // verus!
