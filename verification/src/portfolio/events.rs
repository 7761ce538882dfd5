//! The events that the portfolio raises.

use crate::portfolio::{FeeConfiguration, PortfolioState};
use crate::shared::AccountId;
use vstd::prelude::*;

verus! {

#[derive(Clone, Debug, PartialEq, Eq)]
pub struct PortfolioStateChanged {
    pub old_state: PortfolioState,
    pub new_state: PortfolioState,
    pub changed_by: AccountId,
    pub timestamp: u64,
    pub reason: String,
}

#[derive(Clone, Copy, Debug, PartialEq, Eq)]
pub struct PortfolioInitialized {
    pub owner: AccountId,
    pub deployment_timestamp: u64,
    pub index_base_value: u128,
    pub initial_state: PortfolioState,
}

#[derive(Clone, Copy, Debug, PartialEq, Eq)]
pub struct TokenHoldingAdded {
    pub token_id: u32,
    pub amount: u128,
    pub target_weight_bp: u32,
    pub added_by: AccountId,
    pub timestamp: u64,
}

#[derive(Clone, Copy, Debug, PartialEq, Eq)]
pub struct TokenHoldingUpdated {
    pub token_id: u32,
    pub old_amount: u128,
    pub new_amount: u128,
    pub old_weight: u32,
    pub new_weight: u32,
    pub updated_by: AccountId,
    pub timestamp: u64,
}

#[derive(Clone, Copy, Debug, PartialEq, Eq)]
pub struct TokenHoldingRemoved {
    pub token_id: u32,
    pub final_amount: u128,
    pub removed_by: AccountId,
    pub timestamp: u64,
}

#[derive(Clone, Copy, Debug, PartialEq, Eq)]
pub struct IndexValueUpdated {
    pub old_value: u128,
    pub new_value: u128,
    /// Deviation of the new value from the base index value, in basis points.
    pub performance_bp: i32,
    pub total_portfolio_value: u128,
    pub timestamp: u64,
}

#[derive(Clone, Copy, Debug, PartialEq, Eq)]
pub struct BasePortfolioValueSet {
    pub base_value: u128,
    pub base_portfolio_value: u128,
    pub deployment_timestamp: u64,
    pub set_by: AccountId,
}

#[derive(Clone, Copy, Debug, PartialEq, Eq)]
pub struct FeeConfigurationUpdated {
    pub old_config: FeeConfiguration,
    pub new_config: FeeConfiguration,
    pub updated_by: AccountId,
    pub timestamp: u64,
}

#[derive(Clone, Copy, Debug, PartialEq, Eq)]
pub struct ContractReferenceUpdated {
    /// One of `registry`, `token`, `dex` and `oracle`.
    pub contract_type: &'static str,
    pub old_address: Option<AccountId>,
    pub new_address: AccountId,
    pub updated_by: AccountId,
    pub timestamp: u64,
}

#[derive(Clone, Debug, PartialEq, Eq)]
pub struct EmergencyPause {
    pub paused: bool,
    pub paused_by: AccountId,
    pub timestamp: u64,
    pub reason: String,
}

/// A note for those who watch the portfolio.
#[derive(Clone, Debug, PartialEq, Eq)]
pub struct OperationFailed {
    pub operation: &'static str,
    pub error: String,
    pub caller: AccountId,
    pub timestamp: u64,
}

/// Any event of the portfolio.
#[derive(Clone, Debug, PartialEq, Eq)]
pub enum PortfolioEvent {
    PortfolioStateChanged(PortfolioStateChanged),
    PortfolioInitialized(PortfolioInitialized),
    TokenHoldingAdded(TokenHoldingAdded),
    TokenHoldingUpdated(TokenHoldingUpdated),
    TokenHoldingRemoved(TokenHoldingRemoved),
    IndexValueUpdated(IndexValueUpdated),
    BasePortfolioValueSet(BasePortfolioValueSet),
    FeeConfigurationUpdated(FeeConfigurationUpdated),
    ContractReferenceUpdated(ContractReferenceUpdated),
    EmergencyPause(EmergencyPause),
    OperationFailed(OperationFailed),
}

} // verus!
