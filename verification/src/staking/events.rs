//! The events that the staking component raises.

use crate::shared::AccountId;
use vstd::prelude::*;

verus! {

#[derive(Clone, Copy, Debug, PartialEq, Eq)]
pub struct Staked {
    pub account: AccountId,
    pub amount: u128,
    pub unstaking_period: u64,
}

#[derive(Clone, Copy, Debug, PartialEq, Eq)]
pub struct UnstakeRequested {
    pub account: AccountId,
    pub amount: u128,
    pub available_at: u64,
}

#[derive(Clone, Copy, Debug, PartialEq, Eq)]
pub struct UnstakedClaimed {
    pub account: AccountId,
    pub amount: u128,
}

#[derive(Clone, Copy, Debug, PartialEq, Eq)]
pub struct RewardsClaimed {
    pub account: AccountId,
    pub amount: u128,
}

#[derive(Clone, Copy, Debug, PartialEq, Eq)]
pub struct ContractPaused {
    pub by: AccountId,
}

#[derive(Clone, Copy, Debug, PartialEq, Eq)]
pub struct ContractUnpaused {
    pub by: AccountId,
}

#[derive(Clone, Copy, Debug, PartialEq, Eq)]
pub struct PerformanceFeeClaimed {
    pub account: AccountId,
    pub fee_amount: u128,
}

/// Any event of the staking component.
#[derive(Clone, Copy, Debug, PartialEq, Eq)]
pub enum StakingEvent {
    Staked(Staked),
    UnstakeRequested(UnstakeRequested),
    UnstakedClaimed(UnstakedClaimed),
    RewardsClaimed(RewardsClaimed),
    ContractPaused(ContractPaused),
    ContractUnpaused(ContractUnpaused),
    PerformanceFeeClaimed(PerformanceFeeClaimed),
}

} // verus!
