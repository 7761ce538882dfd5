//! The events that the oracle raises.

use crate::shared::AccountId;
use vstd::prelude::*;

verus! {

#[derive(Clone, Copy, Debug, PartialEq, Eq)]
pub struct PriceUpdated {
    pub token: AccountId,
    pub price: u128,
    pub market_cap: u128,
    pub volume: u128,
    pub timestamp: u64,
}

#[derive(Clone, Copy, Debug, PartialEq, Eq)]
pub struct MarketDataUpdated {
    pub token: AccountId,
    pub market_cap: u128,
    pub volume: u128,
}

#[derive(Clone, Copy, Debug, PartialEq, Eq)]
pub struct UpdaterAdded {
    pub updater: AccountId,
}

#[derive(Clone, Copy, Debug, PartialEq, Eq)]
pub struct UpdaterRemoved {
    pub updater: AccountId,
}

#[derive(Clone, Copy, Debug, PartialEq, Eq, Structural)]
pub struct EmergencyPause {
    pub paused: bool,
    pub timestamp: u64,
}

#[derive(Clone, Copy, Debug, PartialEq, Eq, Structural)]
pub struct ConfigUpdated {
    pub max_deviation_bp: u32,
    pub staleness_threshold: u64,
    pub min_update_interval: u64,
}

#[derive(Clone, Copy, Debug, PartialEq, Eq)]
pub struct DotUsdPriceUpdated {
    /// The price of one DOT in USD, scaled by 10^9.
    pub usd_price: u128,
    pub timestamp: u64,
    pub updated_by: AccountId,
}

/// Any event of the oracle.
#[derive(Clone, Copy, Debug, PartialEq, Eq)]
pub enum OracleEvent {
    PriceUpdated(PriceUpdated),
    MarketDataUpdated(MarketDataUpdated),
    UpdaterAdded(UpdaterAdded),
    UpdaterRemoved(UpdaterRemoved),
    EmergencyPause(EmergencyPause),
    ConfigUpdated(ConfigUpdated),
    DotUsdPriceUpdated(DotUsdPriceUpdated),
}

} // verus!
