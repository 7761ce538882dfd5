//! The events that the registry raises.

use crate::registry::tier::Tier;
use crate::shared::{AccountId, Role};
use vstd::prelude::*;

verus! {

/// Why a tier change was asked for.
#[derive(Clone, Copy, Debug, PartialEq, Eq, Structural)]
pub enum TierChangeReason {
    /// A manager asked for a recalculation.
    Manual,
    /// A batch refresh recalculated the tier.
    Scheduled,
    /// An update of the token recalculated the tier.
    Automatic,
    /// A manual override, applied at once.
    ManualOverride,
    /// An emergency, applied at once.
    Emergency,
    /// A pending change whose grace period has passed.
    GracePeriodEnded,
    /// The owner overrode the tier.
    EmergencyOverride,
}

impl TierChangeReason {
    /// Changes for this reason skip the grace period.
    pub open spec fn is_immediate(self) -> bool {
        self == TierChangeReason::ManualOverride || self == TierChangeReason::Emergency
    }

    #[verifier::when_used_as_spec(is_immediate)]
    pub fn immediate(self) -> (r: bool)
        ensures
            r == self.is_immediate(),
    {
        match self {
            TierChangeReason::ManualOverride => true,
            TierChangeReason::Emergency => true,
            _ => false,
        }
    }

    /// The reason as a word.
    pub fn as_str(self) -> (r: &'static str)
        ensures
            r == match self {
                TierChangeReason::Manual => "manual",
                TierChangeReason::Scheduled => "scheduled",
                TierChangeReason::Automatic => "automatic",
                TierChangeReason::ManualOverride => "manual_override",
                TierChangeReason::Emergency => "emergency",
                TierChangeReason::GracePeriodEnded => "grace_period_ended",
                TierChangeReason::EmergencyOverride => "emergency_override",
            },
    {
        match self {
            TierChangeReason::Manual => "manual",
            TierChangeReason::Scheduled => "scheduled",
            TierChangeReason::Automatic => "automatic",
            TierChangeReason::ManualOverride => "manual_override",
            TierChangeReason::Emergency => "emergency",
            TierChangeReason::GracePeriodEnded => "grace_period_ended",
            TierChangeReason::EmergencyOverride => "emergency_override",
        }
    }
}

/// What made the active tier move.
#[derive(Clone, Debug, PartialEq, Eq)]
pub enum ShiftTrigger {
    /// The 80% rule.
    EightyPercentRule,
    /// The owner, for the reason given.
    Manual(String),
}

#[derive(Clone, Copy, Debug, PartialEq, Eq)]
pub struct TokenAdded {
    pub token_id: u32,
    pub token_contract: AccountId,
    pub oracle_contract: AccountId,
    pub initial_tier: Tier,
    pub added_by: AccountId,
}

#[derive(Clone, Copy, Debug, PartialEq, Eq)]
pub struct TokenUpdated {
    pub token_id: u32,
    pub balance: u128,
    pub weight_investment: u32,
    pub old_tier: Tier,
    pub new_tier: Tier,
    pub updated_by: AccountId,
}

#[derive(Clone, Copy, Debug, PartialEq, Eq)]
pub struct TokenRemoved {
    pub token_id: u32,
    pub token_contract: AccountId,
    pub tier: Tier,
    pub removed_by: AccountId,
}

#[derive(Clone, Copy, Debug, PartialEq, Eq)]
pub struct TokenTierChanged {
    pub token_id: u32,
    pub token_contract: AccountId,
    pub old_tier: Tier,
    pub new_tier: Tier,
    pub market_cap: u128,
    pub volume: u128,
    pub reason: TierChangeReason,
}

#[derive(Clone, Debug, PartialEq, Eq)]
pub struct ActiveTierShifted {
    pub old_tier: Tier,
    pub new_tier: Tier,
    pub trigger_reason: ShiftTrigger,
    pub timestamp: u64,
    /// Tokens that stood in the new tier when it became active.
    pub tokens_qualifying: u32,
    pub total_tokens: u32,
}

#[derive(Clone, Copy, Debug, PartialEq, Eq)]
pub struct TierThresholdsUpdated {
    pub updated_by: AccountId,
    pub timestamp: u64,
    /// Plancks per USD when the thresholds were set, 0 if unknown.
    pub new_usd_rate: u128,
}

#[derive(Clone, Copy, Debug, PartialEq, Eq)]
pub struct GracePeriodStarted {
    pub token_id: u32,
    pub current_tier: Tier,
    pub pending_tier: Tier,
    pub grace_end_time: u64,
}

#[derive(Clone, Copy, Debug, PartialEq, Eq)]
pub struct GracePeriodUpdated {
    pub old_period_ms: u64,
    pub new_period_ms: u64,
    pub updated_by: AccountId,
    pub timestamp: u64,
}

#[derive(Clone, Debug, PartialEq, Eq)]
pub struct EmergencyTierOverride {
    pub token_id: u32,
    pub token_contract: AccountId,
    pub old_tier: Tier,
    pub new_tier: Tier,
    pub overridden_by: AccountId,
    pub timestamp: u64,
    pub reason: String,
}

#[derive(Clone, Copy, Debug, PartialEq, Eq)]
pub struct RoleGranted {
    pub role: Role,
    pub account: AccountId,
    pub granted_by: AccountId,
}

#[derive(Clone, Copy, Debug, PartialEq, Eq)]
pub struct RoleRevoked {
    pub role: Role,
    pub account: AccountId,
    pub revoked_by: AccountId,
}

/// Any event of the registry.
#[derive(Clone, Debug, PartialEq, Eq)]
pub enum RegistryEvent {
    TokenAdded(TokenAdded),
    TokenUpdated(TokenUpdated),
    TokenRemoved(TokenRemoved),
    TokenTierChanged(TokenTierChanged),
    ActiveTierShifted(ActiveTierShifted),
    TierThresholdsUpdated(TierThresholdsUpdated),
    GracePeriodStarted(GracePeriodStarted),
    GracePeriodUpdated(GracePeriodUpdated),
    EmergencyTierOverride(EmergencyTierOverride),
    RoleGranted(RoleGranted),
    RoleRevoked(RoleRevoked),
}

} // verus!
