//! Tiers, the thresholds that separate them, and the rule that classifies a
//! token by market capitalisation and volume.

use crate::math::{saturating_mul, saturating_mul_spec};
use vstd::prelude::*;

verus! {

/// Conversion rate used when no DOT/USD price can be had: plancks per USD at
/// a conservative 5 USD per DOT.
pub const FALLBACK_USD_RATE: u128 = 2_000_000_000;

/// Plancks in one DOT.
pub const PLANCKS_PER_DOT: u128 = 10_000_000_000;

/// The class of a token, ordered from `Unranked` (below every threshold) to
/// `Tier4` (the largest and most traded).
#[derive(Clone, Copy, Debug, PartialEq, Eq, Structural)]
pub enum Tier {
    /// Below the thresholds of tier 1.
    Unranked,
    Tier1,
    Tier2,
    Tier3,
    Tier4,
}

impl Default for Tier {
    fn default() -> (r: Self)
        ensures
            r == Tier::Unranked,
    {
        Tier::Unranked
    }
}

impl Tier {
    /// The position of the tier in the order, 0 for `Unranked` up to 4.
    pub open spec fn rank(self) -> nat {
        match self {
            Tier::Unranked => 0,
            Tier::Tier1 => 1,
            Tier::Tier2 => 2,
            Tier::Tier3 => 3,
            Tier::Tier4 => 4,
        }
    }

    /// The tier as a number, 0 for `Unranked` up to 4.
    pub fn number(self) -> (r: u32)
        ensures
            r == self.rank(),
    {
        match self {
            Tier::Unranked => 0,
            Tier::Tier1 => 1,
            Tier::Tier2 => 2,
            Tier::Tier3 => 3,
            Tier::Tier4 => 4,
        }
    }
}

/// The USD amounts a token must reach, in market capitalisation and in daily
/// volume, to enter each tier.
#[derive(Clone, Copy, Debug, PartialEq, Eq, Structural)]
pub struct TierThresholds {
    pub tier1_market_cap_usd: u128,
    pub tier1_volume_usd: u128,
    pub tier2_market_cap_usd: u128,
    pub tier2_volume_usd: u128,
    pub tier3_market_cap_usd: u128,
    pub tier3_volume_usd: u128,
    pub tier4_market_cap_usd: u128,
    pub tier4_volume_usd: u128,
}

impl TierThresholds {
    /// 50M/5M, 250M/25M, 500M/50M and 2B/200M USD.
    pub open spec fn spec_default() -> TierThresholds {
        TierThresholds {
            tier1_market_cap_usd: 50_000_000,
            tier1_volume_usd: 5_000_000,
            tier2_market_cap_usd: 250_000_000,
            tier2_volume_usd: 25_000_000,
            tier3_market_cap_usd: 500_000_000,
            tier3_volume_usd: 50_000_000,
            tier4_market_cap_usd: 2_000_000_000,
            tier4_volume_usd: 200_000_000,
        }
    }

    /// Both columns rise strictly from tier 1 to tier 4.
    pub open spec fn ascending(self) -> bool {
        &&& self.tier1_market_cap_usd < self.tier2_market_cap_usd
        &&& self.tier2_market_cap_usd < self.tier3_market_cap_usd
        &&& self.tier3_market_cap_usd < self.tier4_market_cap_usd
        &&& self.tier1_volume_usd < self.tier2_volume_usd
        &&& self.tier2_volume_usd < self.tier3_volume_usd
        &&& self.tier3_volume_usd < self.tier4_volume_usd
    }

    /// The market capitalisation in USD that `tier` asks for; nothing for `Unranked`.
    pub open spec fn market_cap_usd(self, tier: Tier) -> u128 {
        match tier {
            Tier::Unranked => 0,
            Tier::Tier1 => self.tier1_market_cap_usd,
            Tier::Tier2 => self.tier2_market_cap_usd,
            Tier::Tier3 => self.tier3_market_cap_usd,
            Tier::Tier4 => self.tier4_market_cap_usd,
        }
    }

    /// The volume in USD that `tier` asks for; nothing for `Unranked`.
    pub open spec fn volume_usd(self, tier: Tier) -> u128 {
        match tier {
            Tier::Unranked => 0,
            Tier::Tier1 => self.tier1_volume_usd,
            Tier::Tier2 => self.tier2_volume_usd,
            Tier::Tier3 => self.tier3_volume_usd,
            Tier::Tier4 => self.tier4_volume_usd,
        }
    }

    /// Whether the thresholds rise strictly in both columns.
    pub fn is_ascending(&self) -> (r: bool)
        ensures
            r == self.ascending(),
    {
        self.tier1_market_cap_usd < self.tier2_market_cap_usd && self.tier2_market_cap_usd
            < self.tier3_market_cap_usd && self.tier3_market_cap_usd < self.tier4_market_cap_usd
            && self.tier1_volume_usd < self.tier2_volume_usd && self.tier2_volume_usd
            < self.tier3_volume_usd && self.tier3_volume_usd < self.tier4_volume_usd
    }
}

impl Default for TierThresholds {
    fn default() -> (r: Self)
        ensures
            r == TierThresholds::spec_default(),
            r.ascending(),
    {
        TierThresholds {
            tier1_market_cap_usd: 50_000_000,
            tier1_volume_usd: 5_000_000,
            tier2_market_cap_usd: 250_000_000,
            tier2_volume_usd: 25_000_000,
            tier3_market_cap_usd: 500_000_000,
            tier3_volume_usd: 50_000_000,
            tier4_market_cap_usd: 2_000_000_000,
            tier4_volume_usd: 200_000_000,
        }
    }
}

/// A token with this market capitalisation and volume, in plancks, reaches
/// the thresholds of `tier` once they are converted at `usd_rate` plancks per
/// USD. The conversion saturates.
pub open spec fn meets_tier(
    market_cap: u128,
    volume: u128,
    thresholds: TierThresholds,
    usd_rate: u128,
    tier: Tier,
) -> bool {
    &&& market_cap >= saturating_mul_spec(thresholds.market_cap_usd(tier), usd_rate)
    &&& volume >= saturating_mul_spec(thresholds.volume_usd(tier), usd_rate)
}

/// The tier of a token: the highest tier whose thresholds it reaches, `Unranked`
/// below tier 1.
pub open spec fn tier_of(
    market_cap: u128,
    volume: u128,
    thresholds: TierThresholds,
    usd_rate: u128,
) -> Tier {
    if meets_tier(market_cap, volume, thresholds, usd_rate, Tier::Tier4) {
        Tier::Tier4
    } else if meets_tier(market_cap, volume, thresholds, usd_rate, Tier::Tier3) {
        Tier::Tier3
    } else if meets_tier(market_cap, volume, thresholds, usd_rate, Tier::Tier2) {
        Tier::Tier2
    } else if meets_tier(market_cap, volume, thresholds, usd_rate, Tier::Tier1) {
        Tier::Tier1
    } else {
        Tier::Unranked
    }
}

/// Classifies a token. Meeting a threshold exactly counts as reaching it, and
/// of all tiers reached the highest wins.
pub fn calculate_tier(
    market_cap: u128,
    volume: u128,
    thresholds: &TierThresholds,
    usd_rate: u128,
) -> (tier: Tier)
    ensures
        tier == tier_of(market_cap, volume, *thresholds, usd_rate),
        meets_tier(market_cap, volume, *thresholds, usd_rate, tier),
        forall|other: Tier|
            other != Tier::Unranked && #[trigger] meets_tier(
                market_cap,
                volume,
                *thresholds,
                usd_rate,
                other,
            ) ==> other.rank() <= tier.rank(),
{
    let tier4_market_cap = saturating_mul(thresholds.tier4_market_cap_usd, usd_rate);
    let tier4_volume = saturating_mul(thresholds.tier4_volume_usd, usd_rate);
    let tier3_market_cap = saturating_mul(thresholds.tier3_market_cap_usd, usd_rate);
    let tier3_volume = saturating_mul(thresholds.tier3_volume_usd, usd_rate);
    let tier2_market_cap = saturating_mul(thresholds.tier2_market_cap_usd, usd_rate);
    let tier2_volume = saturating_mul(thresholds.tier2_volume_usd, usd_rate);
    let tier1_market_cap = saturating_mul(thresholds.tier1_market_cap_usd, usd_rate);
    let tier1_volume = saturating_mul(thresholds.tier1_volume_usd, usd_rate);
    if market_cap >= tier4_market_cap && volume >= tier4_volume {
        Tier::Tier4
    } else if market_cap >= tier3_market_cap && volume >= tier3_volume {
        Tier::Tier3
    } else if market_cap >= tier2_market_cap && volume >= tier2_volume {
        Tier::Tier2
    } else if market_cap >= tier1_market_cap && volume >= tier1_volume {
        Tier::Tier1
    } else {
        Tier::Unranked
    }
}

/// How many tokens stand in each tier.
#[derive(Clone, Copy, Debug, PartialEq, Eq, Structural)]
pub struct TierDistribution {
    pub none: u32,
    pub tier1: u32,
    pub tier2: u32,
    pub tier3: u32,
    pub tier4: u32,
}

impl TierDistribution {
    /// The number of tokens in `tier`.
    pub open spec fn count(self, tier: Tier) -> u32 {
        match tier {
            Tier::Unranked => self.none,
            Tier::Tier1 => self.tier1,
            Tier::Tier2 => self.tier2,
            Tier::Tier3 => self.tier3,
            Tier::Tier4 => self.tier4,
        }
    }

    /// The number of tokens in all tiers together.
    pub open spec fn total(self) -> nat {
        (self.none + self.tier1 + self.tier2 + self.tier3 + self.tier4) as nat
    }

    /// The distribution with the count of `tier` replaced.
    pub open spec fn with_count(self, tier: Tier, count: u32) -> TierDistribution {
        match tier {
            Tier::Unranked => TierDistribution { none: count, ..self },
            Tier::Tier1 => TierDistribution { tier1: count, ..self },
            Tier::Tier2 => TierDistribution { tier2: count, ..self },
            Tier::Tier3 => TierDistribution { tier3: count, ..self },
            Tier::Tier4 => TierDistribution { tier4: count, ..self },
        }
    }

    /// The distribution of no tokens.
    pub fn new() -> (r: Self)
        ensures
            forall|tier: Tier| #[trigger] r.count(tier) == 0,
    {
        TierDistribution { none: 0, tier1: 0, tier2: 0, tier3: 0, tier4: 0 }
    }

    pub fn get(&self, tier: Tier) -> (r: u32)
        ensures
            r == self.count(tier),
    {
        match tier {
            Tier::Unranked => self.none,
            Tier::Tier1 => self.tier1,
            Tier::Tier2 => self.tier2,
            Tier::Tier3 => self.tier3,
            Tier::Tier4 => self.tier4,
        }
    }

    fn set(&mut self, tier: Tier, count: u32)
        ensures
            *final(self) == old(self).with_count(tier, count),
    {
        match tier {
            Tier::Unranked => {
                self.none = count;
            },
            Tier::Tier1 => {
                self.tier1 = count;
            },
            Tier::Tier2 => {
                self.tier2 = count;
            },
            Tier::Tier3 => {
                self.tier3 = count;
            },
            Tier::Tier4 => {
                self.tier4 = count;
            },
        }
    }

    /// Counts one more token in `tier`; the count stays at its bound.
    pub fn increment(&mut self, tier: Tier)
        ensures
            *final(self) == old(self).with_count(tier, old(self).count(tier).saturating_add(1)),
    {
        let current = self.get(tier);
        self.set(tier, current.saturating_add(1));
    }

    /// Counts one token less in `tier`; an empty tier stays empty.
    pub fn decrement(&mut self, tier: Tier)
        ensures
            *final(self) == old(self).with_count(tier, old(self).count(tier).saturating_sub(1)),
    {
        let current = self.get(tier);
        if current > 0 {
            self.set(tier, current.saturating_sub(1));
        }
    }
}

/// A tier holding `count` of `total` tokens holds at least 80% of them. A
/// count too large to be scaled by 100 never qualifies.
pub open spec fn holds_supermajority(count: u32, total: u32) -> bool {
    &&& total > 0
    &&& count * 100 <= u32::MAX
    &&& (count * 100) / (total as int) >= TIER_SHIFT_THRESHOLD_PERCENT
}

/// Fewest tokens for which the 80% rule is applied.
pub const MIN_TOKENS_FOR_TIER_SHIFT: u32 = 5;

/// Share of all tokens, in percent, that a tier must hold to become active.
pub const TIER_SHIFT_THRESHOLD_PERCENT: u32 = 80;

/// The tier that the 80% rule makes active: with at least five tokens, the
/// lowest tier above `active` that holds a supermajority of them.
pub open spec fn shift_target(
    distribution: TierDistribution,
    total: u32,
    active: Tier,
) -> Option<Tier> {
    if total < MIN_TOKENS_FOR_TIER_SHIFT {
        None
    } else if active.rank() < 1 && holds_supermajority(distribution.tier1, total) {
        Some(Tier::Tier1)
    } else if active.rank() < 2 && holds_supermajority(distribution.tier2, total) {
        Some(Tier::Tier2)
    } else if active.rank() < 3 && holds_supermajority(distribution.tier3, total) {
        Some(Tier::Tier3)
    } else if active.rank() < 4 && holds_supermajority(distribution.tier4, total) {
        Some(Tier::Tier4)
    } else {
        None
    }
}

/// The tiers above `active`, lowest first.
pub open spec fn higher_tiers(active: Tier) -> Seq<Tier> {
    match active {
        Tier::Unranked => seq![Tier::Tier1, Tier::Tier2, Tier::Tier3, Tier::Tier4],
        Tier::Tier1 => seq![Tier::Tier2, Tier::Tier3, Tier::Tier4],
        Tier::Tier2 => seq![Tier::Tier3, Tier::Tier4],
        Tier::Tier3 => seq![Tier::Tier4],
        Tier::Tier4 => seq![],
    }
}

} // verus!
