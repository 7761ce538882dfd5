//! The records that the registry keeps, one for each token, and what holds of
//! a well-formed list of them.

use crate::registry::tier::{Tier, TierDistribution};
use crate::shared::{AccountId, TokenData};
use vstd::prelude::*;
use vstd::std_specs::convert::FromSpecImpl;

verus! {

/// What the registry knows of one token.
#[derive(Clone, Copy, Debug, PartialEq, Eq)]
pub struct EnhancedTokenData {
    pub token_contract: AccountId,
    pub oracle_contract: AccountId,
    pub balance: u128,
    /// Investment weight in basis points, 0..=10000.
    pub weight_investment: u32,
    /// The tier in force. It may lag behind the tier last computed while a
    /// grace period runs.
    pub tier: Tier,
    /// When the tier was last applied, or when the pending change was parked.
    pub tier_change_timestamp: Option<u64>,
    /// A tier that was computed and waits for the grace period to pass.
    pub pending_tier_change: Option<Tier>,
}

impl From<TokenData> for EnhancedTokenData {
    fn from(token_data: TokenData) -> (r: Self) {
        EnhancedTokenData {
            token_contract: token_data.token_contract,
            oracle_contract: token_data.oracle_contract,
            balance: token_data.balance,
            weight_investment: token_data.weight_investment,
            tier: Tier::Unranked,
            tier_change_timestamp: None,
            pending_tier_change: None,
        }
    }
}

impl FromSpecImpl<TokenData> for EnhancedTokenData {
    open spec fn obeys_from_spec() -> bool {
        true
    }

    open spec fn from_spec(token_data: TokenData) -> Self {
        EnhancedTokenData {
            token_contract: token_data.token_contract,
            oracle_contract: token_data.oracle_contract,
            balance: token_data.balance,
            weight_investment: token_data.weight_investment,
            tier: Tier::Unranked,
            tier_change_timestamp: None,
            pending_tier_change: None,
        }
    }
}

impl EnhancedTokenData {
    /// The token with `new_tier` parked until the grace period has passed.
    pub open spec fn with_pending(self, new_tier: Tier, now: u64) -> Self {
        EnhancedTokenData {
            pending_tier_change: Some(new_tier),
            tier_change_timestamp: Some(now),
            ..self
        }
    }

    /// The token with `new_tier` in force from `now` on and nothing pending.
    pub open spec fn with_tier(self, new_tier: Tier, now: u64) -> Self {
        EnhancedTokenData {
            tier: new_tier,
            tier_change_timestamp: Some(now),
            pending_tier_change: None,
            ..self
        }
    }

    /// A change is pending and the grace period has passed since it was parked.
    pub open spec fn grace_expired(self, now: u64, grace_period_ms: u64) -> bool {
        &&& self.pending_tier_change.is_some()
        &&& self.tier_change_timestamp.is_some()
        &&& now.saturating_sub(self.tier_change_timestamp.unwrap()) >= grace_period_ms
    }

    /// The token once an expired pending change has been applied.
    pub open spec fn after_grace(self, now: u64, grace_period_ms: u64) -> Self {
        if self.grace_expired(now, grace_period_ms) {
            self.with_tier(self.pending_tier_change.unwrap(), now)
        } else {
            self
        }
    }

    /// The token as other components see it, without grace-period details.
    pub open spec fn basic(self) -> TokenData {
        TokenData {
            token_contract: self.token_contract,
            oracle_contract: self.oracle_contract,
            balance: self.balance,
            weight_investment: self.weight_investment,
            tier: self.tier.rank() as u32,
        }
    }
}

/// A registered token under its id.
#[derive(Clone, Copy, Debug, PartialEq, Eq)]
pub struct TokenRecord {
    pub id: u32,
    pub data: EnhancedTokenData,
}

/// The ids rise strictly along the list.
pub open spec fn ids_ascending(tokens: Seq<TokenRecord>) -> bool {
    forall|i: int, j: int| 0 <= i < j < tokens.len() ==> tokens[i].id < tokens[j].id
}

/// No token contract is registered under two ids.
pub open spec fn contracts_distinct(tokens: Seq<TokenRecord>) -> bool {
    forall|i: int, j: int|
        0 <= i < j < tokens.len() ==> tokens[i].data.token_contract
            != tokens[j].data.token_contract
}

/// Every id is at least 1 and below `next_token_id`.
pub open spec fn ids_issued(tokens: Seq<TokenRecord>, next_token_id: u32) -> bool {
    forall|i: int| 0 <= i < tokens.len() ==> 1 <= #[trigger] tokens[i].id < next_token_id
}

/// A token is registered under `id`.
pub open spec fn has_id(tokens: Seq<TokenRecord>, id: u32) -> bool {
    exists|i: int| 0 <= i < tokens.len() && #[trigger] tokens[i].id == id
}

/// The position of the token registered under `id`.
pub open spec fn position_of_id(tokens: Seq<TokenRecord>, id: u32) -> int {
    choose|i: int| 0 <= i < tokens.len() && #[trigger] tokens[i].id == id
}

/// The token registered under `id`, if there is one.
pub open spec fn token_with_id(tokens: Seq<TokenRecord>, id: u32) -> Option<EnhancedTokenData> {
    if has_id(tokens, id) {
        Some(tokens[position_of_id(tokens, id)].data)
    } else {
        None
    }
}

/// `contract` is registered.
pub open spec fn has_contract(tokens: Seq<TokenRecord>, contract: AccountId) -> bool {
    exists|i: int| 0 <= i < tokens.len() && #[trigger] tokens[i].data.token_contract == contract
}

/// The id under which `contract` is registered, if it is.
pub open spec fn id_of_contract(tokens: Seq<TokenRecord>, contract: AccountId) -> Option<u32> {
    if has_contract(tokens, contract) {
        Some(
            tokens[choose|i: int|
                0 <= i < tokens.len() && #[trigger] tokens[i].data.token_contract == contract].id,
        )
    } else {
        None
    }
}

/// How many of `tokens` stand in `tier`.
pub open spec fn count_in_tier(tokens: Seq<TokenRecord>, tier: Tier) -> nat
    decreases tokens.len(),
{
    if tokens.len() == 0 {
        0
    } else {
        count_in_tier(tokens.drop_last(), tier) + if tokens.last().data.tier == tier {
            1nat
        } else {
            0nat
        }
    }
}

/// The distribution of `tokens` over the tiers.
pub open spec fn tally(tokens: Seq<TokenRecord>) -> TierDistribution {
    TierDistribution {
        none: count_in_tier(tokens, Tier::Unranked) as u32,
        tier1: count_in_tier(tokens, Tier::Tier1) as u32,
        tier2: count_in_tier(tokens, Tier::Tier2) as u32,
        tier3: count_in_tier(tokens, Tier::Tier3) as u32,
        tier4: count_in_tier(tokens, Tier::Tier4) as u32,
    }
}

/// Every token stands in exactly one tier.
pub proof fn lemma_counts_sum_to_len(tokens: Seq<TokenRecord>)
    ensures
        count_in_tier(tokens, Tier::Unranked) + count_in_tier(tokens, Tier::Tier1) + count_in_tier(
            tokens,
            Tier::Tier2,
        ) + count_in_tier(tokens, Tier::Tier3) + count_in_tier(tokens, Tier::Tier4)
            == tokens.len(),
    decreases tokens.len(),
{
    if tokens.len() > 0 {
        lemma_counts_sum_to_len(tokens.drop_last());
    }
}

/// Appending a token raises the count of its tier by one and no other.
pub proof fn lemma_count_push(tokens: Seq<TokenRecord>, record: TokenRecord, tier: Tier)
    ensures
        count_in_tier(tokens.push(record), tier) == if record.data.tier == tier {
            count_in_tier(tokens, tier) + 1
        } else {
            count_in_tier(tokens, tier)
        },
{
    assert(tokens.push(record).drop_last() =~= tokens);
}

/// Replacing one token moves one count from its old tier to its new one.
pub proof fn lemma_count_update(
    tokens: Seq<TokenRecord>,
    index: int,
    record: TokenRecord,
    tier: Tier,
)
    requires
        0 <= index < tokens.len(),
    ensures
        count_in_tier(tokens.update(index, record), tier) + (if tokens[index].data.tier == tier {
            1nat
        } else {
            0nat
        }) == count_in_tier(tokens, tier) + if record.data.tier == tier {
            1nat
        } else {
            0nat
        },
    decreases tokens.len(),
{
    let updated = tokens.update(index, record);
    if index == tokens.len() - 1 {
        assert(updated.drop_last() =~= tokens.drop_last());
    } else {
        lemma_count_update(tokens.drop_last(), index, record, tier);
        assert(updated.drop_last() =~= tokens.drop_last().update(index, record));
    }
}

/// Removing one token lowers the count of its tier by one and no other.
pub proof fn lemma_count_remove(tokens: Seq<TokenRecord>, index: int, tier: Tier)
    requires
        0 <= index < tokens.len(),
    ensures
        count_in_tier(tokens.remove(index), tier) + (if tokens[index].data.tier == tier {
            1nat
        } else {
            0nat
        }) == count_in_tier(tokens, tier),
    decreases tokens.len(),
{
    let removed = tokens.remove(index);
    if index != tokens.len() - 1 {
        lemma_count_remove(tokens.drop_last(), index, tier);
        assert(removed.drop_last() =~= tokens.drop_last().remove(index));
    }
}

/// Removing a token keeps the rest in order, issued and distinct.
pub proof fn lemma_remove_keeps_order(tokens: Seq<TokenRecord>, index: int, next_token_id: u32)
    requires
        0 <= index < tokens.len(),
        ids_ascending(tokens),
        ids_issued(tokens, next_token_id),
        contracts_distinct(tokens),
    ensures
        ids_ascending(tokens.remove(index)),
        ids_issued(tokens.remove(index), next_token_id),
        contracts_distinct(tokens.remove(index)),
        !has_id(tokens.remove(index), tokens[index].id),
        !has_contract(tokens.remove(index), tokens[index].data.token_contract),
{
}

/// Ids that rise strictly from 1 and stay below `next_token_id` leave room
/// for fewer than `next_token_id` tokens.
pub proof fn lemma_len_below_next_id(tokens: Seq<TokenRecord>, next_token_id: u32)
    requires
        ids_ascending(tokens),
        ids_issued(tokens, next_token_id),
    ensures
        tokens.len() < next_token_id || (tokens.len() == 0 && next_token_id == 0),
        forall|i: int| 0 <= i < tokens.len() ==> i < #[trigger] tokens[i].id,
    decreases tokens.len(),
{
    if tokens.len() > 0 {
        let front = tokens.drop_last();
        lemma_len_below_next_id(front, tokens.last().id);
        assert forall|i: int| 0 <= i < tokens.len() implies i < #[trigger] tokens[i].id by {
            if i < front.len() {
                assert(front[i] == tokens[i]);
            }
        }
    }
}

} // verus!
