//! The holdings of the portfolio, one for each token held, and what holds of
//! a well-formed list of them.

use vstd::prelude::*;

verus! {

/// All of the portfolio, in basis points.
pub const FULL_WEIGHT_BP: u32 = 10000;

/// What the portfolio holds of one token.
#[derive(Clone, Copy, Debug, PartialEq, Eq, Structural)]
pub struct TokenHolding {
    pub amount: u128,
    /// Target weight in basis points, 0..=10000.
    pub target_weight_bp: u32,
    pub last_rebalance: u64,
    pub fees_collected: u128,
}

impl Default for TokenHolding {
    fn default() -> (r: Self)
        ensures
            r == (TokenHolding {
                amount: 0,
                target_weight_bp: 0,
                last_rebalance: 0,
                fees_collected: 0,
            }),
    {
        TokenHolding { amount: 0, target_weight_bp: 0, last_rebalance: 0, fees_collected: 0 }
    }
}

/// A holding under the id of its token.
#[derive(Clone, Copy, Debug, PartialEq, Eq, Structural)]
pub struct HoldingRecord {
    pub token_id: u32,
    pub holding: TokenHolding,
}

/// No token is held twice.
pub open spec fn ids_distinct(holdings: Seq<HoldingRecord>) -> bool {
    forall|i: int, j: int|
        0 <= i < j < holdings.len() ==> holdings[i].token_id != holdings[j].token_id
}

/// The token `token_id` is held.
pub open spec fn holds(holdings: Seq<HoldingRecord>, token_id: u32) -> bool {
    exists|i: int| 0 <= i < holdings.len() && #[trigger] holdings[i].token_id == token_id
}

/// The position of the holding of `token_id`.
pub open spec fn position_of(holdings: Seq<HoldingRecord>, token_id: u32) -> int {
    choose|i: int| 0 <= i < holdings.len() && #[trigger] holdings[i].token_id == token_id
}

/// The holding of `token_id`, if the token is held.
pub open spec fn holding_of(holdings: Seq<HoldingRecord>, token_id: u32) -> Option<TokenHolding> {
    if holds(holdings, token_id) {
        Some(holdings[position_of(holdings, token_id)].holding)
    } else {
        None
    }
}

/// The target weights of all holdings together, in basis points.
pub open spec fn total_weight(holdings: Seq<HoldingRecord>) -> nat
    decreases holdings.len(),
{
    if holdings.len() == 0 {
        0
    } else {
        total_weight(holdings.drop_last()) + holdings.last().holding.target_weight_bp as nat
    }
}

/// The amounts of all holdings together, held at the numeric bound.
pub open spec fn total_amount(holdings: Seq<HoldingRecord>) -> u128
    decreases holdings.len(),
{
    if holdings.len() == 0 {
        0
    } else {
        total_amount(holdings.drop_last()).saturating_add(holdings.last().holding.amount)
    }
}

/// A new holding adds its weight to the total.
pub proof fn lemma_weight_push(holdings: Seq<HoldingRecord>, record: HoldingRecord)
    ensures
        total_weight(holdings.push(record)) == total_weight(holdings)
            + record.holding.target_weight_bp,
{
    assert(holdings.push(record).drop_last() =~= holdings);
}

/// Replacing a holding exchanges its weight in the total.
pub proof fn lemma_weight_update(holdings: Seq<HoldingRecord>, index: int, record: HoldingRecord)
    requires
        0 <= index < holdings.len(),
    ensures
        total_weight(holdings.update(index, record)) + holdings[index].holding.target_weight_bp
            == total_weight(holdings) + record.holding.target_weight_bp,
    decreases holdings.len(),
{
    let updated = holdings.update(index, record);
    if index == holdings.len() - 1 {
        assert(updated.drop_last() =~= holdings.drop_last());
    } else {
        lemma_weight_update(holdings.drop_last(), index, record);
        assert(updated.drop_last() =~= holdings.drop_last().update(index, record));
    }
}

/// Removing a holding takes its weight out of the total.
pub proof fn lemma_weight_remove(holdings: Seq<HoldingRecord>, index: int)
    requires
        0 <= index < holdings.len(),
    ensures
        total_weight(holdings.remove(index)) + holdings[index].holding.target_weight_bp
            == total_weight(holdings),
    decreases holdings.len(),
{
    let removed = holdings.remove(index);
    if index != holdings.len() - 1 {
        lemma_weight_remove(holdings.drop_last(), index);
        assert(removed.drop_last() =~= holdings.drop_last().remove(index));
    }
}

/// The weights of the first holdings are part of the total.
pub proof fn lemma_weight_prefix(holdings: Seq<HoldingRecord>, count: int)
    requires
        0 <= count <= holdings.len(),
    ensures
        total_weight(holdings.take(count)) <= total_weight(holdings),
    decreases holdings.len(),
{
    if count == holdings.len() {
        assert(holdings.take(count) =~= holdings);
    } else {
        lemma_weight_prefix(holdings.drop_last(), count);
        assert(holdings.drop_last().take(count) =~= holdings.take(count));
    }
}

/// No single weight exceeds the total.
pub proof fn lemma_weight_bounds_each(holdings: Seq<HoldingRecord>, index: int)
    requires
        0 <= index < holdings.len(),
    ensures
        holdings[index].holding.target_weight_bp <= total_weight(holdings),
    decreases holdings.len(),
{
    if index < holdings.len() - 1 {
        lemma_weight_bounds_each(holdings.drop_last(), index);
    }
}

/// Removing a holding keeps the rest distinct, and the token is held no more.
pub proof fn lemma_remove_keeps_distinct(holdings: Seq<HoldingRecord>, index: int)
    requires
        0 <= index < holdings.len(),
        ids_distinct(holdings),
    ensures
        ids_distinct(holdings.remove(index)),
        !holds(holdings.remove(index), holdings[index].token_id),
        forall|id: u32|
            id != holdings[index].token_id ==> holds(holdings.remove(index), id) == holds(
                holdings,
                id,
            ),
{
    let rest = holdings.remove(index);
    assert forall|id: u32| id != holdings[index].token_id implies holds(rest, id) == holds(
        holdings,
        id,
    ) by {
        if holds(holdings, id) {
            let k = position_of(holdings, id);
            if k < index {
                assert(rest[k].token_id == id);
            } else {
                assert(rest[k - 1] == holdings[k]);
            }
        }
    }
}

} // verus!
