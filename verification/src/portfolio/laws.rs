//! What holds of every portfolio, whatever was done to it.

use crate::portfolio::holdings::{
    holding_of, holds, lemma_weight_bounds_each, position_of, total_weight, FULL_WEIGHT_BP,
};
use crate::portfolio::model::PortfolioView;
use crate::feed::TokenAnswer;
use crate::shared::{AccountId, Error};
use vstd::prelude::*;

verus! {

/// The target weights of a portfolio never add up to more than 10000 basis
/// points, and so no single weight exceeds them either.
pub proof fn lemma_weights_within_whole(portfolio: PortfolioView)
    requires
        portfolio.valid(),
    ensures
        total_weight(portfolio.holdings) <= FULL_WEIGHT_BP,
        forall|i: int|
            0 <= i < portfolio.holdings.len() ==> (
            #[trigger] portfolio.holdings[i]).holding.target_weight_bp <= FULL_WEIGHT_BP,
{
    assert forall|i: int| 0 <= i < portfolio.holdings.len() implies (
    #[trigger] portfolio.holdings[i]).holding.target_weight_bp <= FULL_WEIGHT_BP by {
        lemma_weight_bounds_each(portfolio.holdings, i);
    }
}

/// A new holding whose weight would lift the total above 10000 basis points
/// is refused; the weight is never cut to fit.
pub proof fn lemma_excess_weight_is_refused_on_add(
    portfolio: PortfolioView,
    caller: AccountId,
    token_id: u32,
    amount: u128,
    target_weight_bp: u32,
)
    requires
        portfolio.valid(),
        total_weight(portfolio.holdings) + target_weight_bp > FULL_WEIGHT_BP,
    ensures
        portfolio.add_holding_outcome(caller, token_id, amount, target_weight_bp).is_err(),
{
}

/// A new weight for a holding that would lift the total above 10000 basis
/// points is refused, and one that keeps the total within them is accepted
/// from the owner of a portfolio that is not paused.
pub proof fn lemma_excess_weight_is_refused_on_update(
    portfolio: PortfolioView,
    caller: AccountId,
    token_id: u32,
    new_target_weight_bp: u32,
)
    requires
        portfolio.valid(),
        holds(portfolio.holdings, token_id),
    ensures
        ({
            let held = holding_of(portfolio.holdings, token_id).unwrap();
            let others = total_weight(portfolio.holdings) - held.target_weight_bp;
            &&& others >= 0
            &&& others + new_target_weight_bp > FULL_WEIGHT_BP ==> portfolio.update_holding_outcome(
                caller,
                token_id,
                new_target_weight_bp,
            ).is_err()
            &&& others + new_target_weight_bp <= FULL_WEIGHT_BP && caller == portfolio.owner
                && !portfolio.emergency_paused ==> portfolio.update_holding_outcome(
                caller,
                token_id,
                new_target_weight_bp,
            ).is_ok()
        }),
{
    lemma_weight_bounds_each(portfolio.holdings, position_of(portfolio.holdings, token_id));
}

/// Right after its baseline is set the index stands at its base value: the
/// cached value does, and so does the value computed from the same answers
/// of the registry.
pub proof fn lemma_index_starts_at_base(
    portfolio: PortfolioView,
    caller: AccountId,
    now: u64,
    answers: Seq<TokenAnswer>,
)
    requires
        portfolio.valid(),
        portfolio.initialize_outcome(caller, answers).is_ok(),
        portfolio.total_portfolio_value(answers).unwrap() * portfolio.index_base_value
            <= u128::MAX,
    ensures
        ({
            let started = portfolio.with_baseline(caller, now, answers);
            &&& started.valid()
            &&& started.base_portfolio_value > 0
            &&& started.current_index_value == portfolio.index_base_value
            &&& started.index_value(answers) == Ok::<u128, Error>(portfolio.index_base_value)
            &&& started.initialize_outcome(caller, answers).is_err()
        }),
{
    let started = portfolio.with_baseline(caller, now, answers);
    let value = portfolio.total_portfolio_value(answers).unwrap();
    lemma_value_ignores_the_index(portfolio, started, answers, portfolio.holdings.len() as int);
    let base = portfolio.index_base_value;
    assert((value * base) / (value as int) == base) by (nonlinear_arith)
        requires
            value > 0,
            base >= 0,
    ;
}

/// The value of the holdings depends on the holdings, the registry and its
/// answers only.
proof fn lemma_value_ignores_the_index(
    one: PortfolioView,
    other: PortfolioView,
    answers: Seq<TokenAnswer>,
    count: int,
)
    requires
        one.holdings == other.holdings,
        one.registry_contract == other.registry_contract,
    ensures
        one.valued_total(answers, count) == other.valued_total(answers, count),
        one.priced_count(answers, count) == other.priced_count(answers, count),
    decreases count,
{
    if count > 0 {
        lemma_value_ignores_the_index(one, other, answers, count - 1);
    }
}

} // verus!
