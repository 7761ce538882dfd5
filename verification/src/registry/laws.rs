//! What holds of every registry, whatever was done to it.

use crate::feed::OracleQuote;
use crate::registry::events::{GracePeriodStarted, RegistryEvent, TierChangeReason, TokenAdded};
use crate::registry::tier::{holds_supermajority, tier_of, Tier, TierThresholds};
use crate::registry::{MAX_GRACE_PERIOD_MS, MIN_GRACE_PERIOD_MS};
use crate::registry::tokens::{
    count_in_tier, has_id, lemma_count_push, lemma_count_update, lemma_counts_sum_to_len,
    lemma_len_below_next_id, TokenRecord,
};
use crate::shared::AccountId;
use crate::registry::model::{
    expired_count, grace_events, graced, tier_change_events, tier_changed, RegistryView,
};
use vstd::prelude::*;

verus! {

/// The cached tier distribution counts every registered token exactly once:
/// its counts add up to the number of registered tokens.
pub proof fn lemma_distribution_sums_to_token_count(registry: RegistryView)
    requires
        registry.valid(),
    ensures
        registry.tier_distribution.total() == registry.tokens.len(),
        registry.tier_distribution.total() == registry.token_count(),
        forall|tier: Tier|
            registry.tier_distribution.count(tier) == count_in_tier(registry.tokens, tier),
{
    lemma_counts_sum_to_len(registry.tokens);
    lemma_len_below_next_id(registry.tokens, registry.next_token_id);
}

/// Adding a token, where it is accepted, raises the cached count of the tier
/// that the token starts in by exactly one and leaves the other counts as
/// they were: the counts then add up to one more than before, the number of
/// tokens now registered.
pub proof fn lemma_added_token_is_counted_once(
    registry: RegistryView,
    caller: AccountId,
    now: u64,
    token_contract: AccountId,
    oracle_contract: AccountId,
    quotes: Seq<OracleQuote>,
)
    requires
        registry.valid(),
        registry.add_token_outcome(caller, token_contract, oracle_contract).is_ok(),
    ensures
        ({
            let record = registry.new_record(quotes, token_contract, oracle_contract);
            let after = registry.with_token(record).after_auto_shift(now).with_event(
                RegistryEvent::TokenAdded(
                    TokenAdded {
                        token_id: record.id,
                        token_contract,
                        oracle_contract,
                        initial_tier: record.data.tier,
                        added_by: caller,
                    },
                ),
            );
            &&& after.valid()
            &&& after.tokens == registry.tokens.push(record)
            &&& after.tier_distribution.count(record.data.tier)
                == registry.tier_distribution.count(record.data.tier) + 1
            &&& forall|tier: Tier|
                tier != record.data.tier ==> after.tier_distribution.count(tier)
                    == registry.tier_distribution.count(tier)
            &&& after.tier_distribution.total() == registry.tier_distribution.total() + 1
            &&& after.tier_distribution.total() == after.tokens.len()
        }),
{
    let record = registry.new_record(quotes, token_contract, oracle_contract);
    let added = registry.tokens.push(record);
    lemma_counts_sum_to_len(registry.tokens);
    lemma_counts_sum_to_len(added);
    lemma_len_below_next_id(registry.tokens, registry.next_token_id);
    lemma_count_push(registry.tokens, record, Tier::Unranked);
    lemma_count_push(registry.tokens, record, Tier::Tier1);
    lemma_count_push(registry.tokens, record, Tier::Tier2);
    lemma_count_push(registry.tokens, record, Tier::Tier3);
    lemma_count_push(registry.tokens, record, Tier::Tier4);
}

/// A token with more market capitalisation and more volume never stands in a
/// lower tier.
pub proof fn lemma_tier_is_monotonic(
    market_cap: u128,
    volume: u128,
    more_market_cap: u128,
    more_volume: u128,
    thresholds: TierThresholds,
    usd_rate: u128,
)
    requires
        market_cap <= more_market_cap,
        volume <= more_volume,
    ensures
        tier_of(market_cap, volume, thresholds, usd_rate).rank() <= tier_of(
            more_market_cap,
            more_volume,
            thresholds,
            usd_rate,
        ).rank(),
{
}

/// The id that the next token gets has not been given out before.
pub proof fn lemma_next_id_is_fresh(registry: RegistryView)
    requires
        registry.valid(),
    ensures
        !has_id(registry.tokens, registry.next_token_id),
        forall|i: int|
            0 <= i < registry.tokens.len() ==> (#[trigger] registry.tokens[i]).id
                < registry.next_token_id,
{
}

/// At most one tier can hold 80% of the tokens, so once the rule has moved
/// the active tier it has nothing more to move.
pub proof fn lemma_shift_settles(registry: RegistryView, now: u64)
    requires
        registry.valid(),
    ensures
        registry.after_auto_shift(now).shift_due().is_none(),
{
    lemma_distribution_sums_to_token_count(registry);
    let total = registry.token_count();
    assert forall|a: u32, b: u32|
        a + b <= total && holds_supermajority(a, total) implies !holds_supermajority(
        b,
        total,
    ) by {
        if holds_supermajority(b, total) {
            assert(a * 100 >= 80 * total) by (nonlinear_arith)
                requires
                    total > 0,
                    (a * 100) / (total as int) >= 80,
            ;
            assert(b * 100 >= 80 * total) by (nonlinear_arith)
                requires
                    total > 0,
                    (b * 100) / (total as int) >= 80,
            ;
        }
    }
    match registry.shift_due() {
        Some(new_tier) => {
        },
        None => {},
    }
}

/// A tier that differs from the one in force, asked for without an immediate
/// reason at `start`, is parked: the tier in force stays, the event names
/// `start + grace_period_ms` as the end of the grace period, and the parked
/// tier comes into force from that time on and not a millisecond earlier.
pub proof fn lemma_grace_period_round_trip(
    record: TokenRecord,
    new_tier: Tier,
    reason: TierChangeReason,
    start: u64,
    now: u64,
    grace_period_ms: u64,
    quotes: Seq<OracleQuote>,
)
    requires
        new_tier != record.data.tier,
        !reason.is_immediate(),
        MIN_GRACE_PERIOD_MS <= grace_period_ms <= MAX_GRACE_PERIOD_MS,
    ensures
        ({
            let parked = tier_changed(record.data, new_tier, reason, start);
            &&& parked.tier == record.data.tier
            &&& parked.pending_tier_change == Some(new_tier)
            &&& tier_change_events(record, new_tier, reason, start, grace_period_ms, quotes)
                == seq![
                RegistryEvent::GracePeriodStarted(
                    GracePeriodStarted {
                        token_id: record.id,
                        current_tier: record.data.tier,
                        pending_tier: new_tier,
                        grace_end_time: if start + grace_period_ms > u64::MAX {
                            u64::MAX
                        } else {
                            (start + grace_period_ms) as u64
                        },
                    },
                ),
            ]
            &&& parked.grace_expired(now, grace_period_ms) <==> now >= start + grace_period_ms
            &&& now < start + grace_period_ms ==> parked.after_grace(now, grace_period_ms)
                == parked
            &&& now >= start + grace_period_ms ==> parked.after_grace(now, grace_period_ms).tier
                == new_tier && parked.after_grace(
                now,
                grace_period_ms,
            ).pending_tier_change.is_none()
        }),
{
}

/// A tier that differs from the one in force, asked for the token at `index`
/// without an immediate reason, is parked: the token keeps its tier, the new
/// tier is pending from `now`, every other token and the cached distribution
/// stay as they were, and exactly one event is recorded, which names
/// `now + grace_period_ms` as the end of the grace period.
pub proof fn lemma_parked_change_keeps_tier_and_counts(
    registry: RegistryView,
    index: int,
    new_tier: Tier,
    reason: TierChangeReason,
    now: u64,
    quotes: Seq<OracleQuote>,
)
    requires
        registry.valid(),
        0 <= index < registry.tokens.len(),
        new_tier != registry.tokens[index].data.tier,
        !reason.is_immediate(),
    ensures
        ({
            let before = registry.tokens[index];
            let after = registry.with_tier_change(index, new_tier, reason, now, quotes);
            &&& after.valid()
            &&& after == (RegistryView {
                tokens: registry.tokens.update(
                    index,
                    TokenRecord {
                        id: before.id,
                        data: before.data.with_pending(new_tier, now),
                    },
                ),
                events: registry.events.push(
                    RegistryEvent::GracePeriodStarted(
                        GracePeriodStarted {
                            token_id: before.id,
                            current_tier: before.data.tier,
                            pending_tier: new_tier,
                            grace_end_time: if now + registry.grace_period_ms > u64::MAX {
                                u64::MAX
                            } else {
                                (now + registry.grace_period_ms) as u64
                            },
                        },
                    ),
                ),
                ..registry
            })
            &&& after.tokens[index].data.tier == before.data.tier
            &&& after.tokens[index].data.pending_tier_change == Some(new_tier)
            &&& after.tokens[index].data.tier_change_timestamp == Some(now)
            &&& after.tier_distribution == registry.tier_distribution
        }),
{
    let before = registry.tokens[index];
    let parked = TokenRecord { id: before.id, data: before.data.with_pending(new_tier, now) };
    lemma_count_update(registry.tokens, index, parked, Tier::Unranked);
    lemma_count_update(registry.tokens, index, parked, Tier::Tier1);
    lemma_count_update(registry.tokens, index, parked, Tier::Tier2);
    lemma_count_update(registry.tokens, index, parked, Tier::Tier3);
    lemma_count_update(registry.tokens, index, parked, Tier::Tier4);
    let after = registry.with_tier_change(index, new_tier, reason, now, quotes);
    assert(after.events =~= registry.events.push(
        tier_change_events(before, new_tier, reason, now, registry.grace_period_ms, quotes)[0],
    ));
}

/// Processing the grace periods at `now` puts the pending tier of a token in
/// force if the grace period has passed since the tier was parked, stamps
/// the token `now` and clears what was pending; one millisecond earlier it
/// leaves the token as it is.
pub proof fn lemma_grace_processing_applies_on_time(
    registry: RegistryView,
    index: int,
    now: u64,
    quotes: Seq<OracleQuote>,
)
    requires
        registry.valid(),
        0 <= index < registry.tokens.len(),
        registry.tokens[index].data.pending_tier_change.is_some(),
        registry.tokens[index].data.tier_change_timestamp.is_some(),
    ensures
        ({
            let before = registry.tokens[index].data;
            let parked_at = before.tier_change_timestamp.unwrap();
            let after = registry.after_grace_periods(now, quotes).tokens[index];
            &&& after.id == registry.tokens[index].id
            &&& now < parked_at + registry.grace_period_ms ==> after.data == before
            &&& now >= parked_at + registry.grace_period_ms ==> after.data == before.with_tier(
                before.pending_tier_change.unwrap(),
                now,
            )
        }),
{
}

/// Where no pending change has run out of its grace period, processing the
/// grace periods counts nothing and leaves the registry as it is.
pub proof fn lemma_nothing_expired_nothing_changes(
    registry: RegistryView,
    now: u64,
    quotes: Seq<OracleQuote>,
)
    requires
        registry.valid(),
        forall|i: int|
            0 <= i < registry.tokens.len() ==> !(#[trigger] registry.tokens[i]).data.grace_expired(
                now,
                registry.grace_period_ms,
            ),
    ensures
        expired_count(registry.tokens, now, registry.grace_period_ms) == 0,
        registry.after_grace_periods(now, quotes) == registry,
{
    lemma_none_expired(registry.tokens, now, registry.grace_period_ms, quotes);
    assert(graced(registry.tokens, now, registry.grace_period_ms) =~= registry.tokens);
}

proof fn lemma_none_expired(
    tokens: Seq<TokenRecord>,
    now: u64,
    grace_period_ms: u64,
    quotes: Seq<OracleQuote>,
)
    requires
        forall|i: int|
            0 <= i < tokens.len() ==> !(#[trigger] tokens[i]).data.grace_expired(
                now,
                grace_period_ms,
            ),
    ensures
        expired_count(tokens, now, grace_period_ms) == 0,
        grace_events(tokens, now, grace_period_ms, quotes) == Seq::<RegistryEvent>::empty(),
    decreases tokens.len(),
{
    if tokens.len() > 0 {
        let front = tokens.drop_last();
        lemma_none_expired(front, now, grace_period_ms, quotes);
    }
}

/// Processing the grace periods twice in a row at the same time counts
/// nothing the second time and leaves the registry exactly as the first call
/// left it, whatever the oracles answer in between.
pub proof fn lemma_grace_processing_is_idempotent(
    registry: RegistryView,
    now: u64,
    first: Seq<OracleQuote>,
    second: Seq<OracleQuote>,
)
    requires
        registry.valid(),
    ensures
        ({
            let once = registry.after_grace_periods(now, first);
            &&& expired_count(once.tokens, now, once.grace_period_ms) == 0
            &&& once.after_grace_periods(now, second) == once
        }),
{
    let once = registry.after_grace_periods(now, first);
    lemma_none_expired(once.tokens, now, once.grace_period_ms, second);
    assert(graced(once.tokens, now, once.grace_period_ms) =~= once.tokens);
}

} // verus!
