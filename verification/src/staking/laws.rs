//! What holds of every reward.

use crate::staking::{StakeInfo, REWARDS_RATE_ANNUAL, SECONDS_PER_YEAR};
use crate::staking::model::{gross_reward, performance_fee, rewards_with_fee};
use crate::staking::unstaking_request::{
    any_claimable, claimable_total, claimed_at, UnstakingRequest,
};
use vstd::prelude::*;

verus! {

/// Over one full year a stake earns exactly the yearly rate, 5% of the
/// amount rounded down, of which a tenth, rounded down, is the fee.
pub proof fn lemma_reward_of_one_year(amount: u128)
    requires
        amount * REWARDS_RATE_ANNUAL * SECONDS_PER_YEAR <= u128::MAX,
    ensures
        gross_reward(amount, SECONDS_PER_YEAR) == amount / 20,
        performance_fee(gross_reward(amount, SECONDS_PER_YEAR)) == (amount / 20) / 10,
{
}

/// A reward is split into fee and net reward without loss, and the fee is
/// never more than a tenth of it.
pub proof fn lemma_fee_is_a_tenth(stake: StakeInfo, now: u64)
    ensures
        rewards_with_fee(stake, now).0 + rewards_with_fee(stake, now).1 == gross_reward(
            stake.amount,
            now.saturating_sub(stake.last_claim),
        ),
        rewards_with_fee(stake, now).1 * 10 <= gross_reward(
            stake.amount,
            now.saturating_sub(stake.last_claim),
        ),
{
}

/// Once the requests that are due have been claimed, none of them can be
/// claimed again: a second claim at the same time finds nothing to pay.
pub proof fn lemma_claim_is_idempotent(requests: Seq<UnstakingRequest>, now: u64)
    ensures
        !any_claimable(claimed_at(requests, now), now),
        claimable_total(claimed_at(requests, now), now) == 0,
        claimed_at(claimed_at(requests, now), now) == claimed_at(requests, now),
{
    let claimed = claimed_at(requests, now);
    lemma_nothing_claimable(claimed, now);
}

/// Where no request can be claimed, the claimable total is zero.
proof fn lemma_nothing_claimable(requests: Seq<UnstakingRequest>, now: u64)
    requires
        forall|i: int| 0 <= i < requests.len() ==> !(#[trigger] requests[i]).claimable(now),
    ensures
        claimable_total(requests, now) == 0,
    decreases requests.len(),
{
    if requests.len() > 0 {
        let front = requests.drop_last();
        lemma_nothing_claimable(front, now);
    }
}

/// A claim never pays for a request before its unstaking period has passed,
/// and never for a request that has been claimed.
pub proof fn lemma_claim_pays_only_what_is_due(requests: Seq<UnstakingRequest>, now: u64)
    requires
        forall|i: int|
            0 <= i < requests.len() ==> (#[trigger] requests[i]).claimed || now
                < requests[i].available_at,
    ensures
        !any_claimable(requests, now),
        claimable_total(requests, now) == 0,
        claimed_at(requests, now) == requests,
{
    lemma_nothing_claimable(requests, now);
}

} // verus!
