//! Requests to take tokens out of a stake, which wait out the unstaking
//! period before they can be claimed.

use vstd::prelude::*;

verus! {

/// A request to unstake.
#[derive(Clone, Copy, Debug, PartialEq, Eq, Structural)]
pub struct UnstakingRequest {
    pub amount: u128,
    /// When the request was made, in seconds.
    pub requested_at: u64,
    /// From when the tokens can be claimed, in seconds.
    pub available_at: u64,
    pub claimed: bool,
}

impl UnstakingRequest {
    /// The request can be claimed at `now`: it has not been claimed and its
    /// unstaking period has passed.
    pub open spec fn claimable(self, now: u64) -> bool {
        !self.claimed && now >= self.available_at
    }

    /// The request after a claim at `now`.
    pub open spec fn after_claim(self, now: u64) -> Self {
        if self.claimable(now) {
            UnstakingRequest { claimed: true, ..self }
        } else {
            self
        }
    }
}

/// One of `requests` can be claimed at `now`.
pub open spec fn any_claimable(requests: Seq<UnstakingRequest>, now: u64) -> bool {
    exists|i: int| 0 <= i < requests.len() && (#[trigger] requests[i]).claimable(now)
}

/// The amounts of the requests that can be claimed at `now`, together, held
/// at the numeric bound.
pub open spec fn claimable_total(requests: Seq<UnstakingRequest>, now: u64) -> u128
    decreases requests.len(),
{
    if requests.len() == 0 {
        0
    } else if requests.last().claimable(now) {
        claimable_total(requests.drop_last(), now).saturating_add(requests.last().amount)
    } else {
        claimable_total(requests.drop_last(), now)
    }
}

/// The requests after a claim at `now`: what could be claimed is claimed, and
/// every request stays in its place.
pub open spec fn claimed_at(requests: Seq<UnstakingRequest>, now: u64) -> Seq<UnstakingRequest> {
    Seq::new(requests.len(), |i: int| requests[i].after_claim(now))
}

} // verus!
