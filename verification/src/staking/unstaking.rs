//! Taking tokens out of a stake: the request, and the claim once the
//! unstaking period has passed.

use crate::shared::{AccountId, Error};
use crate::staking::{PendingSettlement, StakeInfo, Transfer, W3piStaking, MAX_UNSTAKING_REQUESTS};
use crate::staking::events::{StakingEvent, UnstakeRequested};
use crate::staking::model::{transfers_of, StakingView};
use crate::staking::unstaking_request::{any_claimable, claimable_total, UnstakingRequest};
use vstd::prelude::*;

verus! {

/// Claiming keeps every request in its place and claims those that could be
/// claimed.
proof fn lemma_claimed_prefix(requests: Seq<UnstakingRequest>, now: u64, count: int)
    requires
        0 <= count < requests.len(),
    ensures
        claimable_total(requests.take(count + 1), now) == if requests[count].claimable(now) {
            claimable_total(requests.take(count), now).saturating_add(requests[count].amount)
        } else {
            claimable_total(requests.take(count), now)
        },
{
    assert(requests.take(count + 1).drop_last() =~= requests.take(count));
}

impl W3piStaking {
    /// Takes `amount` out of the stake of `caller` and queues a request for
    /// it that can be claimed once the unstaking period of the stake has
    /// passed. A stake that is used up is deleted. A queue of ten requests,
    /// claimed ones included, takes no more.
    pub fn request_unstake(
        &mut self,
        caller: AccountId,
        now: u64,
        amount: u128,
    ) -> (result: Result<(), Error>)
        requires
            old(self).wf(),
        ensures
            final(self).wf(),
            result == old(self)@.request_unstake_outcome(caller, amount),
            result.is_err() ==> final(self)@ == old(self)@,
            result.is_ok() ==> ({
                let stake = old(self)@.stakes[caller];
                let available_at = now.saturating_add(stake.unstaking_period);
                final(self)@ == (StakingView {
                    stakes: if stake.amount == amount {
                        old(self)@.stakes.remove(caller)
                    } else {
                        old(self)@.stakes.insert(
                            caller,
                            StakeInfo { amount: (stake.amount - amount) as u128, ..stake },
                        )
                    },
                    unstaking_requests: old(self)@.unstaking_requests.insert(
                        caller,
                        old(self)@.requests_of(caller).push(
                            UnstakingRequest {
                                amount,
                                requested_at: now,
                                available_at,
                                claimed: false,
                            },
                        ),
                    ),
                    total_staked: old(self)@.total_staked.saturating_sub(amount),
                    ..old(self)@
                }).with_event(
                    StakingEvent::UnstakeRequested(
                        UnstakeRequested { account: caller, amount, available_at },
                    ),
                )
            }),
    {
        self.reentrancy_guard.enter()?;
        let result = self.request_unstake_entered(caller, now, amount);
        self.reentrancy_guard.exit();
        result
    }

    fn request_unstake_entered(
        &mut self,
        caller: AccountId,
        now: u64,
        amount: u128,
    ) -> (result: Result<(), Error>)
        requires
            old(self).inv(),
            old(self)@.pending.is_none(),
        ensures
            final(self).inv(),
            final(self).reentrancy_guard == old(self).reentrancy_guard,
            result == old(self)@.request_unstake_outcome(caller, amount),
            result.is_err() ==> final(self)@ == old(self)@,
            result.is_ok() ==> ({
                let stake = old(self)@.stakes[caller];
                let available_at = now.saturating_add(stake.unstaking_period);
                final(self)@ == (StakingView {
                    stakes: if stake.amount == amount {
                        old(self)@.stakes.remove(caller)
                    } else {
                        old(self)@.stakes.insert(
                            caller,
                            StakeInfo { amount: (stake.amount - amount) as u128, ..stake },
                        )
                    },
                    unstaking_requests: old(self)@.unstaking_requests.insert(
                        caller,
                        old(self)@.requests_of(caller).push(
                            UnstakingRequest {
                                amount,
                                requested_at: now,
                                available_at,
                                claimed: false,
                            },
                        ),
                    ),
                    total_staked: old(self)@.total_staked.saturating_sub(amount),
                    ..old(self)@
                }).with_event(
                    StakingEvent::UnstakeRequested(
                        UnstakeRequested { account: caller, amount, available_at },
                    ),
                )
            }),
    {
        self.ensure_not_paused()?;
        if amount == 0 {
            return Err(Error::InvalidParameters);
        }
        let mut stake_info = match self.stakes.get(&caller) {
            Some(stake) => *stake,
            None => {
                return Err(Error::InvalidParameters);
            },
        };
        if stake_info.amount < amount {
            return Err(Error::InsufficientBalance);
        }
        let queued = match self.unstaking_requests.get(&caller) {
            Some(requests) => requests.len(),
            None => 0,
        };
        if queued >= MAX_UNSTAKING_REQUESTS as usize {
            return Err(Error::InvalidParameters);
        }
        let ghost before = self@;
        stake_info.amount = stake_info.amount.saturating_sub(amount);
        let available_at = now.saturating_add(stake_info.unstaking_period);
        let request = UnstakingRequest { amount, requested_at: now, available_at, claimed: false };
        let mut requests = match self.unstaking_requests.remove(&caller) {
            Some(requests) => requests,
            None => Vec::new(),
        };
        requests.push(request);
        self.unstaking_requests.insert(caller, requests);
        if stake_info.amount == 0 {
            let _ = self.stakes.remove(&caller);
        } else {
            self.stakes.insert(caller, stake_info);
        }
        self.total_staked = self.total_staked.saturating_sub(amount);
        self.events.push(
            StakingEvent::UnstakeRequested(
                UnstakeRequested { account: caller, amount, available_at },
            ),
        );
        proof {
            assert(self@.unstaking_requests =~= before.unstaking_requests.insert(
                caller,
                before.requests_of(caller).push(request),
            ));
        }
        Ok(())
    }

    /// Begins a claim of the requests of `caller` whose unstaking period has
    /// passed. On success the component is locked and the one transfer to
    /// make is returned: the amounts of those requests together, to the
    /// caller. The requests are marked as claimed by `settle_transfers`.
    pub fn claim_unstaked(
        &mut self,
        caller: AccountId,
        now: u64,
    ) -> (result: Result<Vec<Transfer>, Error>)
        requires
            old(self).wf(),
        ensures
            final(self).wf(),
            match old(self)@.claim_unstaked_outcome(caller, now) {
                Err(e) => result == Err::<Vec<Transfer>, Error>(e) && final(self)@ == old(self)@,
                Ok(_) => {
                    let pending = PendingSettlement::Unstaked {
                        account: caller,
                        now,
                        amount: claimable_total(old(self)@.requests_of(caller), now),
                    };
                    &&& result.is_ok()
                    &&& result.unwrap()@ == transfers_of(pending, old(self)@.fee_wallet)
                    &&& final(self)@ == (StakingView { pending: Some(pending), ..old(self)@ })
                },
            },
    {
        self.reentrancy_guard.enter()?;
        match self.plan_claim_unstaked(caller, now) {
            Ok(pending) => {
                self.pending = Some(pending);
                Ok(self.transfers_for(pending))
            },
            Err(e) => {
                self.reentrancy_guard.exit();
                Err(e)
            },
        }
    }

    fn plan_claim_unstaked(
        &self,
        caller: AccountId,
        now: u64,
    ) -> (result: Result<PendingSettlement, Error>)
        requires
            self.inv(),
            self@.pending.is_none(),
        ensures
            match self@.claim_unstaked_outcome(caller, now) {
                Err(e) => result == Err::<PendingSettlement, Error>(e),
                Ok(_) => result == Ok::<PendingSettlement, Error>(
                    PendingSettlement::Unstaked {
                        account: caller,
                        now,
                        amount: claimable_total(self@.requests_of(caller), now),
                    },
                ),
            },
    {
        self.ensure_not_paused()?;
        let requests = match self.unstaking_requests.get(&caller) {
            Some(requests) => requests,
            None => {
                return Err(Error::InvalidParameters);
            },
        };
        if requests.len() == 0 {
            return Err(Error::InvalidParameters);
        }
        let mut total_to_claim: u128 = 0;
        let mut has_claimable = false;
        let n = requests.len();
        let mut i: usize = 0;
        while i < n
            invariant
                n == requests@.len(),
                i <= n,
                total_to_claim == claimable_total(requests@.take(i as int), now),
                has_claimable == any_claimable(requests@.take(i as int), now),
            decreases n - i,
        {
            let request = requests[i];
            proof {
                lemma_claimed_prefix(requests@, now, i as int);
            }
            if !request.claimed && now >= request.available_at {
                total_to_claim = total_to_claim.saturating_add(request.amount);
                has_claimable = true;
            }
            i = i + 1;
        }
        assert(requests@.take(n as int) =~= requests@);
        if !has_claimable {
            return Err(Error::InvalidParameters);
        }
        Ok(PendingSettlement::Unstaked { account: caller, now, amount: total_to_claim })
    }

    /// The unstaking requests of an account, oldest first.
    pub fn get_unstaking_requests(&self, account: AccountId) -> (r: Vec<UnstakingRequest>)
        requires
            self.wf(),
        ensures
            r@ == self@.requests_of(account),
    {
        let mut requests: Vec<UnstakingRequest> = Vec::new();
        match self.unstaking_requests.get(&account) {
            Some(queued) => {
                let mut i: usize = 0;
                while i < queued.len()
                    invariant
                        i <= queued@.len(),
                        requests@ == queued@.take(i as int),
                    decreases queued@.len() - i,
                {
                    requests.push(queued[i]);
                    i = i + 1;
                }
            },
            None => {},
        }
        requests
    }
}

} // verus!
