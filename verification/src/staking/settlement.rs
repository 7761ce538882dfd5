//! The end of an operation that waits for transfers.

use crate::shared::Error;
use crate::staking::{PendingSettlement, Transfer, W3piStaking};
use crate::staking::events::{
    PerformanceFeeClaimed, RewardsClaimed, Staked, StakingEvent, UnstakedClaimed,
};
use crate::staking::model::{transfers_of, StakingView};
use crate::staking::unstaking_request::claimed_at;
use vstd::prelude::*;

verus! {

impl W3piStaking {
    /// The transfers that `pending` waits for.
    pub(super) fn transfers_for(&self, pending: PendingSettlement) -> (transfers: Vec<Transfer>)
        ensures
            transfers@ == transfers_of(pending, self@.fee_wallet),
    {
        let mut transfers: Vec<Transfer> = Vec::new();
        match pending {
            PendingSettlement::Stake { account, amount, fee, .. } => {
                if fee > 0 {
                    transfers.push(Transfer::FromContract { to: self.fee_wallet, amount: fee });
                }
                transfers.push(Transfer::ToContract { from: account, amount });
            },
            PendingSettlement::Unstaked { account, amount, .. } => {
                transfers.push(Transfer::FromContract { to: account, amount });
            },
            PendingSettlement::Rewards { account, net_reward, fee, .. } => {
                transfers.push(Transfer::FromContract { to: account, amount: net_reward });
                if fee > 0 {
                    transfers.push(Transfer::FromContract { to: self.fee_wallet, amount: fee });
                }
            },
        }
        transfers
    }

    /// Ends the operation that waits for its transfers and unlocks the
    /// component. With `succeeded` the new state is committed and its events
    /// are recorded; without, it is dropped and the operation has failed.
    /// Where nothing waits, there is nothing to settle.
    pub fn settle_transfers(&mut self, succeeded: bool) -> (result: Result<(), Error>)
        requires
            old(self).wf(),
        ensures
            final(self).wf(),
            result == match old(self)@.pending {
                None => Err::<(), Error>(Error::InvalidParameters),
                Some(_) => if succeeded {
                    Ok::<(), Error>(())
                } else {
                    Err::<(), Error>(Error::TransferFailed)
                },
            },
            final(self)@ == match old(self)@.pending {
                None => old(self)@,
                Some(pending) => if succeeded {
                    old(self)@.settled(pending)
                } else {
                    StakingView { pending: None, ..old(self)@ }
                },
            },
    {
        let pending = match self.pending {
            Some(pending) => pending,
            None => {
                return Err(Error::InvalidParameters);
            },
        };
        self.pending = None;
        self.reentrancy_guard.exit();
        if !succeeded {
            return Err(Error::TransferFailed);
        }
        let ghost before = old(self)@;
        match pending {
            PendingSettlement::Stake { account, stake, amount, fee } => {
                if fee > 0 {
                    self.total_collected_fees = self.total_collected_fees.saturating_add(fee);
                    self.events.push(
                        StakingEvent::PerformanceFeeClaimed(
                            PerformanceFeeClaimed { account, fee_amount: fee },
                        ),
                    );
                }
                self.stakes.insert(account, stake);
                self.total_staked = self.total_staked.saturating_add(amount);
                self.events.push(
                    StakingEvent::Staked(
                        Staked { account, amount, unstaking_period: stake.unstaking_period },
                    ),
                );
            },
            PendingSettlement::Unstaked { account, now, amount } => {
                let mut requests = match self.unstaking_requests.remove(&account) {
                    Some(requests) => requests,
                    None => Vec::new(),
                };
                let ghost queued = requests@;
                let n = requests.len();
                let mut i: usize = 0;
                while i < n
                    invariant
                        n == queued.len(),
                        requests@.len() == n,
                        i <= n,
                        forall|j: int| 0 <= j < i ==> requests@[j] == queued[j].after_claim(now),
                        forall|j: int| i <= j < n ==> requests@[j] == queued[j],
                    decreases n - i,
                {
                    let mut request = requests[i];
                    if !request.claimed && now >= request.available_at {
                        request.claimed = true;
                        requests.set(i, request);
                    }
                    i = i + 1;
                }
                assert(requests@ =~= claimed_at(queued, now));
                self.unstaking_requests.insert(account, requests);
                self.events.push(
                    StakingEvent::UnstakedClaimed(UnstakedClaimed { account, amount }),
                );
                proof {
                    assert(self@.unstaking_requests =~= before.unstaking_requests.insert(
                        account,
                        claimed_at(queued, now),
                    ));
                }
            },
            PendingSettlement::Rewards { account, stake, net_reward, fee } => {
                self.total_collected_fees = self.total_collected_fees.saturating_add(fee);
                if fee > 0 {
                    self.events.push(
                        StakingEvent::PerformanceFeeClaimed(
                            PerformanceFeeClaimed { account, fee_amount: fee },
                        ),
                    );
                }
                self.stakes.insert(account, stake);
                self.events.push(
                    StakingEvent::RewardsClaimed(RewardsClaimed { account, amount: net_reward }),
                );
            },
        }
        Ok(())
    }
}

} // verus!
