//! The state of the staking component as contracts speak of it, the
//! rewards of a stake, and what each operation makes of the state.

use crate::registry::tier::Tier;
use crate::shared::{AccountId, Error};
use crate::staking::{
    PendingSettlement, StakeInfo, Transfer, MAX_UNSTAKING_REQUESTS, PERFORMANCE_FEE_PERCENT,
    REWARDS_RATE_ANNUAL, REWARDS_RATE_SCALE, SECONDS_PER_YEAR, TIER1_UNSTAKING_PERIOD,
    TIER2_UNSTAKING_PERIOD, TIER3_UNSTAKING_PERIOD, TIER4_UNSTAKING_PERIOD,
};
use crate::staking::events::{
    PerformanceFeeClaimed, RewardsClaimed, Staked, StakingEvent, UnstakedClaimed,
};
use crate::staking::unstaking_request::{any_claimable, claimed_at, UnstakingRequest};
use vstd::prelude::*;

verus! {

/// The unstaking period that goes with an active tier. Without a tier the
/// longest period applies.
pub open spec fn unstaking_period_of(tier: Tier) -> u64 {
    match tier {
        Tier::Tier1 => TIER1_UNSTAKING_PERIOD,
        Tier::Tier2 => TIER2_UNSTAKING_PERIOD,
        Tier::Tier3 => TIER3_UNSTAKING_PERIOD,
        Tier::Tier4 => TIER4_UNSTAKING_PERIOD,
        Tier::Unranked => TIER1_UNSTAKING_PERIOD,
    }
}

/// The reward that `amount` earns in `elapsed` seconds, before the fee: the
/// yearly rate for the part of the year that has passed. Where the product
/// does not fit, the reward is 0.
pub open spec fn gross_reward(amount: u128, elapsed: u64) -> u128 {
    if elapsed == 0 || amount * REWARDS_RATE_ANNUAL * elapsed > u128::MAX {
        0
    } else {
        ((amount * REWARDS_RATE_ANNUAL * elapsed) / (SECONDS_PER_YEAR as int) / (
        REWARDS_RATE_SCALE as int)) as u128
    }
}

/// The fee on a reward: 10% of it.
pub open spec fn performance_fee(reward: u128) -> u128 {
    if reward * PERFORMANCE_FEE_PERCENT > u128::MAX {
        0
    } else {
        ((reward * PERFORMANCE_FEE_PERCENT) / 100) as u128
    }
}

/// The rewards of a stake that have not been settled by `now`, net of the
/// fee, and the fee.
pub open spec fn rewards_with_fee(stake: StakeInfo, now: u64) -> (u128, u128) {
    let reward = gross_reward(stake.amount, now.saturating_sub(stake.last_claim));
    ((reward - performance_fee(reward)) as u128, performance_fee(reward))
}

/// The state of the staking component as contracts speak of it.
pub struct StakingView {
    pub w3pi_token: AccountId,
    pub registry: AccountId,
    pub owner: AccountId,
    pub paused: bool,
    pub stakes: Map<AccountId, StakeInfo>,
    /// All deposits less all amounts taken out by unstaking requests.
    pub total_staked: u128,
    /// The unstaking requests of each account, oldest first.
    pub unstaking_requests: Map<AccountId, Seq<UnstakingRequest>>,
    /// What waits for the host to make its transfers. While anything does,
    /// the component is locked.
    pub pending: Option<PendingSettlement>,
    pub fee_wallet: AccountId,
    pub total_collected_fees: u128,
    /// Events raised and not yet taken by the host, oldest first.
    pub events: Seq<StakingEvent>,
}

impl StakingView {
    /// What the component maintains: no stake is empty, neither one that is
    /// stored nor one that waits to be stored, and no queue holds more than
    /// ten requests.
    pub open spec fn valid(self) -> bool {
        &&& forall|account: AccountId|
            self.stakes.contains_key(account) ==> (#[trigger] self.stakes[account]).amount > 0
        &&& forall|account: AccountId|
            self.unstaking_requests.contains_key(account) ==> (
            #[trigger] self.unstaking_requests[account]).len() <= MAX_UNSTAKING_REQUESTS
        &&& match self.pending {
            Some(PendingSettlement::Stake { stake, .. }) => stake.amount > 0,
            Some(PendingSettlement::Rewards { stake, .. }) => stake.amount > 0,
            _ => true,
        }
    }

    /// The component is locked: an operation waits for its transfers.
    pub open spec fn locked(self) -> bool {
        self.pending.is_some()
    }

    /// The queue of an account, empty if it has none.
    pub open spec fn requests_of(self, account: AccountId) -> Seq<UnstakingRequest> {
        if self.unstaking_requests.contains_key(account) {
            self.unstaking_requests[account]
        } else {
            Seq::empty()
        }
    }

    /// The component with `event` recorded.
    pub open spec fn with_event(self, event: StakingEvent) -> Self {
        StakingView { events: self.events.push(event), ..self }
    }

    /// Whether an operation may begin: not while another waits for its
    /// transfers, and not while paused.
    pub open spec fn entry_gate(self) -> Result<(), Error> {
        if self.locked() {
            Err(Error::ReentrantCall)
        } else if self.paused {
            Err(Error::ContractPaused)
        } else {
            Ok(())
        }
    }

    /// Whether the owner may change a setting now.
    pub open spec fn owner_gate(self, caller: AccountId) -> Result<(), Error> {
        if self.locked() {
            Err(Error::ReentrantCall)
        } else if caller != self.owner {
            Err(Error::Unauthorized)
        } else {
            Ok(())
        }
    }

    /// Whether a deposit may begin.
    pub open spec fn stake_outcome(
        self,
        amount: u128,
        active_tier: Option<Tier>,
    ) -> Result<(), Error> {
        if self.entry_gate().is_err() {
            self.entry_gate()
        } else if amount == 0 {
            Err(Error::InvalidParameters)
        } else if active_tier.is_none() {
            Err(Error::CrossContractCallFailed)
        } else {
            Ok(())
        }
    }

    /// What a deposit of `amount` by `caller` at `now` comes to. The rewards
    /// of an existing stake are settled first: the fee is taken out and the
    /// rest is added to the stake. The unstaking period of the whole stake is
    /// set anew from the active tier.
    pub open spec fn stake_settlement(
        self,
        caller: AccountId,
        now: u64,
        amount: u128,
        tier: Tier,
    ) -> PendingSettlement {
        if self.stakes.contains_key(caller) {
            let existing = self.stakes[caller];
            PendingSettlement::Stake {
                account: caller,
                stake: StakeInfo {
                    amount: existing.amount.saturating_add(amount).saturating_add(
                        rewards_with_fee(existing, now).0,
                    ),
                    staked_at: existing.staked_at,
                    last_claim: now,
                    unstaking_period: unstaking_period_of(tier),
                    tier_at_stake: tier,
                },
                amount,
                fee: rewards_with_fee(existing, now).1,
            }
        } else {
            PendingSettlement::Stake {
                account: caller,
                stake: StakeInfo {
                    amount,
                    staked_at: now,
                    last_claim: now,
                    unstaking_period: unstaking_period_of(tier),
                    tier_at_stake: tier,
                },
                amount,
                fee: 0,
            }
        }
    }

    /// Whether an unstaking request may be made.
    pub open spec fn request_unstake_outcome(
        self,
        caller: AccountId,
        amount: u128,
    ) -> Result<(), Error> {
        if self.entry_gate().is_err() {
            self.entry_gate()
        } else if amount == 0 {
            Err(Error::InvalidParameters)
        } else if !self.stakes.contains_key(caller) {
            Err(Error::InvalidParameters)
        } else if self.stakes[caller].amount < amount {
            Err(Error::InsufficientBalance)
        } else if self.requests_of(caller).len() >= MAX_UNSTAKING_REQUESTS {
            Err(Error::InvalidParameters)
        } else {
            Ok(())
        }
    }

    /// Whether a claim of unstaked tokens may begin: there must be a request
    /// that can be claimed.
    pub open spec fn claim_unstaked_outcome(
        self,
        caller: AccountId,
        now: u64,
    ) -> Result<(), Error> {
        if self.entry_gate().is_err() {
            self.entry_gate()
        } else if !any_claimable(self.requests_of(caller), now) {
            Err(Error::InvalidParameters)
        } else {
            Ok(())
        }
    }

    /// Whether a payout of rewards may begin: there must be a stake with a
    /// net reward.
    pub open spec fn claim_rewards_outcome(self, caller: AccountId, now: u64) -> Result<(), Error> {
        if self.entry_gate().is_err() {
            self.entry_gate()
        } else if !self.stakes.contains_key(caller) {
            Err(Error::InvalidParameters)
        } else if rewards_with_fee(self.stakes[caller], now).0 == 0 {
            Err(Error::InvalidParameters)
        } else {
            Ok(())
        }
    }

    /// The component once the transfers of `pending` were made.
    pub open spec fn settled(self, pending: PendingSettlement) -> Self {
        match pending {
            PendingSettlement::Stake { account, stake, amount, fee } => {
                let committed = StakingView {
                    stakes: self.stakes.insert(account, stake),
                    total_staked: self.total_staked.saturating_add(amount),
                    total_collected_fees: self.total_collected_fees.saturating_add(fee),
                    pending: None,
                    events: if fee > 0 {
                        self.events.push(
                            StakingEvent::PerformanceFeeClaimed(
                                PerformanceFeeClaimed { account, fee_amount: fee },
                            ),
                        )
                    } else {
                        self.events
                    },
                    ..self
                };
                committed.with_event(
                    StakingEvent::Staked(
                        Staked { account, amount, unstaking_period: stake.unstaking_period },
                    ),
                )
            },
            PendingSettlement::Unstaked { account, now, amount } => (StakingView {
                unstaking_requests: self.unstaking_requests.insert(
                    account,
                    claimed_at(self.requests_of(account), now),
                ),
                pending: None,
                ..self
            }).with_event(StakingEvent::UnstakedClaimed(UnstakedClaimed { account, amount })),
            PendingSettlement::Rewards { account, stake, net_reward, fee } => {
                let committed = StakingView {
                    stakes: self.stakes.insert(account, stake),
                    total_collected_fees: self.total_collected_fees.saturating_add(fee),
                    pending: None,
                    events: if fee > 0 {
                        self.events.push(
                            StakingEvent::PerformanceFeeClaimed(
                                PerformanceFeeClaimed { account, fee_amount: fee },
                            ),
                        )
                    } else {
                        self.events
                    },
                    ..self
                };
                committed.with_event(
                    StakingEvent::RewardsClaimed(RewardsClaimed { account, amount: net_reward }),
                )
            },
        }
    }
}

/// The transfers that a settlement waits for, in the order in which they are
/// to be made.
pub open spec fn transfers_of(pending: PendingSettlement, fee_wallet: AccountId) -> Seq<Transfer> {
    match pending {
        PendingSettlement::Stake { account, amount, fee, .. } => if fee > 0 {
            seq![
                Transfer::FromContract { to: fee_wallet, amount: fee },
                Transfer::ToContract { from: account, amount },
            ]
        } else {
            seq![Transfer::ToContract { from: account, amount }]
        },
        PendingSettlement::Unstaked { account, amount, .. } => seq![
            Transfer::FromContract { to: account, amount },
        ],
        PendingSettlement::Rewards { account, net_reward, fee, .. } => if fee > 0 {
            seq![
                Transfer::FromContract { to: account, amount: net_reward },
                Transfer::FromContract { to: fee_wallet, amount: fee },
            ]
        } else {
            seq![Transfer::FromContract { to: account, amount: net_reward }]
        },
    }
}

} // verus!
