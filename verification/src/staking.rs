//! Staking of the index token: stakes that earn rewards over time, a
//! performance fee on the rewards, and unstaking through a queue of requests
//! that wait out a period set by the active tier.
//!
//! Times are in seconds. An operation that moves tokens proceeds in two
//! steps: the call decides and names the transfers to make, and holds the
//! component locked; once the host has made them, `settle_transfers` commits
//! the new state or, if a transfer failed, drops it.

pub mod admin;
pub mod deposits;
pub mod events;
pub mod laws;
pub mod model;
pub mod rewards;
pub mod settlement;
pub mod snapshot;
pub mod unstaking;
pub mod unstaking_request;

use crate::account_map::AccountMap;
use crate::registry::tier::Tier;
use crate::shared::{AccountId, Error, ReentrancyGuard};
use crate::staking::events::StakingEvent;
use crate::staking::model::{gross_reward, rewards_with_fee, unstaking_period_of, StakingView};
use crate::staking::unstaking_request::UnstakingRequest;
use vstd::prelude::*;

verus! {

/// Most unstaking requests that one account can have in its queue, claimed
/// ones included.
pub const MAX_UNSTAKING_REQUESTS: u32 = 10;

/// The yearly reward, as a fraction of the stake scaled by `REWARDS_RATE_SCALE`:
/// 5%.
pub const REWARDS_RATE_ANNUAL: u128 = 5_000_000;

/// The scale of `REWARDS_RATE_ANNUAL`.
pub const REWARDS_RATE_SCALE: u128 = 100_000_000;

/// Seconds in a year of 365 days.
pub const SECONDS_PER_YEAR: u64 = 31_536_000;

/// The part of every reward that is kept as a fee, in percent.
pub const PERFORMANCE_FEE_PERCENT: u128 = 10;

/// Unstaking periods by active tier, in seconds: 14, 10, 7 and 3 days.
pub const TIER1_UNSTAKING_PERIOD: u64 = 1_209_600;

pub const TIER2_UNSTAKING_PERIOD: u64 = 864_000;

pub const TIER3_UNSTAKING_PERIOD: u64 = 604_800;

pub const TIER4_UNSTAKING_PERIOD: u64 = 259_200;

/// The stake of one account.
#[derive(Clone, Copy, Debug, PartialEq, Eq, Structural)]
pub struct StakeInfo {
    pub amount: u128,
    /// When the account first staked.
    pub staked_at: u64,
    /// Up to when rewards have been settled.
    pub last_claim: u64,
    /// How long tokens taken out of this stake wait, as set at the last
    /// deposit.
    pub unstaking_period: u64,
    /// The active tier at the last deposit.
    pub tier_at_stake: Tier,
}

/// A transfer of the staked token that the host is to make.
#[derive(Clone, Copy, Debug, PartialEq, Eq)]
pub enum Transfer {
    /// From an account into the component.
    ToContract { from: AccountId, amount: u128 },
    /// Out of the component to an account.
    FromContract { to: AccountId, amount: u128 },
}

/// What waits for the host to make its transfers.
#[derive(Clone, Copy, Debug, PartialEq, Eq)]
pub enum PendingSettlement {
    /// A deposit: the stake as it will be, the amount deposited, and the fee
    /// on the rewards settled with it.
    Stake { account: AccountId, stake: StakeInfo, amount: u128, fee: u128 },
    /// A claim, at `now`, of requests worth `amount` together.
    Unstaked { account: AccountId, now: u64, amount: u128 },
    /// A payout of rewards: the stake as it will be, the net reward and the
    /// fee.
    Rewards { account: AccountId, stake: StakeInfo, net_reward: u128, fee: u128 },
}

/// The staking component.
#[derive(Clone, Debug, PartialEq, Eq)]
pub struct W3piStaking {
    w3pi_token: AccountId,
    registry: AccountId,
    owner: AccountId,
    paused: bool,
    stakes: AccountMap<StakeInfo>,
    total_staked: u128,
    unstaking_requests: AccountMap<Vec<UnstakingRequest>>,
    reentrancy_guard: ReentrancyGuard,
    pending: Option<PendingSettlement>,
    fee_wallet: AccountId,
    total_collected_fees: u128,
    events: Vec<StakingEvent>,
}

impl View for W3piStaking {
    type V = StakingView;

    closed spec fn view(&self) -> StakingView {
        StakingView {
            w3pi_token: self.w3pi_token,
            registry: self.registry,
            owner: self.owner,
            paused: self.paused,
            stakes: self.stakes@,
            total_staked: self.total_staked,
            unstaking_requests: self.unstaking_requests@.map_values(
                |queue: Vec<UnstakingRequest>| queue@,
            ),
            pending: self.pending,
            fee_wallet: self.fee_wallet,
            total_collected_fees: self.total_collected_fees,
            events: self.events@,
        }
    }
}

/// The unstaking period that goes with the active tier.
pub fn get_unstaking_period(active_tier: Option<Tier>) -> (result: Result<u64, Error>)
    ensures
        result == match active_tier {
            Some(tier) => Ok::<u64, Error>(unstaking_period_of(tier)),
            None => Err::<u64, Error>(Error::CrossContractCallFailed),
        },
{
    let current_tier = get_current_tier(active_tier)?;
    let unstaking_period = match current_tier {
        Tier::Tier1 => TIER1_UNSTAKING_PERIOD,
        Tier::Tier2 => TIER2_UNSTAKING_PERIOD,
        Tier::Tier3 => TIER3_UNSTAKING_PERIOD,
        Tier::Tier4 => TIER4_UNSTAKING_PERIOD,
        Tier::Unranked => TIER1_UNSTAKING_PERIOD,
    };
    Ok(unstaking_period)
}

/// The active tier as the registry answered; `None` stands for a call that
/// failed.
pub fn get_current_tier(active_tier: Option<Tier>) -> (result: Result<Tier, Error>)
    ensures
        result == match active_tier {
            Some(tier) => Ok::<Tier, Error>(tier),
            None => Err::<Tier, Error>(Error::CrossContractCallFailed),
        },
{
    match active_tier {
        Some(tier) => Ok(tier),
        None => Err(Error::CrossContractCallFailed),
    }
}

/// The reward of a stake that has not been settled by `now`, before the fee.
pub fn calculate_rewards(stake: &StakeInfo, now: u64) -> (reward: u128)
    ensures
        reward == gross_reward(stake.amount, now.saturating_sub(stake.last_claim)),
{
    let time_elapsed = now.saturating_sub(stake.last_claim);
    if time_elapsed == 0 {
        return 0;
    }
    let time_elapsed_u128 = time_elapsed as u128;
    let scaled = match stake.amount.checked_mul(REWARDS_RATE_ANNUAL) {
        Some(scaled) => scaled,
        None => {
            proof {
                let a = stake.amount as int;
                let e = time_elapsed as int;
                assert(a * 5_000_000 * e >= a * 5_000_000) by (nonlinear_arith)
                    requires
                        a >= 0,
                        e >= 1,
                ;
            }
            return 0;
        },
    };
    let accrued = match scaled.checked_mul(time_elapsed_u128) {
        Some(accrued) => accrued,
        None => {
            return 0;
        },
    };
    accrued / (SECONDS_PER_YEAR as u128) / REWARDS_RATE_SCALE
}

/// The rewards of a stake that have not been settled by `now`: the reward net
/// of the fee, and the fee.
pub fn calculate_rewards_with_fee(stake: &StakeInfo, now: u64) -> (r: (u128, u128))
    ensures
        r == rewards_with_fee(*stake, now),
        r.0 + r.1 == gross_reward(stake.amount, now.saturating_sub(stake.last_claim)),
{
    let total_reward = calculate_rewards(stake, now);
    let fee_amount = match total_reward.checked_mul(PERFORMANCE_FEE_PERCENT) {
        Some(scaled) => scaled / 100,
        None => 0,
    };
    let net_reward = total_reward.saturating_sub(fee_amount);
    (net_reward, fee_amount)
}

impl W3piStaking {
    /// The maps are in order and the component keeps what
    /// `StakingView::valid` states.
    pub closed spec fn inv(&self) -> bool {
        &&& self.stakes.wf()
        &&& self.unstaking_requests.wf()
        &&& self@.valid()
    }

    /// The component is in order, and it is locked exactly while an
    /// operation waits for its transfers.
    pub closed spec fn wf(&self) -> bool {
        &&& self.inv()
        &&& self.reentrancy_guard.is_locked() == self.pending.is_some()
    }

    /// A well-formed component is valid.
    pub proof fn lemma_wf_is_valid(&self)
        requires
            self.wf(),
        ensures
            self@.valid(),
    {
    }

    /// A component without stakes, owned by `caller`.
    pub fn new(
        caller: AccountId,
        w3pi_token: AccountId,
        registry: AccountId,
        fee_wallet: AccountId,
    ) -> (staking: Self)
        ensures
            staking.wf(),
            staking@ == (StakingView {
                w3pi_token,
                registry,
                owner: caller,
                paused: false,
                stakes: Map::empty(),
                total_staked: 0,
                unstaking_requests: Map::empty(),
                pending: None,
                fee_wallet,
                total_collected_fees: 0,
                events: Seq::empty(),
            }),
    {
        let staking = W3piStaking {
            w3pi_token,
            registry,
            owner: caller,
            paused: false,
            stakes: AccountMap::new(),
            total_staked: 0,
            unstaking_requests: AccountMap::new(),
            reentrancy_guard: ReentrancyGuard::new(),
            pending: None,
            fee_wallet,
            total_collected_fees: 0,
            events: Vec::new(),
        };
        proof {
            assert(staking@.unstaking_requests =~= Map::empty());
        }
        staking
    }

    /// Hands the recorded events to the host and clears the log.
    pub fn take_events(&mut self) -> (taken: Vec<StakingEvent>)
        requires
            old(self).wf(),
        ensures
            final(self).wf(),
            taken@ == old(self)@.events,
            final(self)@ == (StakingView { events: Seq::empty(), ..old(self)@ }),
    {
        let mut taken: Vec<StakingEvent> = Vec::new();
        core::mem::swap(&mut taken, &mut self.events);
        taken
    }

    fn ensure_not_paused(&self) -> (r: Result<(), Error>)
        ensures
            r == if self@.paused {
                Err::<(), Error>(Error::ContractPaused)
            } else {
                Ok::<(), Error>(())
            },
    {
        if self.paused {
            return Err(Error::ContractPaused);
        }
        Ok(())
    }

    fn ensure_owner(&self, caller: AccountId) -> (r: Result<(), Error>)
        ensures
            r == if caller == self@.owner {
                Ok::<(), Error>(())
            } else {
                Err::<(), Error>(Error::Unauthorized)
            },
    {
        if caller != self.owner {
            return Err(Error::Unauthorized);
        }
        Ok(())
    }
}

} // verus!
