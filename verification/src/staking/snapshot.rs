//! The stored form of the staking component: plain values that a host keeps
//! between calls, and that are checked when a component is made of them
//! again.

use crate::account_map::{bindings, distinct_keys, lemma_bindings_are_entries, AccountMap, Entry};
use crate::shared::{AccountId, ReentrancyGuard};
use crate::staking::model::StakingView;
use crate::staking::unstaking_request::UnstakingRequest;
use crate::staking::{PendingSettlement, StakeInfo, W3piStaking, MAX_UNSTAKING_REQUESTS};
use vstd::prelude::*;

verus! {

/// The staking component as a host stores it. Events are not stored: the
/// host takes them before it stores the component.
#[derive(Clone, Debug, PartialEq, Eq)]
pub struct StakingSnapshot {
    pub w3pi_token: AccountId,
    pub registry: AccountId,
    pub owner: AccountId,
    pub paused: bool,
    pub stakes: Vec<Entry<StakeInfo>>,
    pub total_staked: u128,
    pub unstaking_requests: Vec<Entry<Vec<UnstakingRequest>>>,
    pub pending: Option<PendingSettlement>,
    pub fee_wallet: AccountId,
    pub total_collected_fees: u128,
}

impl View for StakingSnapshot {
    type V = StakingView;

    /// The component that the snapshot stands for.
    open spec fn view(&self) -> StakingView {
        StakingView {
            w3pi_token: self.w3pi_token,
            registry: self.registry,
            owner: self.owner,
            paused: self.paused,
            stakes: bindings(self.stakes@),
            total_staked: self.total_staked,
            unstaking_requests: bindings(self.unstaking_requests@).map_values(
                |queue: Vec<UnstakingRequest>| queue@,
            ),
            pending: self.pending,
            fee_wallet: self.fee_wallet,
            total_collected_fees: self.total_collected_fees,
            events: Seq::empty(),
        }
    }
}

impl StakingSnapshot {
    /// The snapshot stands for a component: no account has two stakes or two
    /// queues, and the component it stands for is valid.
    pub open spec fn restorable(&self) -> bool {
        &&& distinct_keys(self.stakes@)
        &&& distinct_keys(self.unstaking_requests@)
        &&& self@.valid()
    }
}

/// Whether no stake is empty.
fn stakes_hold_something(stakes: &Vec<Entry<StakeInfo>>) -> (r: bool)
    ensures
        r == (forall|i: int| 0 <= i < stakes@.len() ==> (#[trigger] stakes@[i]).value.amount > 0),
{
    let mut i: usize = 0;
    while i < stakes.len()
        invariant
            i <= stakes@.len(),
            forall|a: int| 0 <= a < i ==> (#[trigger] stakes@[a]).value.amount > 0,
        decreases stakes@.len() - i,
    {
        if stakes[i].value.amount == 0 {
            return false;
        }
        i = i + 1;
    }
    true
}

/// Whether no queue holds more than ten requests.
fn queues_fit(queues: &Vec<Entry<Vec<UnstakingRequest>>>) -> (r: bool)
    ensures
        r == (forall|i: int|
            0 <= i < queues@.len() ==> (#[trigger] queues@[i]).value@.len()
                <= MAX_UNSTAKING_REQUESTS),
{
    let mut i: usize = 0;
    while i < queues.len()
        invariant
            i <= queues@.len(),
            forall|a: int|
                0 <= a < i ==> (#[trigger] queues@[a]).value@.len() <= MAX_UNSTAKING_REQUESTS,
        decreases queues@.len() - i,
    {
        if queues[i].value.len() > MAX_UNSTAKING_REQUESTS as usize {
            return false;
        }
        i = i + 1;
    }
    true
}

/// With distinct keys, what holds of every entry holds of every binding, and
/// the other way round.
proof fn lemma_stakes_valid(stakes: Seq<Entry<StakeInfo>>)
    requires
        distinct_keys(stakes),
    ensures
        (forall|i: int| 0 <= i < stakes.len() ==> (#[trigger] stakes[i]).value.amount > 0) <==> (
        forall|account: AccountId|
            bindings(stakes).contains_key(account) ==> (#[trigger] bindings(
                stakes,
            )[account]).amount > 0),
{
    lemma_bindings_are_entries(stakes);
    if forall|account: AccountId|
        bindings(stakes).contains_key(account) ==> (#[trigger] bindings(stakes)[account]).amount
            > 0 {
    }
}

proof fn lemma_queues_valid(queues: Seq<Entry<Vec<UnstakingRequest>>>)
    requires
        distinct_keys(queues),
    ensures
        (forall|i: int|
            0 <= i < queues.len() ==> (#[trigger] queues[i]).value@.len()
                <= MAX_UNSTAKING_REQUESTS) <==> (forall|account: AccountId|
            bindings(queues).contains_key(account) ==> (#[trigger] bindings(
                queues,
            )[account])@.len() <= MAX_UNSTAKING_REQUESTS),
{
    lemma_bindings_are_entries(queues);
    if forall|i: int|
        0 <= i < queues.len() ==> (#[trigger] queues[i]).value@.len() <= MAX_UNSTAKING_REQUESTS {
    }
    if forall|account: AccountId|
        bindings(queues).contains_key(account) ==> (#[trigger] bindings(queues)[account])@.len()
            <= MAX_UNSTAKING_REQUESTS {
    }
}

/// With distinct keys a snapshot is valid exactly if its lists are in order.
proof fn lemma_snapshot_valid(snapshot: StakingSnapshot)
    requires
        distinct_keys(snapshot.stakes@),
        distinct_keys(snapshot.unstaking_requests@),
    ensures
        snapshot@.valid() <==> {
            &&& forall|i: int|
                0 <= i < snapshot.stakes@.len() ==> (#[trigger] snapshot.stakes@[i]).value.amount
                    > 0
            &&& forall|i: int|
                0 <= i < snapshot.unstaking_requests@.len() ==> (
                #[trigger] snapshot.unstaking_requests@[i]).value@.len()
                    <= MAX_UNSTAKING_REQUESTS
            &&& match snapshot.pending {
                Some(PendingSettlement::Stake { stake, .. }) => stake.amount > 0,
                Some(PendingSettlement::Rewards { stake, .. }) => stake.amount > 0,
                _ => true,
            }
        },
{
    lemma_stakes_valid(snapshot.stakes@);
    lemma_queues_valid(snapshot.unstaking_requests@);
    let queues = bindings(snapshot.unstaking_requests@);
    let viewed = snapshot@.unstaking_requests;
    let viewed_fit = forall|account: AccountId|
        viewed.contains_key(account) ==> (#[trigger] viewed[account]).len()
            <= MAX_UNSTAKING_REQUESTS;
    if viewed_fit {
        assert forall|account: AccountId| queues.contains_key(account) implies (
        #[trigger] queues[account])@.len() <= MAX_UNSTAKING_REQUESTS by {
            assert(viewed[account].len() <= MAX_UNSTAKING_REQUESTS);
        }
    }
}

impl W3piStaking {
    /// The component as a host stores it. The events recorded are dropped;
    /// the host takes them first.
    pub fn snapshot(self) -> (snapshot: StakingSnapshot)
        requires
            self.wf(),
        ensures
            snapshot.restorable(),
            snapshot@ == (StakingView { events: Seq::empty(), ..self@ }),
    {
        let stakes = self.stakes.into_entries();
        let unstaking_requests = self.unstaking_requests.into_entries();
        let snapshot = StakingSnapshot {
            w3pi_token: self.w3pi_token,
            registry: self.registry,
            owner: self.owner,
            paused: self.paused,
            stakes,
            total_staked: self.total_staked,
            unstaking_requests,
            pending: self.pending,
            fee_wallet: self.fee_wallet,
            total_collected_fees: self.total_collected_fees,
        };
        snapshot
    }

    /// The component that a snapshot stands for, if it stands for one.
    pub fn restore(snapshot: StakingSnapshot) -> (r: Option<W3piStaking>)
        ensures
            match r {
                Some(staking) => snapshot.restorable() && staking.wf() && staking@ == snapshot@,
                None => !snapshot.restorable(),
            },
    {
        let pending_in_order = match snapshot.pending {
            Some(PendingSettlement::Stake { stake, .. }) => stake.amount > 0,
            Some(PendingSettlement::Rewards { stake, .. }) => stake.amount > 0,
            _ => true,
        };
        if !pending_in_order {
            return None;
        }
        let stakes_in_order = stakes_hold_something(&snapshot.stakes);
        let queues_in_order = queues_fit(&snapshot.unstaking_requests);
        let ghost stored = snapshot;
        let stakes = match AccountMap::from_entries(snapshot.stakes) {
            Some(stakes) => stakes,
            None => {
                return None;
            },
        };
        let unstaking_requests = match AccountMap::from_entries(snapshot.unstaking_requests) {
            Some(queues) => queues,
            None => {
                return None;
            },
        };
        proof {
            lemma_snapshot_valid(stored);
        }
        if !stakes_in_order || !queues_in_order {
            return None;
        }
        let mut reentrancy_guard = ReentrancyGuard::new();
        if snapshot.pending.is_some() {
            let _ = reentrancy_guard.enter();
        }
        Some(
            W3piStaking {
                w3pi_token: snapshot.w3pi_token,
                registry: snapshot.registry,
                owner: snapshot.owner,
                paused: snapshot.paused,
                stakes,
                total_staked: snapshot.total_staked,
                unstaking_requests,
                reentrancy_guard,
                pending: snapshot.pending,
                fee_wallet: snapshot.fee_wallet,
                total_collected_fees: snapshot.total_collected_fees,
                events: Vec::new(),
            },
        )
    }
}

} // verus!
