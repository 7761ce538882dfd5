//! The stored form of a registry: plain values that a host keeps between
//! calls, and that are checked when a registry is made of them again.

use crate::account_map::{bindings, distinct_keys, AccountMap, Entry};
use crate::registry::model::RegistryView;
use crate::registry::tier::{Tier, TierDistribution, TierThresholds};
use crate::registry::tokens::{
    contracts_distinct, ids_ascending, ids_issued, lemma_counts_sum_to_len,
    lemma_len_below_next_id, tally, TokenRecord,
};
use crate::registry::{role_pairs, Registry, RoleSet, MAX_GRACE_PERIOD_MS, MIN_GRACE_PERIOD_MS};
use crate::shared::AccountId;
use vstd::prelude::*;

verus! {

/// A registry as a host stores it. The cached tier distribution is not
/// stored; it is counted anew when the registry is restored. Events are not
/// stored either: the host takes them before it stores the registry.
#[derive(Clone, Debug, PartialEq, Eq)]
pub struct RegistrySnapshot {
    pub tokens: Vec<TokenRecord>,
    pub role_members: Vec<Entry<RoleSet>>,
    pub next_token_id: u32,
    pub owner: AccountId,
    pub active_tier: Tier,
    pub tier_thresholds: TierThresholds,
    pub last_tier_change: Option<u64>,
    pub dot_usd_oracle: Option<AccountId>,
    pub grace_period_ms: u64,
}

impl View for RegistrySnapshot {
    type V = RegistryView;

    /// The registry that the snapshot stands for.
    open spec fn view(&self) -> RegistryView {
        RegistryView {
            tokens: self.tokens@,
            roles: role_pairs(bindings(self.role_members@)),
            next_token_id: self.next_token_id,
            owner: self.owner,
            active_tier: self.active_tier,
            tier_thresholds: self.tier_thresholds,
            tier_distribution: tally(self.tokens@),
            last_tier_change: self.last_tier_change,
            dot_usd_oracle: self.dot_usd_oracle,
            grace_period_ms: self.grace_period_ms,
            events: Seq::empty(),
        }
    }
}

impl RegistrySnapshot {
    /// The snapshot stands for a registry: no account has two sets of roles,
    /// and the registry it stands for is valid.
    pub open spec fn restorable(&self) -> bool {
        distinct_keys(self.role_members@) && self@.valid()
    }
}

/// Whether the ids rise strictly from at least 1 and stay below
/// `next_token_id`.
fn ids_in_order(tokens: &Vec<TokenRecord>, next_token_id: u32) -> (r: bool)
    ensures
        r == (ids_ascending(tokens@) && ids_issued(tokens@, next_token_id)),
{
    let n = tokens.len();
    let mut i: usize = 0;
    while i < n
        invariant
            n == tokens@.len(),
            i <= n,
            forall|a: int, b: int| 0 <= a < b < i ==> tokens@[a].id < tokens@[b].id,
            forall|a: int| 0 <= a < i ==> 1 <= #[trigger] tokens@[a].id < next_token_id,
        decreases n - i,
    {
        let id = tokens[i].id;
        if id < 1 || id >= next_token_id {
            return false;
        }
        if i > 0 && tokens[i - 1].id >= id {
            return false;
        }
        i = i + 1;
    }
    true
}

/// Whether no token contract occurs twice.
fn contracts_are_distinct(tokens: &Vec<TokenRecord>) -> (r: bool)
    ensures
        r == contracts_distinct(tokens@),
{
    let n = tokens.len();
    let mut i: usize = 0;
    while i < n
        invariant
            n == tokens@.len(),
            i <= n,
            forall|a: int, b: int|
                0 <= a < b < i ==> tokens@[a].data.token_contract
                    != tokens@[b].data.token_contract,
        decreases n - i,
    {
        let contract = tokens[i].data.token_contract;
        let mut j: usize = 0;
        while j < i
            invariant
                n == tokens@.len(),
                i < n,
                j <= i,
                contract == tokens@[i as int].data.token_contract,
                forall|a: int| 0 <= a < j ==> tokens@[a].data.token_contract != contract,
            decreases i - j,
        {
            if tokens[j].data.token_contract == contract {
                return false;
            }
            j = j + 1;
        }
        i = i + 1;
    }
    true
}

/// Counts the tokens of each tier.
fn count_tiers(tokens: &Vec<TokenRecord>) -> (counts: TierDistribution)
    requires
        tokens@.len() <= u32::MAX,
    ensures
        counts == tally(tokens@),
{
    let mut counts = TierDistribution::new();
    let n = tokens.len();
    let mut i: usize = 0;
    proof {
        assert(counts.count(Tier::Unranked) == 0);
        assert(counts.count(Tier::Tier1) == 0);
        assert(counts.count(Tier::Tier2) == 0);
        assert(counts.count(Tier::Tier3) == 0);
        assert(counts.count(Tier::Tier4) == 0);
    }
    while i < n
        invariant
            n == tokens@.len(),
            n <= u32::MAX,
            i <= n,
            counts == tally(tokens@.take(i as int)),
        decreases n - i,
    {
        proof {
            let shorter = tokens@.take(i as int);
            let longer = tokens@.take(i + 1);
            assert(longer.drop_last() =~= shorter);
            lemma_counts_sum_to_len(shorter);
        }
        counts.increment(tokens[i].data.tier);
        i = i + 1;
    }
    assert(tokens@.take(n as int) =~= tokens@);
    counts
}

impl Registry {
    /// The registry as a host stores it. The events recorded are dropped;
    /// the host takes them first.
    pub fn snapshot(self) -> (snapshot: RegistrySnapshot)
        requires
            self.wf(),
        ensures
            snapshot.restorable(),
            snapshot@ == (RegistryView { events: Seq::empty(), ..self@ }),
    {
        RegistrySnapshot {
            tokens: self.tokens,
            role_members: self.role_members.into_entries(),
            next_token_id: self.next_token_id,
            owner: self.owner,
            active_tier: self.active_tier,
            tier_thresholds: self.tier_thresholds,
            last_tier_change: self.last_tier_change,
            dot_usd_oracle: self.dot_usd_oracle,
            grace_period_ms: self.grace_period_ms,
        }
    }

    /// The registry that a snapshot stands for, if it stands for one.
    pub fn restore(snapshot: RegistrySnapshot) -> (r: Option<Registry>)
        ensures
            match r {
                Some(registry) => snapshot.restorable() && registry.wf() && registry@
                    == snapshot@,
                None => !snapshot.restorable(),
            },
    {
        if snapshot.next_token_id < 1 {
            return None;
        }
        if !ids_in_order(&snapshot.tokens, snapshot.next_token_id) {
            return None;
        }
        if !contracts_are_distinct(&snapshot.tokens) {
            return None;
        }
        if snapshot.grace_period_ms < MIN_GRACE_PERIOD_MS || snapshot.grace_period_ms
            > MAX_GRACE_PERIOD_MS {
            return None;
        }
        if !snapshot.tier_thresholds.is_ascending() {
            return None;
        }
        proof {
            lemma_len_below_next_id(snapshot.tokens@, snapshot.next_token_id);
        }
        let tier_distribution = count_tiers(&snapshot.tokens);
        let role_members = match AccountMap::from_entries(snapshot.role_members) {
            Some(members) => members,
            None => {
                return None;
            },
        };
        Some(
            Registry {
                tokens: snapshot.tokens,
                role_members,
                next_token_id: snapshot.next_token_id,
                owner: snapshot.owner,
                active_tier: snapshot.active_tier,
                tier_thresholds: snapshot.tier_thresholds,
                tier_distribution,
                last_tier_change: snapshot.last_tier_change,
                dot_usd_oracle: snapshot.dot_usd_oracle,
                grace_period_ms: snapshot.grace_period_ms,
                events: Vec::new(),
            },
        )
    }
}

} // verus!
