//! The token registry: the catalogue of index constituents, their tiers with
//! grace-period-delayed changes, and the 80% rule that moves the active tier.

pub mod active_tier;
pub mod catalogue;
pub mod classification;
pub mod events;
pub mod grace;
pub mod laws;
pub mod model;
pub mod roles;
pub mod snapshot;
pub mod tier;
pub mod tokens;

use crate::account_map::AccountMap;
use crate::registry::events::RegistryEvent;
use crate::registry::model::RegistryView;
use crate::registry::tier::{Tier, TierDistribution, TierThresholds};
use crate::registry::tokens::{
    has_contract, has_id, id_of_contract, lemma_count_update, lemma_counts_sum_to_len,
    lemma_len_below_next_id, position_of_id, EnhancedTokenData, TokenRecord,
};
use crate::shared::{AccountId, Error, Role};
use vstd::prelude::*;

verus! {

/// Grace period of a new registry: 90 days, in milliseconds.
pub const DEFAULT_GRACE_PERIOD_MS: u64 = 7_776_000_000;

/// Shortest grace period that can be set: one hour.
pub const MIN_GRACE_PERIOD_MS: u64 = 3_600_000;

/// Longest grace period that can be set: 365 days.
pub const MAX_GRACE_PERIOD_MS: u64 = 31_536_000_000;

/// Milliseconds in an hour and in a day.
pub const MS_PER_HOUR: u64 = 3_600_000;

pub const MS_PER_DAY: u64 = 86_400_000;

/// The roles that one account holds.
#[derive(Clone, Copy, Debug, PartialEq, Eq, Structural)]
pub struct RoleSet {
    pub token_manager: bool,
    pub token_updater: bool,
    pub emergency_controller: bool,
}

impl RoleSet {
    pub open spec fn has(self, role: Role) -> bool {
        match role {
            Role::TokenManager => self.token_manager,
            Role::TokenUpdater => self.token_updater,
            Role::EmergencyController => self.emergency_controller,
        }
    }

    pub open spec fn set(self, role: Role, held: bool) -> RoleSet {
        match role {
            Role::TokenManager => RoleSet { token_manager: held, ..self },
            Role::TokenUpdater => RoleSet { token_updater: held, ..self },
            Role::EmergencyController => RoleSet { emergency_controller: held, ..self },
        }
    }

    fn empty() -> (r: Self)
        ensures
            forall|role: Role| !#[trigger] r.has(role),
    {
        RoleSet { token_manager: false, token_updater: false, emergency_controller: false }
    }

    fn holds(&self, role: Role) -> (r: bool)
        ensures
            r == self.has(role),
    {
        match role {
            Role::TokenManager => self.token_manager,
            Role::TokenUpdater => self.token_updater,
            Role::EmergencyController => self.emergency_controller,
        }
    }

    fn with(self, role: Role, held: bool) -> (r: Self)
        ensures
            r == self.set(role, held),
    {
        match role {
            Role::TokenManager => RoleSet { token_manager: held, ..self },
            Role::TokenUpdater => RoleSet { token_updater: held, ..self },
            Role::EmergencyController => RoleSet { emergency_controller: held, ..self },
        }
    }
}

/// The registry of index constituents.
#[derive(Clone, Debug, PartialEq, Eq)]
pub struct Registry {
    /// The registered tokens, by rising id.
    tokens: Vec<TokenRecord>,
    role_members: AccountMap<RoleSet>,
    next_token_id: u32,
    owner: AccountId,
    active_tier: Tier,
    tier_thresholds: TierThresholds,
    tier_distribution: TierDistribution,
    last_tier_change: Option<u64>,
    dot_usd_oracle: Option<AccountId>,
    grace_period_ms: u64,
    events: Vec<RegistryEvent>,
}

/// The pairs of role and account that `members` records.
pub closed spec fn role_pairs(members: Map<AccountId, RoleSet>) -> Set<(Role, AccountId)> {
    Set::new(|p: (Role, AccountId)| members.contains_key(p.1) && members[p.1].has(p.0))
}

impl View for Registry {
    type V = RegistryView;

    closed spec fn view(&self) -> RegistryView {
        RegistryView {
            tokens: self.tokens@,
            roles: role_pairs(self.role_members@),
            next_token_id: self.next_token_id,
            owner: self.owner,
            active_tier: self.active_tier,
            tier_thresholds: self.tier_thresholds,
            tier_distribution: self.tier_distribution,
            last_tier_change: self.last_tier_change,
            dot_usd_oracle: self.dot_usd_oracle,
            grace_period_ms: self.grace_period_ms,
            events: self.events@,
        }
    }
}

impl Registry {
    /// The registry keeps what `RegistryView::valid` states.
    pub closed spec fn wf(&self) -> bool {
        &&& self.role_members.wf()
        &&& self@.valid()
    }

    /// A well-formed registry is valid.
    pub proof fn lemma_wf_is_valid(&self)
        requires
            self.wf(),
        ensures
            self@.valid(),
    {
    }

    /// An empty registry owned by `caller`, with tier 1 active.
    pub fn new(caller: AccountId) -> (registry: Self)
        ensures
            registry.wf(),
            registry@ == (RegistryView {
                tokens: Seq::empty(),
                roles: Set::empty(),
                next_token_id: 1,
                owner: caller,
                active_tier: Tier::Tier1,
                tier_thresholds: TierThresholds::spec_default(),
                tier_distribution: TierDistribution {
                    none: 0,
                    tier1: 0,
                    tier2: 0,
                    tier3: 0,
                    tier4: 0,
                },
                last_tier_change: None,
                dot_usd_oracle: None,
                grace_period_ms: DEFAULT_GRACE_PERIOD_MS,
                events: Seq::empty(),
            }),
    {
        let registry = Registry {
            tokens: Vec::new(),
            role_members: AccountMap::new(),
            next_token_id: 1,
            owner: caller,
            active_tier: Tier::Tier1,
            tier_thresholds: TierThresholds::default(),
            tier_distribution: TierDistribution::new(),
            last_tier_change: None,
            dot_usd_oracle: None,
            grace_period_ms: DEFAULT_GRACE_PERIOD_MS,
            events: Vec::new(),
        };
        proof {
            assert(registry@.roles =~= Set::empty());
            assert(registry.tier_distribution.count(Tier::Unranked) == 0);
            assert(registry.tier_distribution.count(Tier::Tier1) == 0);
            assert(registry.tier_distribution.count(Tier::Tier2) == 0);
            assert(registry.tier_distribution.count(Tier::Tier3) == 0);
            assert(registry.tier_distribution.count(Tier::Tier4) == 0);
        }
        registry
    }

    /// Hands the recorded events to the host and clears the log.
    pub fn take_events(&mut self) -> (taken: Vec<RegistryEvent>)
        requires
            old(self).wf(),
        ensures
            final(self).wf(),
            taken@ == old(self)@.events,
            final(self)@ == (RegistryView { events: Seq::empty(), ..old(self)@ }),
    {
        let mut taken: Vec<RegistryEvent> = Vec::new();
        core::mem::swap(&mut taken, &mut self.events);
        taken
    }

    fn ensure_owner(&self, caller: AccountId) -> (r: Result<(), Error>)
        ensures
            r == if caller == self@.owner {
                Ok::<(), Error>(())
            } else {
                Err::<(), Error>(Error::Unauthorized)
            },
    {
        if caller != self.owner {
            return Err(Error::Unauthorized);
        }
        Ok(())
    }

    fn ensure_role(&self, role: Role, caller: AccountId) -> (r: Result<(), Error>)
        requires
            self.wf(),
        ensures
            r == if self@.may_act_as(role, caller) {
                Ok::<(), Error>(())
            } else {
                Err::<(), Error>(Error::UnauthorizedRole)
            },
    {
        if caller == self.owner || self.has_role(role, caller) {
            Ok(())
        } else {
            Err(Error::UnauthorizedRole)
        }
    }

    /// The position of the token registered under `token_id`.
    fn find_token(&self, token_id: u32) -> (r: Option<usize>)
        requires
            self.wf(),
        ensures
            match r {
                Some(i) => i < self@.tokens.len() && self@.tokens[i as int].id == token_id
                    && has_id(self@.tokens, token_id) && position_of_id(self@.tokens, token_id)
                    == i,
                None => !has_id(self@.tokens, token_id),
            },
    {
        let mut i: usize = 0;
        while i < self.tokens.len()
            invariant
                self.wf(),
                i <= self.tokens@.len(),
                forall|j: int| 0 <= j < i ==> self.tokens@[j].id != token_id,
            decreases self.tokens@.len() - i,
        {
            if self.tokens[i].id == token_id {
                return Some(i);
            }
            i = i + 1;
        }
        None
    }

    /// The position of the token whose contract is `contract`.
    fn find_contract(&self, contract: AccountId) -> (r: Option<usize>)
        requires
            self.wf(),
        ensures
            match r {
                Some(i) => i < self@.tokens.len() && self@.tokens[i as int].data.token_contract
                    == contract && id_of_contract(self@.tokens, contract) == Some(
                    self@.tokens[i as int].id,
                ),
                None => !has_contract(self@.tokens, contract),
            },
    {
        let mut i: usize = 0;
        while i < self.tokens.len()
            invariant
                self.wf(),
                i <= self.tokens@.len(),
                forall|j: int| 0 <= j < i ==> self.tokens@[j].data.token_contract != contract,
            decreases self.tokens@.len() - i,
        {
            if self.tokens[i].data.token_contract == contract {
                return Some(i);
            }
            i = i + 1;
        }
        None
    }

    /// Stores new data for the token at `index` and keeps the cached
    /// distribution in step with its tier.
    fn replace_token(&mut self, index: usize, data: EnhancedTokenData)
        requires
            old(self).wf(),
            index < old(self)@.tokens.len(),
            data.token_contract == old(self)@.tokens[index as int].data.token_contract,
        ensures
            final(self).wf(),
            final(self)@ == old(self)@.with_token_data(index as int, data),
    {
        let record = self.tokens[index];
        let ghost before = self.tokens@;
        let ghost stored = TokenRecord { id: record.id, data };
        let ghost updated = before.update(index as int, stored);
        proof {
            lemma_counts_sum_to_len(before);
            lemma_counts_sum_to_len(updated);
            lemma_len_below_next_id(before, self.next_token_id);
            lemma_count_update(before, index as int, stored, Tier::Unranked);
            lemma_count_update(before, index as int, stored, Tier::Tier1);
            lemma_count_update(before, index as int, stored, Tier::Tier2);
            lemma_count_update(before, index as int, stored, Tier::Tier3);
            lemma_count_update(before, index as int, stored, Tier::Tier4);
        }
        if record.data.tier != data.tier {
            self.tier_distribution.decrement(record.data.tier);
            self.tier_distribution.increment(data.tier);
        }
        self.tokens.set(index, TokenRecord { id: record.id, data });
    }
}

} // verus!
