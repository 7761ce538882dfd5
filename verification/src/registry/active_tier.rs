//! The active tier and the 80% rule that moves it.

use crate::registry::Registry;
use crate::registry::events::{ActiveTierShifted, RegistryEvent, ShiftTrigger};
use crate::registry::model::trigger_of;
use crate::registry::tier::{
    higher_tiers, holds_supermajority, Tier, MIN_TOKENS_FOR_TIER_SHIFT,
    TIER_SHIFT_THRESHOLD_PERCENT,
};
use crate::shared::{AccountId, Error};
use vstd::prelude::*;

verus! {

impl Registry {
    /// The tiers above the active tier, lowest first.
    fn get_higher_tiers(&self) -> (r: Vec<Tier>)
        ensures
            r@ == higher_tiers(self@.active_tier),
    {
        let mut tiers: Vec<Tier> = Vec::new();
        match self.active_tier {
            Tier::Unranked => {
                tiers.push(Tier::Tier1);
                tiers.push(Tier::Tier2);
                tiers.push(Tier::Tier3);
                tiers.push(Tier::Tier4);
            },
            Tier::Tier1 => {
                tiers.push(Tier::Tier2);
                tiers.push(Tier::Tier3);
                tiers.push(Tier::Tier4);
            },
            Tier::Tier2 => {
                tiers.push(Tier::Tier3);
                tiers.push(Tier::Tier4);
            },
            Tier::Tier3 => {
                tiers.push(Tier::Tier4);
            },
            Tier::Tier4 => {},
        }
        assert(tiers@ =~= higher_tiers(self@.active_tier));
        tiers
    }

    /// The tier that the 80% rule would make active: none with fewer than
    /// five tokens, else the lowest tier above the active one that holds at
    /// least 80% of all tokens.
    pub fn should_shift_tier(&self) -> (r: Option<Tier>)
        requires
            self.wf(),
        ensures
            r == self@.shift_due(),
    {
        let total_tokens = self.get_token_count();
        if total_tokens < MIN_TOKENS_FOR_TIER_SHIFT {
            return None;
        }
        let candidates = self.get_higher_tiers();
        let mut i: usize = 0;
        while i < candidates.len()
            invariant
                i <= candidates@.len(),
                candidates@ == higher_tiers(self@.active_tier),
                total_tokens == self@.token_count(),
                total_tokens >= MIN_TOKENS_FOR_TIER_SHIFT,
                forall|j: int|
                    0 <= j < i ==> !holds_supermajority(
                        self@.tier_distribution.count(#[trigger] candidates@[j]),
                        total_tokens,
                    ),
            decreases candidates@.len() - i,
        {
            let check_tier = candidates[i];
            let count = self.tier_distribution.get(check_tier);
            let mut qualifies = false;
            if let Some(percentage_times_100) = count.checked_mul(100) {
                if let Some(percentage) = percentage_times_100.checked_div(total_tokens) {
                    if percentage >= TIER_SHIFT_THRESHOLD_PERCENT {
                        qualifies = true;
                    }
                }
            }
            assert(qualifies == holds_supermajority(count, total_tokens));
            if qualifies {
                proof {
                    let active = self@.active_tier;
                    let listed = higher_tiers(active);
                    assert(forall|j: int|
                        0 <= j < i ==> !holds_supermajority(
                            self@.tier_distribution.count(#[trigger] listed[j]),
                            total_tokens,
                        ));
                    assert(listed[i as int] == check_tier);
                }
                return Some(check_tier);
            }
            i = i + 1;
        }
        proof {
            let listed = higher_tiers(self@.active_tier);
            let counts = self@.tier_distribution;
            assert(forall|j: int|
                0 <= j < listed.len() ==> !holds_supermajority(
                    counts.count(#[trigger] listed[j]),
                    total_tokens,
                ));
            if listed.len() > 0 {
                assert(!holds_supermajority(counts.count(listed[listed.len() - 1]), total_tokens));
            }
            if listed.len() > 1 {
                assert(!holds_supermajority(counts.count(listed[listed.len() - 2]), total_tokens));
            }
            if listed.len() > 2 {
                assert(!holds_supermajority(counts.count(listed[listed.len() - 3]), total_tokens));
            }
            if listed.len() > 3 {
                assert(!holds_supermajority(counts.count(listed[listed.len() - 4]), total_tokens));
            }
        }
        None
    }

    /// Makes `new_tier` the active tier and records the move.
    fn set_active_tier(&mut self, new_tier: Tier, trigger: ShiftTrigger, now: u64)
        requires
            old(self).wf(),
        ensures
            final(self).wf(),
            final(self)@ == old(self)@.with_active_tier(new_tier, trigger, now),
    {
        let old_tier = self.active_tier;
        if old_tier == new_tier {
            return ;
        }
        let total_tokens = self.get_token_count();
        let tokens_qualifying = self.tier_distribution.get(new_tier);
        self.active_tier = new_tier;
        self.last_tier_change = Some(now);
        self.events.push(
            RegistryEvent::ActiveTierShifted(
                ActiveTierShifted {
                    old_tier,
                    new_tier,
                    trigger_reason: trigger,
                    timestamp: now,
                    tokens_qualifying,
                    total_tokens,
                },
            ),
        );
    }

    /// Moves the active tier. The owner may always; anyone may when the reason
    /// given is the 80% rule's own name, `80_percent_rule`. Nothing changes
    /// when `new_tier` is active already.
    pub fn shift_active_tier(
        &mut self,
        caller: AccountId,
        now: u64,
        new_tier: Tier,
        reason: String,
    ) -> (result: Result<(), Error>)
        requires
            old(self).wf(),
        ensures
            final(self).wf(),
            result == if reason@ != "80_percent_rule"@ && caller != old(self)@.owner {
                Err::<(), Error>(Error::Unauthorized)
            } else {
                Ok::<(), Error>(())
            },
            result.is_err() ==> final(self)@ == old(self)@,
            result.is_ok() ==> final(self)@ == old(self)@.with_active_tier(
                new_tier,
                trigger_of(reason),
                now,
            ),
    {
        let rule = "80_percent_rule".to_owned();
        let automatic = reason == rule;
        if !automatic {
            self.ensure_owner(caller)?;
        }
        let trigger = if automatic {
            ShiftTrigger::EightyPercentRule
        } else {
            ShiftTrigger::Manual(reason)
        };
        self.set_active_tier(new_tier, trigger, now);
        Ok(())
    }

    /// Applies the 80% rule.
    pub(super) fn check_and_execute_auto_tier_shift(&mut self, now: u64)
        requires
            old(self).wf(),
        ensures
            final(self).wf(),
            final(self)@ == old(self)@.after_auto_shift(now),
    {
        if let Some(new_tier) = self.should_shift_tier() {
            self.set_active_tier(new_tier, ShiftTrigger::EightyPercentRule, now);
        }
    }

    pub fn get_active_tier(&self) -> (r: Tier)
        ensures
            r == self@.active_tier,
    {
        self.active_tier
    }

    pub fn get_last_tier_change(&self) -> (r: Option<u64>)
        ensures
            r == self@.last_tier_change,
    {
        self.last_tier_change
    }

    /// The number of tokens in each tier, from `Unranked` to `Tier4`.
    pub fn get_tier_distribution(&self) -> (r: Vec<(Tier, u32)>)
        ensures
            r@ == seq![
                (Tier::Unranked, self@.tier_distribution.none),
                (Tier::Tier1, self@.tier_distribution.tier1),
                (Tier::Tier2, self@.tier_distribution.tier2),
                (Tier::Tier3, self@.tier_distribution.tier3),
                (Tier::Tier4, self@.tier_distribution.tier4),
            ],
    {
        let mut distribution: Vec<(Tier, u32)> = Vec::new();
        distribution.push((Tier::Unranked, self.tier_distribution.get(Tier::Unranked)));
        distribution.push((Tier::Tier1, self.tier_distribution.get(Tier::Tier1)));
        distribution.push((Tier::Tier2, self.tier_distribution.get(Tier::Tier2)));
        distribution.push((Tier::Tier3, self.tier_distribution.get(Tier::Tier3)));
        distribution.push((Tier::Tier4, self.tier_distribution.get(Tier::Tier4)));
        assert(distribution@ =~= seq![
            (Tier::Unranked, self@.tier_distribution.none),
            (Tier::Tier1, self@.tier_distribution.tier1),
            (Tier::Tier2, self@.tier_distribution.tier2),
            (Tier::Tier3, self@.tier_distribution.tier3),
            (Tier::Tier4, self@.tier_distribution.tier4),
        ]);
        distribution
    }
}

} // verus!
