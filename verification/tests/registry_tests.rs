use w3pi::feed::{OracleFeed, OracleQuote};
use w3pi::registry::events::{
    ActiveTierShifted, EmergencyTierOverride, GracePeriodStarted, GracePeriodUpdated,
    RegistryEvent, RoleGranted, RoleRevoked, ShiftTrigger, TierChangeReason,
    TierThresholdsUpdated, TokenAdded, TokenRemoved, TokenTierChanged, TokenUpdated,
};
use w3pi::registry::tier::{calculate_tier, Tier, TierDistribution, TierThresholds};
use w3pi::registry::tokens::EnhancedTokenData;
use w3pi::registry::{Registry, DEFAULT_GRACE_PERIOD_MS, MAX_GRACE_PERIOD_MS, MIN_GRACE_PERIOD_MS};
use w3pi::shared::{AccountId, EnrichedTokenData, Error, Role, TokenData};

/// Plancks per USD when no DOT price is quoted.
const RATE: u128 = 2_000_000_000;

fn account(byte: u8) -> AccountId {
    AccountId::from_bytes([byte; 32])
}

fn owner() -> AccountId {
    account(1)
}

fn oracle() -> AccountId {
    account(200)
}

fn token(n: u8) -> AccountId {
    account(10 + n)
}

fn quote(token: AccountId, market_cap: u128, volume: u128) -> OracleQuote {
    OracleQuote {
        oracle: oracle(),
        token,
        price: Some(7),
        market_cap: Some(market_cap),
        market_volume: Some(volume),
    }
}

fn tier1_quote(token: AccountId) -> OracleQuote {
    quote(token, 50_000_000 * RATE, 5_000_000 * RATE)
}

fn tier2_quote(token: AccountId) -> OracleQuote {
    quote(token, 250_000_000 * RATE, 25_000_000 * RATE)
}

fn feed(quotes: Vec<OracleQuote>) -> OracleFeed {
    OracleFeed { quotes }
}

fn silent() -> OracleFeed {
    OracleFeed::new()
}

fn distribution_sum(registry: &Registry) -> u32 {
    registry.get_tier_distribution().iter().map(|entry| entry.1).sum()
}

/// A registry with five tokens, all in tier 1, ids 1 to 5.
fn five_tier1_tokens() -> Registry {
    let mut registry = Registry::new(owner());
    for n in 1..=5u8 {
        let quotes = feed(vec![tier1_quote(token(n))]);
        assert_eq!(registry.add_token(owner(), 100, token(n), oracle(), &quotes), Ok(n as u32));
    }
    registry
}

#[test]
fn new_registry_starts_empty_with_tier1_active() {
    let mut registry = Registry::new(owner());
    assert_eq!(registry.get_owner(), owner());
    assert_eq!(registry.get_token_count(), 0);
    assert_eq!(registry.get_active_tier(), Tier::Tier1);
    assert_eq!(registry.get_last_tier_change(), None);
    assert_eq!(registry.get_dot_usd_oracle(), None);
    assert_eq!(registry.get_grace_period(), DEFAULT_GRACE_PERIOD_MS);
    assert_eq!(registry.get_grace_period(), 7_776_000_000);
    assert_eq!(registry.get_grace_period_days(), 90);
    assert_eq!(registry.get_grace_period_hours(), 2160);
    assert_eq!(registry.get_grace_period_limits(), (3_600_000, 31_536_000_000));
    assert_eq!(registry.get_tier_thresholds(), TierThresholds::default());
    assert_eq!(
        registry.get_tier_distribution(),
        vec![
            (Tier::Unranked, 0),
            (Tier::Tier1, 0),
            (Tier::Tier2, 0),
            (Tier::Tier3, 0),
            (Tier::Tier4, 0)
        ]
    );
    assert!(registry.take_events().is_empty());
}

#[test]
fn default_thresholds_are_the_documented_amounts() {
    let thresholds = TierThresholds::default();
    assert_eq!(thresholds.tier1_market_cap_usd, 50_000_000);
    assert_eq!(thresholds.tier1_volume_usd, 5_000_000);
    assert_eq!(thresholds.tier2_market_cap_usd, 250_000_000);
    assert_eq!(thresholds.tier2_volume_usd, 25_000_000);
    assert_eq!(thresholds.tier3_market_cap_usd, 500_000_000);
    assert_eq!(thresholds.tier3_volume_usd, 50_000_000);
    assert_eq!(thresholds.tier4_market_cap_usd, 2_000_000_000);
    assert_eq!(thresholds.tier4_volume_usd, 200_000_000);
    assert!(thresholds.is_ascending());
    assert_eq!(Tier::default(), Tier::Unranked);
}

#[test]
fn calculate_tier_picks_the_highest_tier_reached() {
    let t = TierThresholds::default();
    assert_eq!(calculate_tier(0, 0, &t, RATE), Tier::Unranked);
    assert_eq!(calculate_tier(50_000_000 * RATE - 1, 5_000_000 * RATE, &t, RATE), Tier::Unranked);
    assert_eq!(calculate_tier(50_000_000 * RATE, 5_000_000 * RATE - 1, &t, RATE), Tier::Unranked);
    assert_eq!(calculate_tier(50_000_000 * RATE, 5_000_000 * RATE, &t, RATE), Tier::Tier1);
    assert_eq!(calculate_tier(250_000_000 * RATE, 25_000_000 * RATE, &t, RATE), Tier::Tier2);
    assert_eq!(calculate_tier(500_000_000 * RATE, 50_000_000 * RATE, &t, RATE), Tier::Tier3);
    assert_eq!(calculate_tier(2_000_000_000 * RATE, 200_000_000 * RATE, &t, RATE), Tier::Tier4);
    assert_eq!(calculate_tier(u128::MAX, u128::MAX, &t, RATE), Tier::Tier4);
    // A large cap does not make up for a small volume.
    assert_eq!(calculate_tier(2_000_000_000 * RATE, 5_000_000 * RATE, &t, RATE), Tier::Tier1);
    assert_eq!(calculate_tier(2_000_000_000 * RATE, 0, &t, RATE), Tier::Unranked);
}

#[test]
fn calculate_tier_saturates_the_conversion() {
    let t = TierThresholds::default();
    // At this rate every converted threshold is the numeric bound.
    assert_eq!(calculate_tier(u128::MAX - 1, u128::MAX, &t, u128::MAX), Tier::Unranked);
    assert_eq!(calculate_tier(u128::MAX, u128::MAX, &t, u128::MAX), Tier::Tier4);
    // At a rate of zero every threshold is zero.
    assert_eq!(calculate_tier(0, 0, &t, 0), Tier::Tier4);
}

#[test]
fn tier_numbers_run_from_zero_to_four() {
    assert_eq!(Tier::Unranked.number(), 0);
    assert_eq!(Tier::Tier1.number(), 1);
    assert_eq!(Tier::Tier2.number(), 2);
    assert_eq!(Tier::Tier3.number(), 3);
    assert_eq!(Tier::Tier4.number(), 4);
}

#[test]
fn tier_distribution_saturates_at_both_ends() {
    let mut d = TierDistribution::new();
    d.decrement(Tier::Tier2);
    assert_eq!(d.get(Tier::Tier2), 0);
    d.increment(Tier::Tier2);
    d.increment(Tier::Tier2);
    d.decrement(Tier::Tier2);
    assert_eq!(d.get(Tier::Tier2), 1);
    assert_eq!(d.get(Tier::Tier1), 0);
    let mut full = TierDistribution { none: u32::MAX, tier1: 0, tier2: 0, tier3: 0, tier4: 0 };
    full.increment(Tier::Unranked);
    assert_eq!(full.get(Tier::Unranked), u32::MAX);
}

#[test]
fn add_token_assigns_ids_from_one() {
    let mut registry = Registry::new(owner());
    let quotes = silent();
    assert_eq!(registry.add_token(owner(), 10, token(1), oracle(), &quotes), Ok(1));
    assert_eq!(registry.add_token(owner(), 11, token(2), oracle(), &quotes), Ok(2));
    assert_eq!(registry.get_token_count(), 2);
    assert!(registry.token_exists(1));
    assert!(registry.token_exists(2));
    assert!(!registry.token_exists(3));
    assert_eq!(registry.get_token_id_by_contract(token(2)), Some(2));
    assert_eq!(registry.get_token_id_by_contract(token(3)), None);
    assert_eq!(
        registry.take_events(),
        vec![
            RegistryEvent::TokenAdded(TokenAdded {
                token_id: 1,
                token_contract: token(1),
                oracle_contract: oracle(),
                initial_tier: Tier::Unranked,
                added_by: owner(),
            }),
            RegistryEvent::TokenAdded(TokenAdded {
                token_id: 2,
                token_contract: token(2),
                oracle_contract: oracle(),
                initial_tier: Tier::Unranked,
                added_by: owner(),
            }),
        ]
    );
}

#[test]
fn add_token_classifies_at_once_without_grace_period() {
    let mut registry = Registry::new(owner());
    let quotes = feed(vec![tier2_quote(token(1))]);
    assert_eq!(registry.add_token(owner(), 10, token(1), oracle(), &quotes), Ok(1));
    assert_eq!(
        registry.get_enhanced_token_data(1),
        Ok(EnhancedTokenData {
            token_contract: token(1),
            oracle_contract: oracle(),
            balance: 0,
            weight_investment: 0,
            tier: Tier::Tier2,
            tier_change_timestamp: None,
            pending_tier_change: None,
        })
    );
    assert_eq!(registry.get_tokens_by_tier(Tier::Tier2), vec![1]);
    assert!(registry.get_tokens_with_pending_changes().is_empty());
}

#[test]
fn add_token_rejects_bad_input_without_changing_anything() {
    let mut registry = Registry::new(owner());
    let quotes = silent();
    assert_eq!(registry.add_token(owner(), 10, token(1), oracle(), &quotes), Ok(1));
    let before = registry.clone();
    assert_eq!(
        registry.add_token(account(9), 10, token(2), oracle(), &quotes),
        Err(Error::UnauthorizedRole)
    );
    assert_eq!(
        registry.add_token(owner(), 10, AccountId::zero(), oracle(), &quotes),
        Err(Error::ZeroAddress)
    );
    assert_eq!(
        registry.add_token(owner(), 10, token(2), AccountId::zero(), &quotes),
        Err(Error::ZeroAddress)
    );
    assert_eq!(
        registry.add_token(owner(), 10, token(1), oracle(), &quotes),
        Err(Error::TokenAlreadyExists)
    );
    assert_eq!(registry, before);
}

#[test]
fn roles_gate_token_management() {
    let mut registry = Registry::new(owner());
    let manager = account(5);
    let updater = account(6);
    let quotes = silent();
    assert_eq!(registry.grant_role(manager, Role::TokenManager, manager), Err(Error::Unauthorized));
    assert_eq!(
        registry.grant_role(owner(), Role::TokenManager, AccountId::zero()),
        Err(Error::ZeroAddress)
    );
    assert_eq!(registry.grant_role(owner(), Role::TokenManager, manager), Ok(()));
    assert_eq!(registry.grant_role(owner(), Role::TokenUpdater, updater), Ok(()));
    assert!(registry.has_role(Role::TokenManager, manager));
    assert!(!registry.has_role(Role::TokenUpdater, manager));
    assert!(!registry.has_role(Role::EmergencyController, manager));
    assert!(registry.has_role(Role::TokenUpdater, updater));
    assert!(!registry.has_role(Role::TokenManager, owner()));

    assert_eq!(registry.add_token(manager, 10, token(1), oracle(), &quotes), Ok(1));
    assert_eq!(
        registry.add_token(updater, 10, token(2), oracle(), &quotes),
        Err(Error::UnauthorizedRole)
    );
    assert_eq!(registry.update_token(updater, 11, 1, 500, 2500, &quotes), Ok(()));
    assert_eq!(
        registry.update_token(manager, 11, 1, 500, 2500, &quotes),
        Err(Error::UnauthorizedRole)
    );
    assert_eq!(registry.process_grace_periods(manager, 12, &quotes), Err(Error::UnauthorizedRole));
    assert_eq!(registry.process_grace_periods(updater, 12, &quotes), Ok(0));
    assert_eq!(registry.refresh_all_tiers(updater, 12, &quotes), Err(Error::UnauthorizedRole));
    assert_eq!(registry.refresh_all_tiers(manager, 12, &quotes), Ok(0));

    assert_eq!(registry.revoke_role(manager, Role::TokenManager, manager), Err(Error::Unauthorized));
    assert_eq!(registry.revoke_role(owner(), Role::TokenManager, manager), Ok(()));
    assert!(!registry.has_role(Role::TokenManager, manager));
    assert_eq!(registry.remove_token(manager, 13, 1), Err(Error::UnauthorizedRole));
    assert_eq!(registry.remove_token(owner(), 13, 1), Ok(()));

    let events = registry.take_events();
    assert_eq!(
        events[0],
        RegistryEvent::RoleGranted(RoleGranted {
            role: Role::TokenManager,
            account: manager,
            granted_by: owner()
        })
    );
    assert!(events.contains(&RegistryEvent::RoleRevoked(RoleRevoked {
        role: Role::TokenManager,
        account: manager,
        revoked_by: owner()
    })));
}

#[test]
fn update_token_validates_weight_and_id() {
    let mut registry = Registry::new(owner());
    let quotes = silent();
    assert_eq!(registry.add_token(owner(), 10, token(1), oracle(), &quotes), Ok(1));
    let before = registry.clone();
    assert_eq!(registry.update_token(owner(), 11, 1, 5, 10001, &quotes), Err(Error::InvalidWeight));
    assert_eq!(registry.update_token(owner(), 11, 7, 5, 10000, &quotes), Err(Error::TokenNotFound));
    assert_eq!(registry, before);
    assert_eq!(registry.update_token(owner(), 11, 1, 5, 10000, &quotes), Ok(()));
    let data = registry.get_enhanced_token_data(1).unwrap();
    assert_eq!(data.balance, 5);
    assert_eq!(data.weight_investment, 10000);
}

#[test]
fn update_token_goes_through_when_the_oracle_is_silent() {
    let mut registry = Registry::new(owner());
    assert_eq!(
        registry.add_token(owner(), 10, token(1), oracle(), &feed(vec![tier2_quote(token(1))])),
        Ok(1)
    );
    registry.take_events();
    assert_eq!(registry.update_token(owner(), 20, 1, 77, 300, &silent()), Ok(()));
    let data = registry.get_enhanced_token_data(1).unwrap();
    assert_eq!(data.tier, Tier::Tier2);
    assert_eq!(data.pending_tier_change, None);
    assert_eq!(data.balance, 77);
    assert_eq!(
        registry.take_events(),
        vec![RegistryEvent::TokenUpdated(TokenUpdated {
            token_id: 1,
            balance: 77,
            weight_investment: 300,
            old_tier: Tier::Tier2,
            new_tier: Tier::Tier2,
            updated_by: owner(),
        })]
    );
}

#[test]
fn grace_period_round_trip() {
    let mut registry = Registry::new(owner());
    let period = registry.get_grace_period();
    assert_eq!(
        registry.add_token(owner(), 1000, token(1), oracle(), &feed(vec![tier1_quote(token(1))])),
        Ok(1)
    );
    registry.take_events();
    let start = 5000u64;
    let risen = feed(vec![tier2_quote(token(1))]);
    assert_eq!(registry.update_token(owner(), start, 1, 0, 0, &risen), Ok(()));
    let data = registry.get_enhanced_token_data(1).unwrap();
    assert_eq!(data.tier, Tier::Tier1);
    assert_eq!(data.pending_tier_change, Some(Tier::Tier2));
    assert_eq!(data.tier_change_timestamp, Some(start));
    assert_eq!(
        registry.take_events()[0],
        RegistryEvent::GracePeriodStarted(GracePeriodStarted {
            token_id: 1,
            current_tier: Tier::Tier1,
            pending_tier: Tier::Tier2,
            grace_end_time: start + period,
        })
    );
    assert_eq!(registry.get_grace_period_end_time(1), Some(start + period));
    assert_eq!(registry.get_grace_period_remaining(1, start + 10), Some(period - 10));
    assert!(!registry.is_grace_period_expired(1, start + period - 1));
    assert!(registry.is_grace_period_expired(1, start + period));
    assert_eq!(registry.get_tokens_with_pending_changes(), vec![(1, Tier::Tier1, Tier::Tier2, start)]);

    // One millisecond early nothing is applied.
    assert_eq!(registry.process_grace_periods(owner(), start + period - 1, &risen), Ok(0));
    assert_eq!(registry.get_enhanced_token_data(1).unwrap().tier, Tier::Tier1);
    assert_eq!(registry.get_tokens_by_tier(Tier::Tier1), vec![1]);
    assert!(registry.take_events().is_empty());

    // At the end of the grace period the pending tier comes into force.
    assert_eq!(registry.process_grace_periods(owner(), start + period, &risen), Ok(1));
    let data = registry.get_enhanced_token_data(1).unwrap();
    assert_eq!(data.tier, Tier::Tier2);
    assert_eq!(data.pending_tier_change, None);
    assert_eq!(data.tier_change_timestamp, Some(start + period));
    assert_eq!(registry.get_tokens_by_tier(Tier::Tier2), vec![1]);
    assert!(registry.get_tokens_by_tier(Tier::Tier1).is_empty());
    assert_eq!(
        registry.take_events(),
        vec![RegistryEvent::TokenTierChanged(TokenTierChanged {
            token_id: 1,
            token_contract: token(1),
            old_tier: Tier::Tier1,
            new_tier: Tier::Tier2,
            market_cap: 250_000_000 * RATE,
            volume: 25_000_000 * RATE,
            reason: TierChangeReason::GracePeriodEnded,
        })]
    );
}

#[test]
fn process_grace_periods_is_idempotent() {
    let mut registry = five_tier1_tokens();
    let risen = feed(vec![tier2_quote(token(1)), tier2_quote(token(3))]);
    assert_eq!(registry.refresh_all_tiers(owner(), 200, &risen), Ok(2));
    let period = registry.get_grace_period();
    assert_eq!(registry.process_grace_periods(owner(), 200 + period, &risen), Ok(2));
    let after_first = registry.clone();
    assert_eq!(registry.process_grace_periods(owner(), 200 + period, &risen), Ok(0));
    assert_eq!(registry, after_first);
    assert_eq!(registry.process_grace_periods(owner(), 200 + period, &silent()), Ok(0));
    assert_eq!(registry, after_first);
    assert_eq!(registry.get_tokens_by_tier(Tier::Tier2), vec![1, 3]);
    assert_eq!(registry.get_tokens_by_tier(Tier::Tier1), vec![2, 4, 5]);
}

#[test]
fn refresh_all_tiers_parks_changed_tiers() {
    let mut registry = five_tier1_tokens();
    registry.take_events();
    let quotes = feed(vec![
        tier2_quote(token(2)),
        tier1_quote(token(3)),
        quote(token(4), 0, 0),
    ]);
    assert_eq!(registry.refresh_all_tiers(owner(), 300, &quotes), Ok(2));
    assert_eq!(
        registry.get_tokens_with_pending_changes(),
        vec![(2, Tier::Tier1, Tier::Tier2, 300), (4, Tier::Tier1, Tier::Unranked, 300)]
    );
    // The tiers in force have not moved.
    assert_eq!(registry.get_tokens_by_tier(Tier::Tier1), vec![1, 2, 3, 4, 5]);
    let period = registry.get_grace_period();
    assert_eq!(
        registry.take_events(),
        vec![
            RegistryEvent::GracePeriodStarted(GracePeriodStarted {
                token_id: 2,
                current_tier: Tier::Tier1,
                pending_tier: Tier::Tier2,
                grace_end_time: 300 + period,
            }),
            RegistryEvent::GracePeriodStarted(GracePeriodStarted {
                token_id: 4,
                current_tier: Tier::Tier1,
                pending_tier: Tier::Unranked,
                grace_end_time: 300 + period,
            }),
        ]
    );
}

#[test]
fn eighty_percent_rule() {
    let mut registry = five_tier1_tokens();
    assert_eq!(registry.get_active_tier(), Tier::Tier1);
    assert_eq!(registry.should_shift_tier(), None);
    for id in 1..=3u32 {
        assert_eq!(
            registry.emergency_tier_override(owner(), 500, id, Tier::Tier2, "test".into(), &silent()),
            Ok(())
        );
    }
    // Three of five are 60%.
    assert_eq!(registry.should_shift_tier(), None);
    assert_eq!(
        registry.emergency_tier_override(owner(), 500, 4, Tier::Tier2, "test".into(), &silent()),
        Ok(())
    );
    // Four of five are 80%.
    assert_eq!(registry.should_shift_tier(), Some(Tier::Tier2));
    assert_eq!(registry.get_active_tier(), Tier::Tier1);
}

#[test]
fn eighty_percent_rule_needs_five_tokens() {
    let mut registry = Registry::new(owner());
    for n in 1..=4u8 {
        let quotes = feed(vec![tier2_quote(token(n))]);
        assert_eq!(registry.add_token(owner(), 100, token(n), oracle(), &quotes), Ok(n as u32));
    }
    assert_eq!(registry.should_shift_tier(), None);
    assert_eq!(registry.get_active_tier(), Tier::Tier1);
}

#[test]
fn eighty_percent_rule_picks_the_lowest_higher_tier() {
    let mut registry = five_tier1_tokens();
    for id in 1..=5u32 {
        assert_eq!(
            registry.emergency_tier_override(owner(), 500, id, Tier::Tier3, "test".into(), &silent()),
            Ok(())
        );
    }
    assert_eq!(registry.should_shift_tier(), Some(Tier::Tier3));
    // Tiers at or below the active tier are not looked at.
    assert_eq!(
        registry.shift_active_tier(owner(), 600, Tier::Tier4, "manual".into()),
        Ok(())
    );
    assert_eq!(registry.should_shift_tier(), None);
}

#[test]
fn adding_the_fifth_token_shifts_the_active_tier() {
    let mut registry = Registry::new(owner());
    for n in 1..=4u8 {
        let quotes = feed(vec![tier2_quote(token(n))]);
        assert_eq!(registry.add_token(owner(), 100, token(n), oracle(), &quotes), Ok(n as u32));
    }
    registry.take_events();
    assert_eq!(
        registry.add_token(owner(), 700, token(5), oracle(), &feed(vec![tier1_quote(token(5))])),
        Ok(5)
    );
    assert_eq!(registry.get_active_tier(), Tier::Tier2);
    assert_eq!(registry.get_last_tier_change(), Some(700));
    assert_eq!(
        registry.take_events(),
        vec![
            RegistryEvent::ActiveTierShifted(ActiveTierShifted {
                old_tier: Tier::Tier1,
                new_tier: Tier::Tier2,
                trigger_reason: ShiftTrigger::EightyPercentRule,
                timestamp: 700,
                tokens_qualifying: 4,
                total_tokens: 5,
            }),
            RegistryEvent::TokenAdded(TokenAdded {
                token_id: 5,
                token_contract: token(5),
                oracle_contract: oracle(),
                initial_tier: Tier::Tier1,
                added_by: owner(),
            }),
        ]
    );
    assert_eq!(registry.should_shift_tier(), None);
}

#[test]
fn shift_active_tier_is_owner_gated_unless_automatic() {
    let mut registry = Registry::new(owner());
    let stranger = account(9);
    assert_eq!(
        registry.shift_active_tier(stranger, 10, Tier::Tier3, "manual_override".into()),
        Err(Error::Unauthorized)
    );
    assert_eq!(registry.get_active_tier(), Tier::Tier1);
    assert_eq!(
        registry.shift_active_tier(stranger, 10, Tier::Tier3, "80_percent_rule".into()),
        Ok(())
    );
    assert_eq!(registry.get_active_tier(), Tier::Tier3);
    assert_eq!(registry.get_last_tier_change(), Some(10));
    // Shifting to the active tier changes nothing.
    assert_eq!(registry.shift_active_tier(owner(), 20, Tier::Tier3, "again".into()), Ok(()));
    assert_eq!(registry.get_last_tier_change(), Some(10));
    assert_eq!(registry.shift_active_tier(owner(), 30, Tier::Tier2, "back".into()), Ok(()));
    assert_eq!(
        registry.take_events(),
        vec![
            RegistryEvent::ActiveTierShifted(ActiveTierShifted {
                old_tier: Tier::Tier1,
                new_tier: Tier::Tier3,
                trigger_reason: ShiftTrigger::EightyPercentRule,
                timestamp: 10,
                tokens_qualifying: 0,
                total_tokens: 0,
            }),
            RegistryEvent::ActiveTierShifted(ActiveTierShifted {
                old_tier: Tier::Tier3,
                new_tier: Tier::Tier2,
                trigger_reason: ShiftTrigger::Manual("back".into()),
                timestamp: 30,
                tokens_qualifying: 0,
                total_tokens: 0,
            }),
        ]
    );
}

#[test]
fn distribution_counts_every_token() {
    let mut registry = Registry::new(owner());
    assert_eq!(distribution_sum(&registry), registry.get_token_count());
    for n in 1..=6u8 {
        let quotes = if n % 2 == 0 {
            feed(vec![tier2_quote(token(n))])
        } else {
            feed(vec![tier1_quote(token(n))])
        };
        registry.add_token(owner(), 100, token(n), oracle(), &quotes).unwrap();
        assert_eq!(distribution_sum(&registry), registry.get_token_count());
    }
    registry.remove_token(owner(), 110, 2).unwrap();
    assert_eq!(registry.get_token_count(), 5);
    assert_eq!(distribution_sum(&registry), 5);
    registry
        .emergency_tier_override(owner(), 120, 1, Tier::Tier4, "override".into(), &silent())
        .unwrap();
    assert_eq!(distribution_sum(&registry), 5);
    registry.refresh_all_tiers(owner(), 130, &feed(vec![tier2_quote(token(3))])).unwrap();
    let period = registry.get_grace_period();
    assert_eq!(registry.process_grace_periods(owner(), 130 + period, &silent()), Ok(1));
    assert_eq!(distribution_sum(&registry), 5);
    assert_eq!(
        registry.get_tier_distribution(),
        vec![
            (Tier::Unranked, 0),
            (Tier::Tier1, 1),
            (Tier::Tier2, 3),
            (Tier::Tier3, 0),
            (Tier::Tier4, 1)
        ]
    );
    // Ids are not given out again.
    assert_eq!(registry.add_token(owner(), 140, token(2), oracle(), &silent()), Ok(7));
    assert_eq!(distribution_sum(&registry), 6);
    assert_eq!(registry.get_token_count(), 6);
}

#[test]
fn remove_token_forgets_the_contract() {
    let mut registry = Registry::new(owner());
    registry.add_token(owner(), 1, token(1), oracle(), &feed(vec![tier1_quote(token(1))])).unwrap();
    registry.take_events();
    assert_eq!(registry.remove_token(owner(), 2, 9), Err(Error::TokenNotFound));
    assert_eq!(registry.remove_token(owner(), 2, 1), Ok(()));
    assert!(!registry.token_exists(1));
    assert_eq!(registry.get_token_id_by_contract(token(1)), None);
    assert_eq!(registry.get_enhanced_token_data(1), Err(Error::TokenNotFound));
    assert_eq!(
        registry.take_events(),
        vec![RegistryEvent::TokenRemoved(TokenRemoved {
            token_id: 1,
            token_contract: token(1),
            tier: Tier::Tier1,
            removed_by: owner(),
        })]
    );
    assert_eq!(registry.add_token(owner(), 3, token(1), oracle(), &silent()), Ok(2));
}

#[test]
fn emergency_override_applies_at_once_and_clears_pending() {
    let mut registry = Registry::new(owner());
    let quotes = feed(vec![tier1_quote(token(1))]);
    registry.add_token(owner(), 1, token(1), oracle(), &quotes).unwrap();
    registry.update_token(owner(), 2, 1, 0, 0, &feed(vec![tier2_quote(token(1))])).unwrap();
    assert_eq!(registry.get_enhanced_token_data(1).unwrap().pending_tier_change, Some(Tier::Tier2));
    registry.take_events();

    assert_eq!(
        registry.emergency_tier_override(account(9), 3, 1, Tier::Tier4, "no".into(), &quotes),
        Err(Error::Unauthorized)
    );
    assert_eq!(
        registry.emergency_tier_override(owner(), 3, 5, Tier::Tier4, "no".into(), &quotes),
        Err(Error::TokenNotFound)
    );
    assert_eq!(
        registry.emergency_tier_override(owner(), 3, 1, Tier::Tier4, "hack".into(), &quotes),
        Ok(())
    );
    let data = registry.get_enhanced_token_data(1).unwrap();
    assert_eq!(data.tier, Tier::Tier4);
    assert_eq!(data.pending_tier_change, None);
    assert_eq!(data.tier_change_timestamp, Some(3));
    assert_eq!(
        registry.take_events(),
        vec![
            RegistryEvent::EmergencyTierOverride(EmergencyTierOverride {
                token_id: 1,
                token_contract: token(1),
                old_tier: Tier::Tier1,
                new_tier: Tier::Tier4,
                overridden_by: owner(),
                timestamp: 3,
                reason: "hack".into(),
            }),
            RegistryEvent::TokenTierChanged(TokenTierChanged {
                token_id: 1,
                token_contract: token(1),
                old_tier: Tier::Tier1,
                new_tier: Tier::Tier4,
                market_cap: 50_000_000 * RATE,
                volume: 5_000_000 * RATE,
                reason: TierChangeReason::EmergencyOverride,
            }),
        ]
    );
    // Overriding to the tier in force changes nothing.
    let before = registry.clone();
    assert_eq!(
        registry.emergency_tier_override(owner(), 4, 1, Tier::Tier4, "again".into(), &quotes),
        Ok(())
    );
    assert_eq!(registry, before);
}

#[test]
fn emergency_override_to_calculated_needs_the_oracle() {
    let mut registry = Registry::new(owner());
    registry.add_token(owner(), 1, token(1), oracle(), &silent()).unwrap();
    assert_eq!(
        registry.emergency_tier_override_to_calculated(owner(), 2, 1, "r".into(), &silent()),
        Err(Error::OracleCallFailed)
    );
    assert_eq!(
        registry.emergency_tier_override_to_calculated(account(9), 2, 1, "r".into(), &silent()),
        Err(Error::Unauthorized)
    );
    assert_eq!(
        registry.emergency_tier_override_to_calculated(owner(), 2, 4, "r".into(), &silent()),
        Err(Error::TokenNotFound)
    );
    assert_eq!(
        registry.emergency_tier_override_to_calculated(
            owner(),
            2,
            1,
            "r".into(),
            &feed(vec![tier2_quote(token(1))])
        ),
        Ok(Tier::Tier2)
    );
    assert_eq!(registry.get_enhanced_token_data(1).unwrap().tier, Tier::Tier2);
    assert_eq!(registry.get_tier_distribution()[2], (Tier::Tier2, 1));
    assert_eq!(registry.get_tier_distribution()[0], (Tier::Unranked, 0));
}

#[test]
fn update_token_tier_parks_the_calculated_tier() {
    let mut registry = Registry::new(owner());
    registry.add_token(owner(), 1, token(1), oracle(), &feed(vec![tier1_quote(token(1))])).unwrap();
    assert_eq!(registry.update_token_tier(owner(), 2, 1, &silent()), Err(Error::OracleCallFailed));
    assert_eq!(registry.update_token_tier(owner(), 2, 3, &silent()), Err(Error::TokenNotFound));
    assert_eq!(
        registry.update_token_tier(account(9), 2, 1, &silent()),
        Err(Error::UnauthorizedRole)
    );
    assert_eq!(
        registry.update_token_tier(owner(), 2, 1, &feed(vec![tier2_quote(token(1))])),
        Ok(Tier::Tier1)
    );
    assert_eq!(registry.get_tokens_with_pending_changes(), vec![(1, Tier::Tier1, Tier::Tier2, 2)]);
    assert_eq!(
        registry.calculate_token_tier(1, &feed(vec![tier2_quote(token(1))])),
        Ok(Tier::Tier2)
    );
    assert_eq!(registry.calculate_token_tier(1, &silent()), Err(Error::OracleCallFailed));
    assert_eq!(registry.calculate_token_tier(2, &silent()), Err(Error::TokenNotFound));
}

#[test]
fn clear_pending_tier_change_drops_the_pending_tier() {
    let mut registry = Registry::new(owner());
    registry.add_token(owner(), 1, token(1), oracle(), &feed(vec![tier1_quote(token(1))])).unwrap();
    registry.update_token(owner(), 2, 1, 0, 0, &feed(vec![tier2_quote(token(1))])).unwrap();
    assert_eq!(registry.clear_pending_tier_change(account(9), 1), Err(Error::Unauthorized));
    assert_eq!(registry.clear_pending_tier_change(owner(), 2), Err(Error::TokenNotFound));
    assert_eq!(registry.clear_pending_tier_change(owner(), 1), Ok(()));
    let data = registry.get_enhanced_token_data(1).unwrap();
    assert_eq!(data.pending_tier_change, None);
    assert_eq!(data.tier_change_timestamp, None);
    assert_eq!(data.tier, Tier::Tier1);
    assert_eq!(registry.get_grace_period_end_time(1), None);
    assert_eq!(registry.get_grace_period_remaining(1, 5), None);
    assert!(!registry.is_grace_period_expired(1, u64::MAX));
    let period = registry.get_grace_period();
    assert_eq!(registry.process_grace_periods(owner(), 2 + period, &silent()), Ok(0));
}

#[test]
fn set_grace_period_keeps_within_bounds() {
    let mut registry = Registry::new(owner());
    assert_eq!(registry.set_grace_period(account(9), 5, MIN_GRACE_PERIOD_MS), Err(Error::Unauthorized));
    assert_eq!(
        registry.set_grace_period(owner(), 5, MIN_GRACE_PERIOD_MS - 1),
        Err(Error::InvalidParameter)
    );
    assert_eq!(
        registry.set_grace_period(owner(), 5, MAX_GRACE_PERIOD_MS + 1),
        Err(Error::InvalidParameter)
    );
    assert_eq!(registry.get_grace_period(), DEFAULT_GRACE_PERIOD_MS);
    assert_eq!(registry.set_grace_period(owner(), 5, MIN_GRACE_PERIOD_MS), Ok(()));
    assert_eq!(registry.get_grace_period_hours(), 1);
    assert_eq!(registry.get_grace_period_days(), 0);
    assert_eq!(registry.set_grace_period(owner(), 6, MAX_GRACE_PERIOD_MS), Ok(()));
    assert_eq!(registry.get_grace_period_days(), 365);
    assert_eq!(
        registry.take_events(),
        vec![
            RegistryEvent::GracePeriodUpdated(GracePeriodUpdated {
                old_period_ms: DEFAULT_GRACE_PERIOD_MS,
                new_period_ms: MIN_GRACE_PERIOD_MS,
                updated_by: owner(),
                timestamp: 5,
            }),
            RegistryEvent::GracePeriodUpdated(GracePeriodUpdated {
                old_period_ms: MIN_GRACE_PERIOD_MS,
                new_period_ms: MAX_GRACE_PERIOD_MS,
                updated_by: owner(),
                timestamp: 6,
            }),
        ]
    );
}

#[test]
fn a_shorter_grace_period_applies_to_pending_changes() {
    let mut registry = Registry::new(owner());
    registry.add_token(owner(), 1, token(1), oracle(), &feed(vec![tier1_quote(token(1))])).unwrap();
    registry.update_token(owner(), 1000, 1, 0, 0, &feed(vec![tier2_quote(token(1))])).unwrap();
    registry.set_grace_period(owner(), 1001, MIN_GRACE_PERIOD_MS).unwrap();
    assert_eq!(
        registry.process_grace_periods(owner(), 1000 + MIN_GRACE_PERIOD_MS - 1, &silent()),
        Ok(0)
    );
    assert_eq!(registry.process_grace_periods(owner(), 1000 + MIN_GRACE_PERIOD_MS, &silent()), Ok(1));
    // A clock that runs backwards never ends a grace period.
    registry.update_token(owner(), 9_000_000_000, 1, 0, 0, &feed(vec![tier1_quote(token(1))])).unwrap();
    assert_eq!(registry.process_grace_periods(owner(), 0, &silent()), Ok(0));
}

#[test]
fn set_tier_thresholds_requires_ascending_values() {
    let mut registry = Registry::new(owner());
    let mut thresholds = TierThresholds::default();
    thresholds.tier2_market_cap_usd = thresholds.tier1_market_cap_usd;
    assert_eq!(
        registry.set_tier_thresholds(owner(), 1, thresholds, &silent()),
        Err(Error::InvalidParameter)
    );
    let mut thresholds = TierThresholds::default();
    thresholds.tier4_volume_usd = thresholds.tier3_volume_usd;
    assert_eq!(
        registry.set_tier_thresholds(owner(), 1, thresholds, &silent()),
        Err(Error::InvalidParameter)
    );
    assert_eq!(
        registry.set_tier_thresholds(account(9), 1, TierThresholds::default(), &silent()),
        Err(Error::Unauthorized)
    );
    let halved = TierThresholds {
        tier1_market_cap_usd: 25_000_000,
        tier1_volume_usd: 2_500_000,
        tier2_market_cap_usd: 125_000_000,
        tier2_volume_usd: 12_500_000,
        tier3_market_cap_usd: 250_000_000,
        tier3_volume_usd: 25_000_000,
        tier4_market_cap_usd: 1_000_000_000,
        tier4_volume_usd: 100_000_000,
    };
    assert_eq!(registry.set_tier_thresholds(owner(), 7, halved, &silent()), Ok(()));
    assert_eq!(registry.get_tier_thresholds(), halved);
    assert_eq!(
        registry.take_events(),
        vec![RegistryEvent::TierThresholdsUpdated(TierThresholdsUpdated {
            updated_by: owner(),
            timestamp: 7,
            new_usd_rate: 0,
        })]
    );
    registry.add_token(owner(), 8, token(1), oracle(), &feed(vec![tier1_quote(token(1))])).unwrap();
    registry.add_token(owner(), 8, token(2), oracle(), &feed(vec![tier2_quote(token(2))])).unwrap();
    assert_eq!(registry.get_enhanced_token_data(1).unwrap().tier, Tier::Tier1);
    assert_eq!(registry.get_enhanced_token_data(2).unwrap().tier, Tier::Tier3);
}

#[test]
fn usd_rate_comes_from_the_dot_oracle() {
    let mut registry = Registry::new(owner());
    let dot_oracle = account(201);
    let dot_quote = |price: Option<u128>| OracleQuote {
        oracle: dot_oracle,
        token: AccountId::dot_token(),
        price,
        market_cap: None,
        market_volume: None,
    };
    assert_eq!(registry.get_current_usd_rate(&feed(vec![dot_quote(Some(5))])), None);
    assert_eq!(registry.set_dot_usd_oracle(account(9), dot_oracle), Err(Error::Unauthorized));
    assert_eq!(registry.set_dot_usd_oracle(owner(), AccountId::zero()), Err(Error::ZeroAddress));
    assert_eq!(registry.set_dot_usd_oracle(owner(), dot_oracle), Ok(()));
    assert_eq!(registry.get_dot_usd_oracle(), Some(dot_oracle));
    assert_eq!(
        registry.get_current_usd_rate(&feed(vec![dot_quote(Some(5))])),
        Some(2_000_000_000)
    );
    assert_eq!(
        registry.get_current_usd_rate(&feed(vec![dot_quote(Some(3))])),
        Some(3_333_333_333)
    );
    assert_eq!(registry.get_current_usd_rate(&feed(vec![dot_quote(Some(0))])), None);
    assert_eq!(registry.get_current_usd_rate(&feed(vec![dot_quote(None)])), None);
    assert_eq!(registry.get_current_usd_rate(&silent()), None);

    // At 10 plancks per DOT-USD unit one USD is 1_000_000_000 plancks: half
    // the fallback rate, so half the market data reaches the same tier.
    let cheap = feed(vec![
        dot_quote(Some(10)),
        quote(token(1), 25_000_000 * RATE, 2_500_000 * RATE),
    ]);
    assert_eq!(registry.add_token(owner(), 1, token(1), oracle(), &cheap), Ok(1));
    assert_eq!(registry.get_enhanced_token_data(1).unwrap().tier, Tier::Tier1);
    let at_fallback = feed(vec![quote(token(2), 25_000_000 * RATE, 2_500_000 * RATE)]);
    assert_eq!(registry.add_token(owner(), 1, token(2), oracle(), &at_fallback), Ok(2));
    assert_eq!(registry.get_enhanced_token_data(2).unwrap().tier, Tier::Unranked);
}

#[test]
fn get_token_data_fills_in_what_the_oracle_answers() {
    let mut registry = Registry::new(owner());
    registry.add_token(owner(), 1, token(1), oracle(), &feed(vec![tier2_quote(token(1))])).unwrap();
    registry.update_token(owner(), 2, 1, 1234, 4000, &silent()).unwrap();
    assert_eq!(
        registry.get_token_data(1, &feed(vec![tier1_quote(token(1))])),
        Ok(EnrichedTokenData {
            token_contract: token(1),
            oracle_contract: oracle(),
            balance: 1234,
            weight_investment: 4000,
            tier: 2,
            market_cap: 50_000_000 * RATE,
            market_volume: 5_000_000 * RATE,
            price: 7,
        })
    );
    let partial = feed(vec![OracleQuote {
        oracle: oracle(),
        token: token(1),
        price: None,
        market_cap: Some(9),
        market_volume: None,
    }]);
    assert_eq!(
        registry.get_token_data(1, &partial),
        Ok(EnrichedTokenData {
            token_contract: token(1),
            oracle_contract: oracle(),
            balance: 1234,
            weight_investment: 4000,
            tier: 2,
            market_cap: 9,
            market_volume: 0,
            price: 0,
        })
    );
    assert_eq!(registry.get_token_data(1, &silent()).unwrap().price, 0);
    assert_eq!(registry.get_token_data(2, &silent()), Err(Error::TokenNotFound));
    assert_eq!(
        registry.get_basic_token_data(1),
        Ok(TokenData {
            token_contract: token(1),
            oracle_contract: oracle(),
            balance: 1234,
            weight_investment: 4000,
            tier: 2,
        })
    );
    assert_eq!(registry.get_basic_token_data(2), Err(Error::TokenNotFound));
}

#[test]
fn market_data_needs_both_cap_and_volume() {
    let half = feed(vec![OracleQuote {
        oracle: oracle(),
        token: token(1),
        price: Some(1),
        market_cap: Some(5),
        market_volume: None,
    }]);
    assert_eq!(Registry::get_market_data_from_oracle(&half, token(1), oracle()), None);
    let both = feed(vec![quote(token(1), 5, 6)]);
    assert_eq!(Registry::get_market_data_from_oracle(&both, token(1), oracle()), Some((5, 6)));
    // The quote of another oracle does not count.
    assert_eq!(Registry::get_market_data_from_oracle(&both, token(1), account(99)), None);
}

#[test]
fn enhanced_token_data_from_token_data_starts_unranked() {
    let data = EnhancedTokenData::from(TokenData {
        token_contract: token(1),
        oracle_contract: oracle(),
        balance: 5,
        weight_investment: 6,
        tier: 3,
    });
    assert_eq!(
        data,
        EnhancedTokenData {
            token_contract: token(1),
            oracle_contract: oracle(),
            balance: 5,
            weight_investment: 6,
            tier: Tier::Unranked,
            tier_change_timestamp: None,
            pending_tier_change: None,
        }
    );
}

#[test]
fn tier_change_reasons_have_their_words() {
    assert_eq!(TierChangeReason::Manual.as_str(), "manual");
    assert_eq!(TierChangeReason::Scheduled.as_str(), "scheduled");
    assert_eq!(TierChangeReason::Automatic.as_str(), "automatic");
    assert_eq!(TierChangeReason::ManualOverride.as_str(), "manual_override");
    assert_eq!(TierChangeReason::Emergency.as_str(), "emergency");
    assert_eq!(TierChangeReason::GracePeriodEnded.as_str(), "grace_period_ended");
    assert_eq!(TierChangeReason::EmergencyOverride.as_str(), "emergency_override");
    assert!(TierChangeReason::ManualOverride.immediate());
    assert!(TierChangeReason::Emergency.immediate());
    assert!(!TierChangeReason::Automatic.immediate());
}

#[test]
fn add_token_raises_only_the_count_of_its_tier() {
    let mut registry = Registry::new(owner());
    registry.add_token(owner(), 100, token(1), oracle(), &feed(vec![tier1_quote(token(1))])).unwrap();
    registry.add_token(owner(), 100, token(2), oracle(), &silent()).unwrap();
    let before = registry.get_tier_distribution();
    assert_eq!(
        registry.add_token(owner(), 100, token(3), oracle(), &feed(vec![tier2_quote(token(3))])),
        Ok(3)
    );
    let after = registry.get_tier_distribution();
    for (was, is) in before.iter().zip(after.iter()) {
        assert_eq!(was.0, is.0);
        let grown = if is.0 == Tier::Tier2 { 1 } else { 0 };
        assert_eq!(is.1, was.1 + grown);
    }
    assert_eq!(distribution_sum(&registry), 3);
    assert_eq!(registry.get_token_count(), 3);
}

#[test]
fn a_parked_change_leaves_the_distribution_alone() {
    let mut registry = Registry::new(owner());
    registry.add_token(owner(), 100, token(1), oracle(), &feed(vec![tier1_quote(token(1))])).unwrap();
    registry.add_token(owner(), 100, token(2), oracle(), &feed(vec![tier1_quote(token(2))])).unwrap();
    registry.take_events();
    let before = registry.get_tier_distribution();
    let period = registry.get_grace_period();
    assert_eq!(
        registry.update_token(owner(), 7000, 2, 0, 0, &feed(vec![tier2_quote(token(2))])),
        Ok(())
    );
    assert_eq!(registry.get_tier_distribution(), before);
    assert_eq!(registry.get_tokens_by_tier(Tier::Tier1), vec![1, 2]);
    let started: Vec<RegistryEvent> = registry
        .take_events()
        .into_iter()
        .filter(|event| matches!(event, RegistryEvent::GracePeriodStarted(_)))
        .collect();
    assert_eq!(
        started,
        vec![RegistryEvent::GracePeriodStarted(GracePeriodStarted {
            token_id: 2,
            current_tier: Tier::Tier1,
            pending_tier: Tier::Tier2,
            grace_end_time: 7000 + period,
        })]
    );
    let data = registry.get_enhanced_token_data(2).unwrap();
    assert_eq!(data.tier, Tier::Tier1);
    assert_eq!(data.pending_tier_change, Some(Tier::Tier2));
    assert_eq!(data.tier_change_timestamp, Some(7000));
    assert_eq!(registry.get_enhanced_token_data(1).unwrap().pending_tier_change, None);
}
