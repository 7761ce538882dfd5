use w3pi::feed::{RegistryFeed, TierAnswer, TokenAnswer};
use w3pi::portfolio::events::{
    BasePortfolioValueSet, ContractReferenceUpdated, EmergencyPause, FeeConfigurationUpdated,
    IndexValueUpdated, OperationFailed, PortfolioEvent, PortfolioInitialized,
    PortfolioStateChanged, TokenHoldingAdded, TokenHoldingRemoved, TokenHoldingUpdated,
};
use w3pi::portfolio::holdings::TokenHolding;
use w3pi::portfolio::{
    FeeConfiguration, Portfolio, PortfolioComposition, PortfolioState, INDEX_BASE_VALUE,
};
use w3pi::shared::{AccountId, EnrichedTokenData, Error};

fn account(byte: u8) -> AccountId {
    AccountId::from_bytes([byte; 32])
}

fn owner() -> AccountId {
    account(1)
}

fn stranger() -> AccountId {
    account(9)
}

fn token_data(price: u128) -> EnrichedTokenData {
    EnrichedTokenData {
        token_contract: account(50),
        oracle_contract: account(60),
        balance: 0,
        weight_investment: 0,
        tier: 1,
        market_cap: 11,
        market_volume: 12,
        price,
    }
}

fn priced(prices: &[(u32, u128)]) -> RegistryFeed {
    RegistryFeed {
        tokens: prices
            .iter()
            .map(|(id, price)| TokenAnswer { token_id: *id, answer: Ok(token_data(*price)) })
            .collect(),
        active_tier: None,
        tiers: vec![],
    }
}

fn silent() -> RegistryFeed {
    RegistryFeed::new()
}

/// A portfolio that knows its registry.
fn portfolio() -> Portfolio {
    let mut portfolio = Portfolio::new(owner(), 1000);
    portfolio.set_registry_contract(owner(), 1000, account(70)).unwrap();
    portfolio.take_events();
    portfolio
}

#[test]
fn new_portfolio_is_empty_and_active() {
    let mut portfolio = Portfolio::new(owner(), 1000);
    assert_eq!(portfolio.get_owner(), owner());
    assert_eq!(portfolio.get_state(), PortfolioState::Active);
    assert_eq!(PortfolioState::default(), PortfolioState::Active);
    assert_eq!(portfolio.ensure_active(), Ok(()));
    assert_eq!(portfolio.get_deployment_timestamp(), 1000);
    assert_eq!(portfolio.get_total_tokens_held(), 0);
    assert!(portfolio.get_held_token_ids().is_empty());
    assert!(!portfolio.is_emergency_paused());
    assert!(!portfolio.has_holdings());
    assert_eq!(
        portfolio.get_fee_config(),
        FeeConfiguration { buy_fee_bp: 55, sell_fee_bp: 95, streaming_fee_bp: 195 }
    );
    assert_eq!(portfolio.get_fee_config(), FeeConfiguration::default());
    assert_eq!(portfolio.get_total_fees_collected(), 0);
    assert_eq!(portfolio.get_registry_contract(), None);
    assert_eq!(portfolio.get_token_contract(), None);
    assert_eq!(portfolio.get_dex_contract(), None);
    assert_eq!(portfolio.get_oracle_contract(), None);
    assert_eq!(portfolio.get_max_tokens(), 50);
    assert_eq!(INDEX_BASE_VALUE, 100_000_000_000);
    assert_eq!(portfolio.get_current_index_value(), 100_000_000_000);
    assert!(!portfolio.is_index_tracking_enabled());
    assert_eq!(portfolio.get_index_base_metrics(), (100_000_000_000, 0, 1000, false));
    assert_eq!(portfolio.get_portfolio_stats(), (0, 0, 50));
    assert_eq!(portfolio.get_remaining_weight_capacity(), 10000);
    assert_eq!(
        portfolio.take_events(),
        vec![PortfolioEvent::PortfolioInitialized(PortfolioInitialized {
            owner: owner(),
            deployment_timestamp: 1000,
            index_base_value: 100_000_000_000,
            initial_state: PortfolioState::Active,
        })]
    );
    assert_eq!(TokenHolding::default().amount, 0);
}

#[test]
fn add_update_and_remove_a_holding() {
    let mut p = portfolio();
    assert_eq!(p.add_token_holding(owner(), 2000, 7, 500, 3000, &silent()), Ok(()));
    assert!(p.holds_token(7));
    assert!(!p.holds_token(8));
    assert_eq!(
        p.get_token_holding(7),
        Some(TokenHolding { amount: 500, target_weight_bp: 3000, last_rebalance: 2000, fees_collected: 0 })
    );
    assert_eq!(p.get_token_amount(7), 500);
    assert_eq!(p.get_token_target_weight(7), 3000);
    assert_eq!(p.get_token_amount(8), 0);
    assert_eq!(p.get_token_target_weight(8), 0);
    assert_eq!(p.get_total_tokens_held(), 1);
    assert!(p.has_holdings());

    assert_eq!(p.update_token_holding(owner(), 3000, 7, 0, 10000, &silent()), Ok(()));
    assert_eq!(
        p.get_token_holding(7),
        Some(TokenHolding { amount: 0, target_weight_bp: 10000, last_rebalance: 3000, fees_collected: 0 })
    );
    assert_eq!(p.remove_token_holding(owner(), 4000, 7, &silent()), Ok(()));
    assert_eq!(p.get_token_holding(7), None);
    assert_eq!(p.get_total_tokens_held(), 0);
    assert_eq!(
        p.take_events(),
        vec![
            PortfolioEvent::TokenHoldingAdded(TokenHoldingAdded {
                token_id: 7,
                amount: 500,
                target_weight_bp: 3000,
                added_by: owner(),
                timestamp: 2000,
            }),
            PortfolioEvent::TokenHoldingUpdated(TokenHoldingUpdated {
                token_id: 7,
                old_amount: 500,
                new_amount: 0,
                old_weight: 3000,
                new_weight: 10000,
                updated_by: owner(),
                timestamp: 3000,
            }),
            PortfolioEvent::TokenHoldingRemoved(TokenHoldingRemoved {
                token_id: 7,
                final_amount: 0,
                removed_by: owner(),
                timestamp: 4000,
            }),
        ]
    );
}

#[test]
fn weights_never_exceed_the_whole() {
    let mut p = portfolio();
    assert_eq!(p.add_token_holding(owner(), 1, 1, 10, 6000, &silent()), Ok(()));
    assert_eq!(p.add_token_holding(owner(), 1, 2, 10, 4000, &silent()), Ok(()));
    assert_eq!(p.get_total_target_weight(), 10000);
    assert_eq!(p.get_remaining_weight_capacity(), 0);
    assert_eq!(p.validate_weight_allocation(), Ok(true));
    let full = p.clone();
    // One basis point more is refused, not cut to fit.
    assert_eq!(p.add_token_holding(owner(), 1, 3, 10, 1, &silent()), Err(Error::InvalidParameter));
    assert_eq!(p.update_token_holding(owner(), 1, 1, 10, 6001, &silent()), Err(Error::InvalidParameter));
    assert_eq!(p.update_token_holding(owner(), 1, 2, 10, 4001, &silent()), Err(Error::InvalidParameter));
    assert_eq!(p, full);
    assert_eq!(p.add_token_holding(owner(), 1, 3, 10, 0, &silent()), Ok(()));
    // Lowering one weight makes room for another.
    assert_eq!(p.update_token_holding(owner(), 1, 1, 10, 5000, &silent()), Ok(()));
    assert_eq!(p.update_token_holding(owner(), 1, 3, 10, 1001, &silent()), Err(Error::InvalidParameter));
    assert_eq!(p.update_token_holding(owner(), 1, 3, 10, 1000, &silent()), Ok(()));
    assert_eq!(p.get_total_target_weight(), 10000);
    assert_eq!(p.get_all_target_weights(), vec![(1, 5000), (2, 4000), (3, 1000)]);
    assert_eq!(p.remove_token_holding(owner(), 1, 2, &silent()), Ok(()));
    assert_eq!(p.get_total_target_weight(), 6000);
    assert_eq!(p.get_remaining_weight_capacity(), 4000);
    assert_eq!(p.get_portfolio_stats(), (2, 6000, 50));
}

#[test]
fn holdings_are_validated() {
    let mut p = portfolio();
    p.add_token_holding(owner(), 1, 1, 10, 100, &silent()).unwrap();
    let before = p.clone();
    assert_eq!(p.add_token_holding(stranger(), 1, 2, 10, 100, &silent()), Err(Error::Unauthorized));
    assert_eq!(p.add_token_holding(owner(), 1, 2, 0, 100, &silent()), Err(Error::InvalidParameter));
    assert_eq!(p.add_token_holding(owner(), 1, 2, 10, 10001, &silent()), Err(Error::InvalidParameter));
    assert_eq!(p.add_token_holding(owner(), 1, 1, 10, 100, &silent()), Err(Error::TokenAlreadyExists));
    assert_eq!(p.update_token_holding(stranger(), 1, 1, 10, 100, &silent()), Err(Error::Unauthorized));
    assert_eq!(p.update_token_holding(owner(), 1, 1, 10, 10001, &silent()), Err(Error::InvalidParameter));
    assert_eq!(p.update_token_holding(owner(), 1, 2, 10, 100, &silent()), Err(Error::TokenNotFound));
    assert_eq!(p.remove_token_holding(stranger(), 1, 1, &silent()), Err(Error::Unauthorized));
    assert_eq!(p.remove_token_holding(owner(), 1, 2, &silent()), Err(Error::TokenNotFound));
    assert_eq!(p, before);
}

#[test]
fn the_number_of_holdings_is_capped() {
    let mut p = portfolio();
    assert_eq!(p.set_max_tokens(stranger(), 2), Err(Error::Unauthorized));
    assert_eq!(p.set_max_tokens(owner(), 0), Err(Error::InvalidParameter));
    assert_eq!(p.set_max_tokens(owner(), 2), Ok(()));
    assert!(p.can_add_tokens(2));
    assert!(!p.can_add_tokens(3));
    p.add_token_holding(owner(), 1, 1, 10, 0, &silent()).unwrap();
    p.add_token_holding(owner(), 1, 2, 10, 0, &silent()).unwrap();
    assert_eq!(p.add_token_holding(owner(), 1, 3, 10, 0, &silent()), Err(Error::InvalidParameter));
    assert!(!p.can_add_tokens(1));
    assert!(p.can_add_tokens(0));
    assert!(!p.can_add_tokens(u32::MAX));
    assert_eq!(p.set_max_tokens(owner(), 1), Err(Error::InvalidParameter));
    assert_eq!(p.set_max_tokens(owner(), 3), Ok(()));
    assert_eq!(p.add_token_holding(owner(), 1, 3, 10, 0, &silent()), Ok(()));
    assert_eq!(p.get_held_token_ids(), vec![1, 2, 3]);
}

#[test]
fn emergency_pause_blocks_changes_of_holdings() {
    let mut p = portfolio();
    p.add_token_holding(owner(), 1, 1, 10, 100, &silent()).unwrap();
    p.take_events();
    assert_eq!(p.emergency_pause(stranger(), 5, "no".into()), Err(Error::Unauthorized));
    assert_eq!(p.emergency_pause(owner(), 5, "drill".into()), Ok(()));
    assert!(p.is_emergency_paused());
    assert_eq!(p.get_state(), PortfolioState::Emergency);
    assert_eq!(p.ensure_active(), Err(Error::InvalidParameter));
    assert_eq!(p.add_token_holding(owner(), 6, 2, 10, 100, &silent()), Err(Error::InvalidParameter));
    assert_eq!(p.update_token_holding(owner(), 6, 1, 10, 100, &silent()), Err(Error::InvalidParameter));
    assert_eq!(p.remove_token_holding(owner(), 6, 1, &silent()), Err(Error::InvalidParameter));
    assert_eq!(p.add_multiple_holdings(owner(), 6, vec![(2, 1, 1)]), Err(Error::InvalidParameter));
    assert_eq!(p.update_multiple_amounts(owner(), 6, vec![(1, 1)]), Err(Error::InvalidParameter));
    assert_eq!(p.resume_operations(stranger(), 7, "no".into()), Err(Error::Unauthorized));
    assert_eq!(p.resume_operations(owner(), 7, "over".into()), Ok(()));
    assert!(!p.is_emergency_paused());
    assert_eq!(p.get_state(), PortfolioState::Active);
    assert_eq!(p.add_token_holding(owner(), 8, 2, 10, 100, &silent()), Ok(()));
    let events = p.take_events();
    assert_eq!(
        events[0],
        PortfolioEvent::EmergencyPause(EmergencyPause {
            paused: true,
            paused_by: owner(),
            timestamp: 5,
            reason: "drill".into(),
        })
    );
    assert_eq!(
        events[1],
        PortfolioEvent::EmergencyPause(EmergencyPause {
            paused: false,
            paused_by: owner(),
            timestamp: 7,
            reason: "over".into(),
        })
    );
}

#[test]
fn settings_are_for_the_owner() {
    let mut p = Portfolio::new(owner(), 0);
    p.take_events();
    assert_eq!(p.set_state(stranger(), 1, PortfolioState::Paused, "x".into()), Err(Error::Unauthorized));
    assert_eq!(p.set_state(owner(), 1, PortfolioState::Maintenance, "work".into()), Ok(()));
    assert_eq!(p.get_state(), PortfolioState::Maintenance);
    assert_eq!(p.set_registry_contract(stranger(), 2, account(70)), Err(Error::Unauthorized));
    assert_eq!(p.set_token_contract(stranger(), 2, account(71)), Err(Error::Unauthorized));
    assert_eq!(p.set_dex_contract(stranger(), 2, account(72)), Err(Error::Unauthorized));
    assert_eq!(p.set_oracle_contract(stranger(), 2, account(73)), Err(Error::Unauthorized));
    assert_eq!(p.set_registry_contract(owner(), 2, account(70)), Ok(()));
    assert_eq!(p.set_token_contract(owner(), 3, account(71)), Ok(()));
    assert_eq!(p.set_dex_contract(owner(), 4, account(72)), Ok(()));
    assert_eq!(p.set_oracle_contract(owner(), 5, account(73)), Ok(()));
    assert_eq!(p.set_oracle_contract(owner(), 6, account(74)), Ok(()));
    assert_eq!(p.get_registry_contract(), Some(account(70)));
    assert_eq!(p.get_token_contract(), Some(account(71)));
    assert_eq!(p.get_dex_contract(), Some(account(72)));
    assert_eq!(p.get_oracle_contract(), Some(account(74)));
    let reference = |kind: &'static str, old: Option<AccountId>, new: AccountId, at: u64| {
        PortfolioEvent::ContractReferenceUpdated(ContractReferenceUpdated {
            contract_type: kind,
            old_address: old,
            new_address: new,
            updated_by: owner(),
            timestamp: at,
        })
    };
    assert_eq!(
        p.take_events(),
        vec![
            PortfolioEvent::PortfolioStateChanged(PortfolioStateChanged {
                old_state: PortfolioState::Active,
                new_state: PortfolioState::Maintenance,
                changed_by: owner(),
                timestamp: 1,
                reason: "work".into(),
            }),
            reference("registry", None, account(70), 2),
            reference("token", None, account(71), 3),
            reference("dex", None, account(72), 4),
            reference("oracle", None, account(73), 5),
            reference("oracle", Some(account(73)), account(74), 6),
        ]
    );
}

#[test]
fn fees_may_not_exceed_the_whole() {
    let mut p = Portfolio::new(owner(), 0);
    p.take_events();
    let config = FeeConfiguration { buy_fee_bp: 10000, sell_fee_bp: 0, streaming_fee_bp: 1 };
    assert_eq!(p.set_fee_config(stranger(), 1, config), Err(Error::Unauthorized));
    for bad in [
        FeeConfiguration { buy_fee_bp: 10001, ..config },
        FeeConfiguration { sell_fee_bp: 10001, ..config },
        FeeConfiguration { streaming_fee_bp: 10001, ..config },
    ] {
        assert_eq!(p.set_fee_config(owner(), 1, bad), Err(Error::InvalidParameter));
    }
    assert_eq!(p.get_fee_config(), FeeConfiguration::default());
    assert_eq!(p.set_fee_config(owner(), 1, config), Ok(()));
    assert_eq!(p.get_fee_config(), config);
    assert_eq!(
        p.take_events(),
        vec![PortfolioEvent::FeeConfigurationUpdated(FeeConfigurationUpdated {
            old_config: FeeConfiguration::default(),
            new_config: config,
            updated_by: owner(),
            timestamp: 1,
        })]
    );
}

#[test]
fn total_value_uses_prices_and_falls_back_to_amounts() {
    let mut p = portfolio();
    assert_eq!(p.calculate_total_portfolio_value(&silent()), Ok(0));
    p.add_token_holding(owner(), 1, 1, 10, 0, &silent()).unwrap();
    p.add_token_holding(owner(), 1, 2, 20, 0, &silent()).unwrap();
    p.add_token_holding(owner(), 1, 3, 30, 0, &silent()).unwrap();
    // 10 * 5 + 20 * 7 + 30 * 2
    assert_eq!(p.calculate_total_portfolio_value(&priced(&[(1, 5), (2, 7), (3, 2)])), Ok(250));
    // A token without an answer counts with its bare amount: 10 * 5 + 20 + 30 * 2.
    assert_eq!(p.calculate_total_portfolio_value(&priced(&[(1, 5), (3, 2)])), Ok(130));
    // A value that does not fit counts with the bare amount: 10 + 20 * 7 + 30 * 2.
    assert_eq!(
        p.calculate_total_portfolio_value(&priced(&[(1, u128::MAX), (2, 7), (3, 2)])),
        Ok(210)
    );
    // Without any answer there is no market data.
    assert_eq!(p.calculate_total_portfolio_value(&silent()), Err(Error::OracleCallFailed));
    assert_eq!(p.calculate_portfolio_value_with_fallback(&silent()), 60);
    assert_eq!(p.calculate_portfolio_value_with_fallback(&priced(&[(2, 7)])), 10 + 140 + 30);
    // An answer that is a refusal counts as no answer.
    let refused = RegistryFeed {
        tokens: vec![
            TokenAnswer { token_id: 1, answer: Err(Error::TokenNotFound) },
            TokenAnswer { token_id: 1, answer: Ok(token_data(5)) },
        ],
        active_tier: None,
        tiers: vec![],
    };
    assert_eq!(p.calculate_total_portfolio_value(&refused), Err(Error::OracleCallFailed));
    assert_eq!(p.call_registry_get_token_data(1, &refused), Err(Error::TokenNotFound));
    assert_eq!(p.call_registry_get_token_data(2, &refused), Err(Error::OracleCallFailed));
    assert_eq!(p.test_registry_connection(&refused), Ok((false, 0)));
    assert_eq!(p.test_registry_connection(&priced(&[(1, 5), (3, 2)])), Ok((true, 2)));
    assert_eq!(p.validate_holdings_against_registry(&priced(&[(1, 5), (3, 2)])), Ok(vec![2]));
    assert_eq!(p.validate_holdings_against_registry(&silent()), Ok(vec![1, 2, 3]));
}

#[test]
fn total_value_saturates() {
    let mut p = portfolio();
    p.add_token_holding(owner(), 1, 1, u128::MAX, 0, &silent()).unwrap();
    p.add_token_holding(owner(), 1, 2, u128::MAX, 0, &silent()).unwrap();
    assert_eq!(p.calculate_total_portfolio_value(&priced(&[(1, 1), (2, 1)])), Ok(u128::MAX));
    assert_eq!(p.get_portfolio_composition().total_value, u128::MAX);
}

#[test]
fn without_a_registry_nothing_is_priced() {
    let mut p = Portfolio::new(owner(), 0);
    p.add_token_holding(owner(), 1, 1, 10, 0, &silent()).unwrap();
    let answers = priced(&[(1, 5)]);
    assert_eq!(p.call_registry_get_token_data(1, &answers), Err(Error::InvalidParameter));
    assert_eq!(p.calculate_total_portfolio_value(&answers), Err(Error::OracleCallFailed));
    assert_eq!(p.get_token_market_data(1, &answers), Err(Error::InvalidParameter));
    assert_eq!(p.get_token_holding_value(1, &answers), Err(Error::InvalidParameter));
    assert_eq!(p.call_registry_get_active_tier(&answers), Err(Error::InvalidParameter));
    assert_eq!(p.call_registry_get_tokens_by_tier(1, &answers), Err(Error::InvalidParameter));
    assert_eq!(p.get_rebalancing_targets(&answers), Err(Error::InvalidParameter));
    assert_eq!(p.is_token_in_active_tier(1, &answers), Err(Error::InvalidParameter));
    assert_eq!(p.test_registry_connection(&answers), Ok((false, 0)));
}

#[test]
fn market_data_of_holdings() {
    let mut p = portfolio();
    p.add_token_holding(owner(), 1, 1, 10, 0, &silent()).unwrap();
    p.add_token_holding(owner(), 1, 2, 20, 0, &silent()).unwrap();
    let answers = priced(&[(1, 5)]);
    assert_eq!(p.get_token_market_data(1, &answers), Ok((5, 11, 12)));
    assert_eq!(p.get_token_market_data(2, &answers), Err(Error::OracleCallFailed));
    assert_eq!(p.get_token_holding_value(1, &answers), Ok(50));
    assert_eq!(p.get_token_holding_value(2, &answers), Err(Error::OracleCallFailed));
    assert_eq!(p.get_token_holding_value(3, &answers), Err(Error::TokenNotFound));
    assert_eq!(
        p.get_token_holding_value(1, &priced(&[(1, u128::MAX)])),
        Err(Error::InvalidParameter)
    );
    assert_eq!(p.get_holdings_with_values(&answers), Ok(vec![(1, 10, 50), (2, 20, 0)]));
    assert_eq!(
        p.get_portfolio_valuation_breakdown(&answers),
        Ok(vec![(1, 10, 5, 50), (2, 20, 0, 0)])
    );
    assert_eq!(p.get_all_holdings(), vec![(1, 10), (2, 20)]);
    let holding = |amount: u128| TokenHolding {
        amount,
        target_weight_bp: 0,
        last_rebalance: 1,
        fees_collected: 0,
    };
    assert_eq!(
        p.get_portfolio_composition(),
        PortfolioComposition {
            total_tokens: 2,
            total_value: 30,
            holdings: vec![(1, holding(10)), (2, holding(20))],
        }
    );
    assert_eq!(
        p.get_portfolio_composition_with_market_data(&answers),
        Ok(PortfolioComposition {
            total_tokens: 2,
            total_value: 50,
            holdings: vec![(1, holding(10)), (2, holding(20))],
        })
    );
}

#[test]
fn rebalancing_targets_come_from_the_registry() {
    let p = portfolio();
    let mut answers = silent();
    assert_eq!(p.call_registry_get_active_tier(&answers), Err(Error::OracleCallFailed));
    assert_eq!(p.get_rebalancing_targets(&answers), Err(Error::OracleCallFailed));
    answers.active_tier = Some(2);
    assert_eq!(p.call_registry_get_active_tier(&answers), Ok(2));
    assert_eq!(p.get_rebalancing_targets(&answers), Err(Error::OracleCallFailed));
    answers.tiers = vec![
        TierAnswer { tier: 1, token_ids: vec![9] },
        TierAnswer { tier: 2, token_ids: vec![4, 6] },
        TierAnswer { tier: 2, token_ids: vec![5] },
    ];
    assert_eq!(p.call_registry_get_tokens_by_tier(1, &answers), Ok(vec![9]));
    assert_eq!(p.call_registry_get_tokens_by_tier(3, &answers), Err(Error::OracleCallFailed));
    assert_eq!(p.get_rebalancing_targets(&answers), Ok(vec![4, 6]));
    assert_eq!(p.is_token_in_active_tier(6, &answers), Ok(true));
    assert_eq!(p.is_token_in_active_tier(5, &answers), Ok(false));
    assert_eq!(p.is_token_in_active_tier(9, &answers), Ok(false));
}

#[test]
fn index_value_follows_the_portfolio_value() {
    let mut p = portfolio();
    p.add_token_holding(owner(), 1, 1, 1000, 5000, &silent()).unwrap();
    let at_base = priced(&[(1, 4)]);
    assert_eq!(p.calculate_current_index_value(&at_base), Ok(INDEX_BASE_VALUE));
    assert_eq!(p.initialize_base_portfolio_value(owner(), 50, &at_base), Ok(()));
    assert!(p.is_index_tracking_enabled());
    assert_eq!(p.get_index_base_metrics(), (INDEX_BASE_VALUE, 4000, 1000, true));
    assert_eq!(p.calculate_current_index_value(&at_base), Ok(INDEX_BASE_VALUE));
    // The value rises from 4000 to 5000: the index rises by a quarter.
    let risen = priced(&[(1, 5)]);
    assert_eq!(p.calculate_current_index_value(&risen), Ok(125_000_000_000));
    assert_eq!(p.get_realtime_index_performance(&risen), Ok(2500));
    assert_eq!(p.get_realtime_index_value_usd(&risen), Ok(125_000_000_000 / 1_666_666_667));
    // The value falls to 3400: the index falls by 15%.
    p.update_token_holding(owner(), 60, 1, 850, 5000, &silent()).unwrap();
    assert_eq!(p.calculate_current_index_value(&at_base), Ok(85_000_000_000));
    assert_eq!(p.get_realtime_index_performance(&at_base), Ok(-1500));
    // The cached value has not moved, since the registry was silent.
    assert_eq!(p.get_current_index_value(), INDEX_BASE_VALUE);
    assert_eq!(p.get_index_performance(), Ok(0));
    assert_eq!(p.get_index_value_usd(), Ok(59));
    assert_eq!(p.get_index_summary(), Ok((INDEX_BASE_VALUE, INDEX_BASE_VALUE, 0, 50)));

    p.take_events();
    assert_eq!(p.update_index_value(stranger(), 70, &at_base), Err(Error::Unauthorized));
    assert_eq!(p.update_index_value(owner(), 70, &silent()), Err(Error::OracleCallFailed));
    assert_eq!(p.get_current_index_value(), INDEX_BASE_VALUE);
    assert_eq!(p.update_index_value(owner(), 70, &at_base), Ok(85_000_000_000));
    assert_eq!(p.get_current_index_value(), 85_000_000_000);
    assert_eq!(p.get_index_performance(), Ok(-1500));
    assert_eq!(p.get_index_summary(), Ok((85_000_000_000, INDEX_BASE_VALUE, -1500, 70)));
    assert_eq!(
        p.take_events(),
        vec![PortfolioEvent::IndexValueUpdated(IndexValueUpdated {
            old_value: INDEX_BASE_VALUE,
            new_value: 85_000_000_000,
            performance_bp: -1500,
            total_portfolio_value: 3400,
            timestamp: 70,
        })]
    );
    assert_eq!(p.refresh_index_value(owner(), 80, &risen), Ok((106_250_000_000, 625)));
    assert_eq!(p.refresh_index_value(stranger(), 80, &risen), Err(Error::Unauthorized));
}

#[test]
fn changing_holdings_refreshes_the_index() {
    let mut p = portfolio();
    p.add_token_holding(owner(), 1, 1, 100, 0, &silent()).unwrap();
    p.initialize_base_portfolio_value(owner(), 2, &priced(&[(1, 1)])).unwrap();
    p.take_events();
    let answers = priced(&[(1, 1), (2, 1)]);
    assert_eq!(p.add_token_holding(owner(), 3, 2, 50, 0, &answers), Ok(()));
    assert_eq!(p.get_current_index_value(), 150_000_000_000);
    assert_eq!(
        p.take_events(),
        vec![
            PortfolioEvent::IndexValueUpdated(IndexValueUpdated {
                old_value: INDEX_BASE_VALUE,
                new_value: 150_000_000_000,
                performance_bp: 5000,
                total_portfolio_value: 150,
                timestamp: 3,
            }),
            PortfolioEvent::TokenHoldingAdded(TokenHoldingAdded {
                token_id: 2,
                amount: 50,
                target_weight_bp: 0,
                added_by: owner(),
                timestamp: 3,
            }),
        ]
    );
    // A registry that is silent does not keep the holdings from changing.
    assert_eq!(p.remove_token_holding(owner(), 4, 2, &silent()), Ok(()));
    assert_eq!(p.get_current_index_value(), 150_000_000_000);
    assert_eq!(p.get_index_update_age(10), 7);
    assert!(!p.is_index_value_stale(3 + 3_600_000));
    assert!(p.is_index_value_stale(3 + 3_600_001));
}

#[test]
fn index_overflow_is_an_error() {
    let mut p = portfolio();
    p.add_token_holding(owner(), 1, 1, 1, 0, &silent()).unwrap();
    p.initialize_base_portfolio_value(owner(), 2, &priced(&[(1, 1)])).unwrap();
    // The value times the base index value does not fit.
    let huge = priced(&[(1, u128::MAX / INDEX_BASE_VALUE + 1)]);
    assert_eq!(p.calculate_current_index_value(&huge), Err(Error::InvalidParameter));
    assert_eq!(p.update_index_value(owner(), 3, &huge), Err(Error::InvalidParameter));
    // The index fits, but its gain in basis points does not.
    let large = priced(&[(1, u128::MAX / INDEX_BASE_VALUE)]);
    let index = (u128::MAX / INDEX_BASE_VALUE) * INDEX_BASE_VALUE;
    assert_eq!(p.calculate_current_index_value(&large), Ok(index));
    assert_eq!(p.calculate_performance_bp(index), Err(Error::InvalidParameter));
    assert_eq!(p.update_index_value(owner(), 3, &large), Err(Error::InvalidParameter));
    assert_eq!(p.get_current_index_value(), INDEX_BASE_VALUE);
}

#[test]
fn performance_is_signed_and_clamped() {
    let p = Portfolio::new(owner(), 0);
    assert_eq!(p.calculate_performance_bp(INDEX_BASE_VALUE), Ok(0));
    assert_eq!(p.calculate_performance_bp(125_000_000_000), Ok(2500));
    assert_eq!(p.calculate_performance_bp(85_000_000_000), Ok(-1500));
    assert_eq!(p.calculate_performance_bp(0), Ok(-10000));
    assert_eq!(p.calculate_performance_bp(INDEX_BASE_VALUE + 9_999_999), Ok(0));
    assert_eq!(p.calculate_performance_bp(INDEX_BASE_VALUE + 10_000_000), Ok(1));
    assert_eq!(p.calculate_performance_bp(INDEX_BASE_VALUE - 10_000_000), Ok(-1));
    // i32::MAX basis points are reached at 214748.3647 times the base.
    let at_max = INDEX_BASE_VALUE + 2_147_483_647 * 10_000_000;
    assert_eq!(p.calculate_performance_bp(at_max), Ok(i32::MAX));
    assert_eq!(p.calculate_performance_bp(at_max * 1000), Ok(i32::MAX));
}

#[test]
fn the_baseline_is_set_once() {
    let mut p = portfolio();
    let answers = priced(&[(1, 3)]);
    assert_eq!(p.initialize_base_portfolio_value(stranger(), 1, &answers), Err(Error::Unauthorized));
    // Without holdings there is nothing to value.
    assert_eq!(p.initialize_base_portfolio_value(owner(), 1, &answers), Err(Error::InvalidParameter));
    p.add_token_holding(owner(), 1, 1, 10, 0, &silent()).unwrap();
    assert_eq!(p.initialize_base_portfolio_value(owner(), 1, &silent()), Err(Error::OracleCallFailed));
    assert_eq!(
        p.initialize_base_portfolio_value(owner(), 1, &priced(&[(1, 0)])),
        Err(Error::InvalidParameter)
    );
    assert!(!p.is_index_tracking_enabled());
    p.take_events();
    assert_eq!(p.initialize_base_portfolio_value(owner(), 2, &answers), Ok(()));
    assert_eq!(p.get_index_base_metrics(), (INDEX_BASE_VALUE, 30, 1000, true));
    assert_eq!(
        p.take_events(),
        vec![PortfolioEvent::BasePortfolioValueSet(BasePortfolioValueSet {
            base_value: INDEX_BASE_VALUE,
            base_portfolio_value: 30,
            deployment_timestamp: 1000,
            set_by: owner(),
        })]
    );
    let before = p.clone();
    assert_eq!(
        p.initialize_base_portfolio_value(owner(), 3, &priced(&[(1, 9)])),
        Err(Error::InvalidParameter)
    );
    assert_eq!(p, before);
}

#[test]
fn emergency_reset_rebases_and_can_rearm() {
    let mut p = portfolio();
    p.add_token_holding(owner(), 1, 1, 10, 0, &silent()).unwrap();
    p.initialize_base_portfolio_value(owner(), 2, &priced(&[(1, 3)])).unwrap();
    p.update_index_value(owner(), 3, &priced(&[(1, 6)])).unwrap();
    assert_eq!(p.get_current_index_value(), 200_000_000_000);
    p.take_events();
    assert_eq!(
        p.emergency_reset_base_value(stranger(), 4, "no".into(), &priced(&[(1, 6)])),
        Err(Error::Unauthorized)
    );
    assert_eq!(
        p.emergency_reset_base_value(owner(), 4, "no".into(), &silent()),
        Err(Error::OracleCallFailed)
    );
    assert_eq!(
        p.emergency_reset_base_value(owner(), 4, "rebase".into(), &priced(&[(1, 6)])),
        Ok(())
    );
    assert_eq!(p.get_index_base_metrics(), (INDEX_BASE_VALUE, 60, 1000, true));
    assert_eq!(p.get_current_index_value(), INDEX_BASE_VALUE);
    assert_eq!(
        p.take_events(),
        vec![
            PortfolioEvent::BasePortfolioValueSet(BasePortfolioValueSet {
                base_value: INDEX_BASE_VALUE,
                base_portfolio_value: 60,
                deployment_timestamp: 4,
                set_by: owner(),
            }),
            PortfolioEvent::OperationFailed(OperationFailed {
                operation: "emergency_reset_base_value",
                error: "rebase".into(),
                caller: owner(),
                timestamp: 4,
            }),
        ]
    );
    // A reset to a value of zero lets the baseline be set anew.
    assert_eq!(
        p.emergency_reset_base_value(owner(), 5, "zero".into(), &priced(&[(1, 0)])),
        Ok(())
    );
    assert_eq!(p.get_index_base_metrics().1, 0);
    assert_eq!(p.calculate_current_index_value(&priced(&[(1, 6)])), Ok(INDEX_BASE_VALUE));
    assert_eq!(p.initialize_base_portfolio_value(owner(), 6, &priced(&[(1, 2)])), Ok(()));
    assert_eq!(p.get_index_base_metrics().1, 20);
}

#[test]
fn index_tracking_can_be_switched() {
    let mut p = portfolio();
    assert_eq!(p.set_index_tracking(stranger(), 1, true, &silent()), Err(Error::Unauthorized));
    // Without holdings tracking is switched on without a baseline.
    assert_eq!(p.set_index_tracking(owner(), 1, true, &silent()), Ok(()));
    assert!(p.is_index_tracking_enabled());
    assert_eq!(p.calculate_current_index_value(&silent()), Ok(INDEX_BASE_VALUE));
    assert_eq!(p.update_index_value(owner(), 2, &silent()), Ok(INDEX_BASE_VALUE));
    assert_eq!(p.set_index_tracking(owner(), 3, false, &silent()), Ok(()));
    assert_eq!(p.update_index_value(owner(), 4, &silent()), Ok(INDEX_BASE_VALUE));
    assert_eq!(p.refresh_index_value(owner(), 4, &silent()), Ok((INDEX_BASE_VALUE, 0)));
    assert!(!p.is_index_value_stale(u64::MAX));

    p.add_token_holding(owner(), 5, 1, 10, 0, &silent()).unwrap();
    // With holdings, switching on sets the baseline, or fails as a whole.
    assert_eq!(p.set_index_tracking(owner(), 6, true, &silent()), Err(Error::OracleCallFailed));
    assert!(!p.is_index_tracking_enabled());
    assert_eq!(p.set_index_tracking(owner(), 6, true, &priced(&[(1, 2)])), Ok(()));
    assert!(p.is_index_tracking_enabled());
    assert_eq!(p.get_index_base_metrics().1, 20);
}

#[test]
fn add_multiple_holdings_adds_all_or_none() {
    let mut p = portfolio();
    p.add_token_holding(owner(), 1, 1, 10, 4000, &silent()).unwrap();
    p.take_events();
    let before = p.clone();
    assert_eq!(p.add_multiple_holdings(stranger(), 2, vec![(2, 1, 1)]), Err(Error::Unauthorized));
    assert_eq!(p.add_multiple_holdings(owner(), 2, vec![]), Err(Error::InvalidParameter));
    assert_eq!(
        p.add_multiple_holdings(owner(), 2, vec![(2, 5, 100), (3, 0, 100)]),
        Err(Error::InvalidParameter)
    );
    assert_eq!(
        p.add_multiple_holdings(owner(), 2, vec![(2, 5, 100), (3, 5, 10001)]),
        Err(Error::InvalidParameter)
    );
    assert_eq!(
        p.add_multiple_holdings(owner(), 2, vec![(2, 5, 100), (1, 5, 100)]),
        Err(Error::TokenAlreadyExists)
    );
    // A token listed twice is refused as well.
    assert_eq!(
        p.add_multiple_holdings(owner(), 2, vec![(2, 5, 100), (3, 5, 100), (2, 5, 100)]),
        Err(Error::TokenAlreadyExists)
    );
    // Of two offending entries the first decides.
    assert_eq!(
        p.add_multiple_holdings(owner(), 2, vec![(1, 5, 100), (3, 0, 100)]),
        Err(Error::TokenAlreadyExists)
    );
    assert_eq!(
        p.add_multiple_holdings(owner(), 2, vec![(2, 5, 3000), (3, 5, 3001)]),
        Err(Error::InvalidParameter)
    );
    assert_eq!(p, before);
    assert_eq!(p.add_multiple_holdings(owner(), 2, vec![(2, 5, 3000), (3, 6, 3000)]), Ok(2));
    assert_eq!(p.get_all_holdings(), vec![(1, 10), (2, 5), (3, 6)]);
    assert_eq!(p.get_total_target_weight(), 10000);
    assert_eq!(p.get_token_holding(3).unwrap().last_rebalance, 2);
    assert_eq!(
        p.take_events(),
        vec![
            PortfolioEvent::TokenHoldingAdded(TokenHoldingAdded {
                token_id: 2,
                amount: 5,
                target_weight_bp: 3000,
                added_by: owner(),
                timestamp: 2,
            }),
            PortfolioEvent::TokenHoldingAdded(TokenHoldingAdded {
                token_id: 3,
                amount: 6,
                target_weight_bp: 3000,
                added_by: owner(),
                timestamp: 2,
            }),
        ]
    );
    p.set_max_tokens(owner(), 4).unwrap();
    assert_eq!(
        p.add_multiple_holdings(owner(), 3, vec![(4, 1, 0), (5, 1, 0)]),
        Err(Error::InvalidParameter)
    );
    assert_eq!(p.add_multiple_holdings(owner(), 3, vec![(4, 1, 0)]), Ok(1));
}

#[test]
fn update_multiple_amounts_passes_over_unknown_tokens() {
    let mut p = portfolio();
    p.add_multiple_holdings(owner(), 1, vec![(1, 10, 100), (2, 20, 200)]).unwrap();
    p.take_events();
    assert_eq!(p.update_multiple_amounts(stranger(), 2, vec![(1, 5)]), Err(Error::Unauthorized));
    assert_eq!(p.update_multiple_amounts(owner(), 2, vec![]), Err(Error::InvalidParameter));
    assert_eq!(
        p.update_multiple_amounts(owner(), 2, vec![(2, 25), (9, 1), (1, 0), (2, 30)]),
        Ok(3)
    );
    assert_eq!(p.get_all_holdings(), vec![(1, 0), (2, 30)]);
    assert_eq!(p.get_all_target_weights(), vec![(1, 100), (2, 200)]);
    assert_eq!(p.get_token_holding(1).unwrap().last_rebalance, 2);
    let updated = |token_id: u32, old_amount: u128, new_amount: u128, weight: u32| {
        PortfolioEvent::TokenHoldingUpdated(TokenHoldingUpdated {
            token_id,
            old_amount,
            new_amount,
            old_weight: weight,
            new_weight: weight,
            updated_by: owner(),
            timestamp: 2,
        })
    };
    assert_eq!(
        p.take_events(),
        vec![updated(2, 20, 25, 200), updated(1, 10, 0, 100), updated(2, 25, 30, 200)]
    );
    assert_eq!(p.update_multiple_amounts(owner(), 3, vec![(9, 1)]), Ok(0));
}
