use w3pi::oracle::events::{
    ConfigUpdated, DotUsdPriceUpdated, EmergencyPause, MarketDataUpdated, OracleEvent,
    PriceUpdated, UpdaterAdded, UpdaterRemoved,
};
use w3pi::oracle::{Oracle, TokenPriceData, ValidationConfig};
use w3pi::shared::{AccountId, Error};

fn account(byte: u8) -> AccountId {
    AccountId::from_bytes([byte; 32])
}

fn owner() -> AccountId {
    account(1)
}

fn updater() -> AccountId {
    account(2)
}

fn token() -> AccountId {
    account(10)
}

const MINUTE_MS: u64 = 60_000;

#[test]
fn new_oracle_has_the_default_configuration() {
    let oracle = Oracle::new(owner());
    assert_eq!(oracle.get_owner(), owner());
    assert!(!oracle.is_paused());
    assert_eq!(
        oracle.get_validation_config(),
        ValidationConfig { max_deviation_bp: 2000, staleness_threshold: 3600, min_update_interval: 60 }
    );
    assert_eq!(oracle.get_validation_config(), ValidationConfig::default());
    assert_eq!(oracle.get_max_deviation(), 2000);
    assert_eq!(oracle.get_staleness_threshold(), 3600);
    assert_eq!(oracle.get_min_update_interval(), 60);
    assert_eq!(oracle.get_price(token()), None);
    assert_eq!(oracle.get_dot_usd_price(), None);
    assert!(oracle.is_price_stale(token(), 0));
    assert!(oracle.is_dot_price_stale(0));
}

#[test]
fn new_with_config_holds_sample_data() {
    let config = ValidationConfig { max_deviation_bp: 500, staleness_threshold: 10, min_update_interval: 1 };
    let oracle = Oracle::new_with_config(owner(), 777, config);
    assert_eq!(oracle.get_validation_config(), config);
    assert_eq!(
        oracle.get_token_data(account(1)),
        Some(TokenPriceData {
            price: 10_000_000_000,
            market_cap: 1_000_000_000_000_000,
            volume_24h: 100_000_000_000_000,
            timestamp: 777,
        })
    );
    assert_eq!(oracle.get_dot_usd_price(), Some(6_500_000_000));
    assert_eq!(oracle.get_dot_price_last_update(), Some(777));
    assert_eq!(oracle.get_price(AccountId::dot_token()), Some(6_500_000_000));
    assert!(oracle.is_dot_token(AccountId::from_bytes([0xFF; 32])));
    assert!(!oracle.is_dot_token(token()));
    assert_eq!(oracle.get_dot_token_address(), AccountId::from_bytes([0xFF; 32]));
}

#[test]
fn update_token_data_stores_and_reports() {
    let mut oracle = Oracle::new(owner());
    assert_eq!(oracle.update_token_data(owner(), 1000, token(), 50, 600, 70), Ok(()));
    assert_eq!(
        oracle.get_token_data(token()),
        Some(TokenPriceData { price: 50, market_cap: 600, volume_24h: 70, timestamp: 1000 })
    );
    assert_eq!(oracle.get_price(token()), Some(50));
    assert_eq!(oracle.get_market_cap(token()), Some(600));
    assert_eq!(oracle.get_market_volume(token()), Some(70));
    assert_eq!(oracle.get_last_update_time(token()), Some(1000));
    assert_eq!(
        oracle.take_events(),
        vec![OracleEvent::PriceUpdated(PriceUpdated {
            token: token(),
            price: 50,
            market_cap: 600,
            volume: 70,
            timestamp: 1000,
        })]
    );
}

#[test]
fn updates_need_authorization() {
    let mut oracle = Oracle::new(owner());
    assert_eq!(
        oracle.update_token_data(updater(), 1000, token(), 50, 0, 0),
        Err(Error::Unauthorized)
    );
    assert!(!oracle.is_authorized_updater(updater()));
    assert!(oracle.is_authorized_updater(owner()));
    assert_eq!(oracle.add_updater(updater(), updater()), Err(Error::Unauthorized));
    assert_eq!(oracle.add_updater(owner(), owner()), Err(Error::InvalidParameter));
    assert_eq!(oracle.add_updater(owner(), updater()), Ok(()));
    assert!(oracle.is_authorized_updater(updater()));
    assert_eq!(oracle.update_token_data(updater(), 1000, token(), 50, 0, 0), Ok(()));
    assert_eq!(oracle.update_dot_usd_price(updater(), 1000, 6), Ok(()));
    assert_eq!(oracle.remove_updater(updater(), updater()), Err(Error::Unauthorized));
    assert_eq!(oracle.remove_updater(owner(), owner()), Err(Error::InvalidParameter));
    assert_eq!(oracle.remove_updater(owner(), updater()), Ok(()));
    assert!(!oracle.is_authorized_updater(updater()));
    assert_eq!(
        oracle.update_price(updater(), 1000 + MINUTE_MS, token(), 50),
        Err(Error::Unauthorized)
    );
    assert_eq!(
        oracle.update_market_data(updater(), 1000 + MINUTE_MS, token(), 1, 1),
        Err(Error::Unauthorized)
    );
    assert_eq!(
        oracle.update_dot_usd_price(updater(), 1000 + MINUTE_MS, 6),
        Err(Error::Unauthorized)
    );
    let events = oracle.take_events();
    assert_eq!(events[0], OracleEvent::UpdaterAdded(UpdaterAdded { updater: updater() }));
    assert_eq!(events[3], OracleEvent::UpdaterRemoved(UpdaterRemoved { updater: updater() }));
}

#[test]
fn a_price_of_zero_is_rejected() {
    let mut oracle = Oracle::new(owner());
    let before = oracle.clone();
    assert_eq!(oracle.update_token_data(owner(), 1, token(), 0, 5, 5), Err(Error::InvalidParameter));
    assert_eq!(oracle.update_price(owner(), 1, token(), 0), Err(Error::InvalidParameter));
    assert_eq!(oracle.update_dot_usd_price(owner(), 1, 0), Err(Error::InvalidParameter));
    assert_eq!(oracle.emergency_price_override(owner(), 1, token(), 0, 5, 5), Err(Error::InvalidParameter));
    assert_eq!(oracle.emergency_dot_price_override(owner(), 1, 0), Err(Error::InvalidParameter));
    assert_eq!(oracle, before);
}

#[test]
fn a_price_may_move_by_the_greatest_deviation_and_no_more() {
    let mut oracle = Oracle::new(owner());
    oracle.update_token_data(owner(), 0, token(), 10_000, 0, 0).unwrap();
    // 20% up is allowed, one basis point more is not.
    assert_eq!(
        oracle.update_token_data(owner(), MINUTE_MS, token(), 12_001, 0, 0),
        Err(Error::InvalidParameter)
    );
    assert_eq!(oracle.get_price(token()), Some(10_000));
    assert_eq!(oracle.update_token_data(owner(), MINUTE_MS, token(), 12_000, 0, 0), Ok(()));
    // The change is rounded down to whole basis points: from 12000 down to
    // 9599 is 2000.8, which passes as 2000; down to 9598 is 2001.6.
    assert_eq!(
        oracle.update_token_data(owner(), 2 * MINUTE_MS, token(), 9_598, 0, 0),
        Err(Error::InvalidParameter)
    );
    assert_eq!(oracle.update_token_data(owner(), 2 * MINUTE_MS, token(), 9_599, 0, 0), Ok(()));
    // A move too large to be measured is rejected too.
    assert_eq!(
        oracle.update_token_data(owner(), 3 * MINUTE_MS, token(), u128::MAX, 0, 0),
        Err(Error::InvalidParameter)
    );
    // The owner can override.
    assert_eq!(oracle.emergency_price_override(owner(), 3 * MINUTE_MS, token(), 1, 2, 3), Ok(()));
    assert_eq!(
        oracle.get_token_data(token()),
        Some(TokenPriceData { price: 1, market_cap: 2, volume_24h: 3, timestamp: 3 * MINUTE_MS })
    );
    assert_eq!(
        oracle.emergency_price_override(updater(), 3 * MINUTE_MS, token(), 1, 2, 3),
        Err(Error::Unauthorized)
    );
}

#[test]
fn updates_keep_the_least_interval() {
    let mut oracle = Oracle::new(owner());
    oracle.update_token_data(owner(), 5_000, token(), 100, 0, 0).unwrap();
    assert_eq!(
        oracle.update_token_data(owner(), 5_000 + MINUTE_MS - 1, token(), 100, 0, 0),
        Err(Error::InvalidParameter)
    );
    // A clock that runs backwards is too early as well.
    assert_eq!(oracle.update_token_data(owner(), 0, token(), 100, 0, 0), Err(Error::InvalidParameter));
    assert_eq!(oracle.update_token_data(owner(), 5_000 + MINUTE_MS, token(), 100, 0, 0), Ok(()));
    // An interval that cannot be measured in milliseconds allows no update.
    oracle.set_min_update_interval(owner(), u64::MAX).unwrap();
    assert_eq!(
        oracle.update_token_data(owner(), u64::MAX, token(), 100, 0, 0),
        Err(Error::InvalidParameter)
    );
}

#[test]
fn dot_price_keeps_the_same_bounds() {
    let mut oracle = Oracle::new(owner());
    assert_eq!(oracle.update_dot_usd_price(owner(), 0, 5_000_000_000), Ok(()));
    assert_eq!(oracle.get_dot_usd_price(), Some(5_000_000_000));
    assert_eq!(
        oracle.update_dot_usd_price(owner(), MINUTE_MS, 6_000_500_000),
        Err(Error::InvalidParameter)
    );
    assert_eq!(
        oracle.update_dot_usd_price(owner(), MINUTE_MS - 1, 6_000_000_000),
        Err(Error::InvalidParameter)
    );
    assert_eq!(oracle.update_dot_usd_price(owner(), MINUTE_MS, 6_000_000_000), Ok(()));
    assert_eq!(oracle.emergency_dot_price_override(updater(), 0, 1), Err(Error::Unauthorized));
    assert_eq!(oracle.emergency_dot_price_override(owner(), 0, 1), Ok(()));
    assert_eq!(
        oracle.get_token_data(AccountId::dot_token()),
        Some(TokenPriceData { price: 1, market_cap: 0, volume_24h: 0, timestamp: 0 })
    );
    let events = oracle.take_events();
    assert_eq!(
        events[2],
        OracleEvent::DotUsdPriceUpdated(DotUsdPriceUpdated {
            usd_price: 1,
            timestamp: 0,
            updated_by: owner()
        })
    );
}

#[test]
fn staleness_is_measured_in_milliseconds() {
    let mut oracle = Oracle::new(owner());
    oracle.update_token_data(owner(), 10_000, token(), 100, 0, 0).unwrap();
    // An hour is 3_600_000 ms.
    assert!(!oracle.is_price_stale(token(), 10_000 + 3_600_000));
    assert!(oracle.is_price_stale(token(), 10_000 + 3_600_001));
    assert!(!oracle.is_price_stale(token(), 0));
    oracle.set_staleness_threshold(owner(), u64::MAX).unwrap();
    assert!(!oracle.is_price_stale(token(), u64::MAX));
    oracle.update_dot_usd_price(owner(), 10_000, 6).unwrap();
    oracle.set_staleness_threshold(owner(), 1).unwrap();
    assert!(!oracle.is_dot_price_stale(11_000));
    assert!(oracle.is_dot_price_stale(11_001));
}

#[test]
fn pausing_stops_updates_but_not_overrides() {
    let mut oracle = Oracle::new(owner());
    assert_eq!(oracle.pause_updates(updater(), 5), Err(Error::Unauthorized));
    assert_eq!(oracle.pause_updates(owner(), 5), Ok(()));
    assert!(oracle.is_paused());
    assert_eq!(oracle.update_token_data(owner(), 6, token(), 5, 0, 0), Err(Error::OracleCallFailed));
    assert_eq!(oracle.update_price(owner(), 6, token(), 5), Err(Error::OracleCallFailed));
    assert_eq!(oracle.update_market_data(owner(), 6, token(), 5, 5), Err(Error::OracleCallFailed));
    assert_eq!(oracle.update_dot_usd_price(owner(), 6, 5), Err(Error::OracleCallFailed));
    assert_eq!(oracle.emergency_price_override(owner(), 6, token(), 5, 0, 0), Ok(()));
    assert_eq!(oracle.resume_updates(updater(), 7), Err(Error::Unauthorized));
    assert_eq!(oracle.resume_updates(owner(), 7), Ok(()));
    assert!(!oracle.is_paused());
    let events = oracle.take_events();
    assert_eq!(events[0], OracleEvent::EmergencyPause(EmergencyPause { paused: true, timestamp: 5 }));
    assert_eq!(events[2], OracleEvent::EmergencyPause(EmergencyPause { paused: false, timestamp: 7 }));
}

#[test]
fn update_price_keeps_market_data() {
    let mut oracle = Oracle::new(owner());
    assert_eq!(oracle.update_price(owner(), 0, token(), 100), Ok(()));
    assert_eq!(
        oracle.get_token_data(token()),
        Some(TokenPriceData { price: 100, market_cap: 0, volume_24h: 0, timestamp: 0 })
    );
    assert_eq!(oracle.update_market_data(owner(), 10, token(), 55, 66), Ok(()));
    assert_eq!(
        oracle.get_token_data(token()),
        Some(TokenPriceData { price: 100, market_cap: 55, volume_24h: 66, timestamp: 10 })
    );
    assert_eq!(oracle.update_price(owner(), 10 + MINUTE_MS, token(), 110), Ok(()));
    assert_eq!(
        oracle.get_token_data(token()),
        Some(TokenPriceData { price: 110, market_cap: 55, volume_24h: 66, timestamp: 10 + MINUTE_MS })
    );
    // Market data cannot be set for a token without a price.
    assert_eq!(oracle.update_market_data(owner(), 10, account(77), 1, 1), Err(Error::InvalidParameter));
    let events = oracle.take_events();
    assert_eq!(
        events[1],
        OracleEvent::MarketDataUpdated(MarketDataUpdated { token: token(), market_cap: 55, volume: 66 })
    );
}

#[test]
fn configuration_is_validated() {
    let mut oracle = Oracle::new(owner());
    let good = ValidationConfig { max_deviation_bp: 10000, staleness_threshold: 1, min_update_interval: 1 };
    assert_eq!(oracle.set_validation_config(updater(), good), Err(Error::Unauthorized));
    assert_eq!(
        oracle.set_validation_config(owner(), ValidationConfig { max_deviation_bp: 10001, ..good }),
        Err(Error::InvalidParameter)
    );
    assert_eq!(
        oracle.set_validation_config(owner(), ValidationConfig { staleness_threshold: 0, ..good }),
        Err(Error::InvalidParameter)
    );
    assert_eq!(
        oracle.set_validation_config(owner(), ValidationConfig { min_update_interval: 0, ..good }),
        Err(Error::InvalidParameter)
    );
    assert_eq!(oracle.get_validation_config(), ValidationConfig::default());
    assert_eq!(oracle.set_validation_config(owner(), good), Ok(()));
    assert_eq!(oracle.get_validation_config(), good);

    assert_eq!(oracle.set_max_deviation(updater(), 5), Err(Error::Unauthorized));
    assert_eq!(oracle.set_max_deviation(owner(), 10001), Err(Error::InvalidParameter));
    assert_eq!(oracle.set_max_deviation(owner(), 0), Ok(()));
    assert_eq!(oracle.set_staleness_threshold(updater(), 5), Err(Error::Unauthorized));
    assert_eq!(oracle.set_staleness_threshold(owner(), 0), Err(Error::InvalidParameter));
    assert_eq!(oracle.set_staleness_threshold(owner(), 1800), Ok(()));
    assert_eq!(oracle.set_min_update_interval(updater(), 5), Err(Error::Unauthorized));
    assert_eq!(oracle.set_min_update_interval(owner(), 0), Err(Error::InvalidParameter));
    assert_eq!(oracle.set_min_update_interval(owner(), 30), Ok(()));
    assert_eq!(
        oracle.get_validation_config(),
        ValidationConfig { max_deviation_bp: 0, staleness_threshold: 1800, min_update_interval: 30 }
    );
    let events = oracle.take_events();
    assert_eq!(
        events.last(),
        Some(&OracleEvent::ConfigUpdated(ConfigUpdated {
            max_deviation_bp: 0,
            staleness_threshold: 1800,
            min_update_interval: 30,
        }))
    );
    // With no deviation allowed only the same price passes.
    oracle.update_price(owner(), 0, token(), 100).unwrap();
    assert_eq!(oracle.update_price(owner(), 30_000, token(), 101), Err(Error::InvalidParameter));
    assert_eq!(oracle.update_price(owner(), 30_000, token(), 100), Ok(()));
}

#[test]
fn the_oracle_answers_through_the_shared_interface() {
    fn quote_all(oracle: &impl w3pi::shared::Oracle, token: AccountId) -> [Option<u128>; 3] {
        [oracle.get_price(token), oracle.get_market_cap(token), oracle.get_market_volume(token)]
    }
    let mut oracle = Oracle::new(owner());
    assert_eq!(quote_all(&oracle, token()), [None, None, None]);
    oracle.update_token_data(owner(), 0, token(), 3, 4, 5).unwrap();
    assert_eq!(quote_all(&oracle, token()), [Some(3), Some(4), Some(5)]);
}
