use w3pi::account_map::AccountMap;
use w3pi::feed::{OracleFeed, OracleQuote, RegistryFeed, TierAnswer, TokenAnswer};
use w3pi::math::{abs_diff, checked_mul_div, saturating_mul};
use w3pi::shared::{AccountId, Error, ReentrancyGuard};

fn account(byte: u8) -> AccountId {
    AccountId::from_bytes([byte; 32])
}

#[test]
fn accounts_compare_by_all_their_bytes() {
    let mut bytes = [7u8; 32];
    let a = AccountId::from_bytes(bytes);
    assert_eq!(a, account(7));
    assert_eq!(a.to_bytes(), bytes);
    bytes[31] = 8;
    assert_ne!(AccountId::from_bytes(bytes), a);
    bytes[31] = 7;
    bytes[0] = 8;
    assert_ne!(AccountId::from_bytes(bytes), a);
    assert_eq!(AccountId::zero(), account(0));
    assert!(AccountId::zero().is_zero());
    assert!(!a.is_zero());
    let mut almost_zero = [0u8; 32];
    almost_zero[17] = 1;
    assert!(!AccountId::from_bytes(almost_zero).is_zero());
    assert_eq!(AccountId::dot_token(), account(0xFF));
}

#[test]
fn reentrancy_guard_locks_once() {
    let mut guard = ReentrancyGuard::new();
    assert!(!guard.locked());
    assert_eq!(guard.enter(), Ok(()));
    assert!(guard.locked());
    assert_eq!(guard.enter(), Err(Error::ReentrantCall));
    assert!(guard.locked());
    guard.exit();
    assert!(!guard.locked());
    assert_eq!(guard.enter(), Ok(()));
}

#[test]
fn saturating_and_checked_arithmetic() {
    assert_eq!(saturating_mul(6, 7), 42);
    assert_eq!(saturating_mul(0, u128::MAX), 0);
    assert_eq!(saturating_mul(u128::MAX, 1), u128::MAX);
    assert_eq!(saturating_mul(u128::MAX, 2), u128::MAX);
    assert_eq!(saturating_mul(1 << 64, 1 << 64), u128::MAX);
    assert_eq!(saturating_mul(1 << 64, (1 << 64) - 1), u128::MAX - (1 << 64) + 1);
    assert_eq!(checked_mul_div(10, 7, 4), Some(17));
    assert_eq!(checked_mul_div(10, 7, 0), None);
    assert_eq!(checked_mul_div(u128::MAX, 2, 2), None);
    assert_eq!(checked_mul_div(u128::MAX, 1, u128::MAX), Some(1));
    assert_eq!(checked_mul_div(0, 0, 1), Some(0));
    assert_eq!(abs_diff(3, 10), 7);
    assert_eq!(abs_diff(10, 3), 7);
    assert_eq!(abs_diff(5, 5), 0);
    assert_eq!(abs_diff(0, u128::MAX), u128::MAX);
}

#[test]
fn account_map_binds_each_account_once() {
    let mut map: AccountMap<u32> = AccountMap::new();
    assert!(!map.contains(&account(1)));
    assert_eq!(map.get(&account(1)), None);
    map.insert(account(1), 10);
    map.insert(account(2), 20);
    map.insert(account(1), 11);
    assert!(map.contains(&account(1)));
    assert_eq!(map.get(&account(1)), Some(&11));
    assert_eq!(map.get(&account(2)), Some(&20));
    assert_eq!(map.remove(&account(3)), None);
    assert_eq!(map.remove(&account(1)), Some(11));
    assert_eq!(map.get(&account(1)), None);
    assert_eq!(map.get(&account(2)), Some(&20));
    assert_eq!(map.remove(&account(1)), None);
    map.insert(account(1), 12);
    assert_eq!(map.get(&account(1)), Some(&12));
}

#[test]
fn the_first_quote_of_a_pair_counts() {
    let quote = |oracle: u8, token: u8, price: u128| OracleQuote {
        oracle: account(oracle),
        token: account(token),
        price: Some(price),
        market_cap: Some(price + 1),
        market_volume: None,
    };
    let mut feed = OracleFeed::new();
    assert_eq!(feed.quote(account(1), account(2)), None);
    assert_eq!(feed.get_price(account(1), account(2)), None);
    feed.push(quote(1, 2, 100));
    feed.push(quote(1, 3, 200));
    feed.push(quote(1, 2, 300));
    feed.push(quote(4, 2, 400));
    assert_eq!(feed.get_price(account(1), account(2)), Some(100));
    assert_eq!(feed.get_price(account(1), account(3)), Some(200));
    assert_eq!(feed.get_price(account(4), account(2)), Some(400));
    assert_eq!(feed.get_price(account(2), account(1)), None);
    assert_eq!(feed.get_market_cap(account(1), account(3)), Some(201));
    assert_eq!(feed.get_market_volume(account(1), account(3)), None);
    assert_eq!(feed.quote(account(4), account(2)), Some(quote(4, 2, 400)));
}

#[test]
fn registry_feed_answers_by_first_match() {
    let mut feed = RegistryFeed::new();
    assert_eq!(feed.token_data(1), None);
    assert!(feed.tokens_by_tier(1).is_none());
    feed.tokens.push(TokenAnswer { token_id: 1, answer: Err(Error::TokenNotFound) });
    feed.tokens.push(TokenAnswer { token_id: 1, answer: Err(Error::InvalidTier) });
    feed.tiers.push(TierAnswer { tier: 3, token_ids: vec![1, 2] });
    feed.tiers.push(TierAnswer { tier: 3, token_ids: vec![] });
    assert_eq!(feed.token_data(1), Some(Err(Error::TokenNotFound)));
    assert_eq!(feed.token_data(2), None);
    assert_eq!(feed.tokens_by_tier(3), Some(&vec![1, 2]));
    assert!(feed.tokens_by_tier(2).is_none());
}
