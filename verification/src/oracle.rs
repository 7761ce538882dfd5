//! The price oracle: price, market capitalisation and volume of each token,
//! kept fresh by authorized updaters within bounds on how far and how often a
//! price may move.
//!
//! Timestamps are in milliseconds; the staleness threshold and the update
//! interval of the configuration are in seconds.

pub mod events;
pub mod snapshot;

use crate::account_map::AccountMap;
use crate::math::{abs_diff, abs_diff_spec, checked_mul_div, checked_mul_div_spec};
use crate::oracle::events::{
    ConfigUpdated, DotUsdPriceUpdated, EmergencyPause, MarketDataUpdated, OracleEvent,
    PriceUpdated, UpdaterAdded, UpdaterRemoved,
};
use crate::shared::{AccountId, Error};
use vstd::prelude::*;

verus! {

/// What the oracle holds of one token.
#[derive(Clone, Copy, Debug, PartialEq, Eq, Structural)]
pub struct TokenPriceData {
    /// The price in plancks.
    pub price: u128,
    /// The market capitalisation in plancks.
    pub market_cap: u128,
    /// The volume of the last 24 hours in plancks.
    pub volume_24h: u128,
    /// When the data was last updated.
    pub timestamp: u64,
}

/// The bounds that updates must keep.
#[derive(Clone, Copy, Debug, PartialEq, Eq, Structural)]
pub struct ValidationConfig {
    /// How far a price may move in one update, in basis points of the price
    /// before.
    pub max_deviation_bp: u32,
    /// The age, in seconds, beyond which data counts as stale.
    pub staleness_threshold: u64,
    /// The least time, in seconds, between two updates of a token.
    pub min_update_interval: u64,
}

impl ValidationConfig {
    /// A deviation of at most the whole, and times that are not zero.
    pub open spec fn acceptable(self) -> bool {
        self.max_deviation_bp <= 10000 && self.staleness_threshold != 0 && self.min_update_interval
            != 0
    }

    /// The staleness threshold in milliseconds, held at the numeric bound.
    pub open spec fn staleness_ms(self) -> u64 {
        if self.staleness_threshold * 1000 > u64::MAX {
            u64::MAX
        } else {
            (self.staleness_threshold * 1000) as u64
        }
    }

    /// Data stamped `timestamp` is stale at `now`: older than the staleness
    /// threshold.
    pub open spec fn stale(self, timestamp: u64, now: u64) -> bool {
        now.saturating_sub(timestamp) > self.staleness_ms()
    }

    /// A price may move from `old_price` to `new_price`: by no more than the
    /// greatest deviation. From a price of zero it may move anywhere. A move
    /// too large to be measured is not allowed.
    pub open spec fn deviation_allowed(self, old_price: u128, new_price: u128) -> bool {
        old_price == 0 || match checked_mul_div_spec(
            abs_diff_spec(new_price, old_price),
            10000,
            old_price,
        ) {
            Some(change_bp) => change_bp <= self.max_deviation_bp,
            None => false,
        }
    }

    /// An update at `now` comes late enough after one at `last`: no earlier
    /// than the update interval allows. An interval too long to be measured
    /// in milliseconds allows none.
    pub open spec fn timing_allowed(self, last: u64, now: u64) -> bool {
        self.min_update_interval * 1000 <= u64::MAX && now.saturating_sub(last)
            >= self.min_update_interval * 1000
    }
}

impl Default for ValidationConfig {
    fn default() -> (r: Self)
        ensures
            r == (ValidationConfig {
                max_deviation_bp: 2000,
                staleness_threshold: 3600,
                min_update_interval: 60,
            }),
    {
        ValidationConfig {
            max_deviation_bp: 2000,
            staleness_threshold: 3600,
            min_update_interval: 60,
        }
    }
}

/// The price oracle.
#[derive(Clone, Debug, PartialEq, Eq)]
pub struct Oracle {
    token_data: AccountMap<TokenPriceData>,
    authorized_updaters: AccountMap<bool>,
    validation_config: ValidationConfig,
    owner: AccountId,
    paused: bool,
    events: Vec<OracleEvent>,
}

/// The state of an oracle as contracts speak of it.
pub struct OracleView {
    pub token_data: Map<AccountId, TokenPriceData>,
    /// Who may update besides the owner.
    pub authorized_updaters: Set<AccountId>,
    pub validation_config: ValidationConfig,
    pub owner: AccountId,
    pub paused: bool,
    /// Events raised and not yet taken by the host, oldest first.
    pub events: Seq<OracleEvent>,
}

/// The accounts that `flags` marks as updaters.
pub closed spec fn updaters(flags: Map<AccountId, bool>) -> Set<AccountId> {
    Set::new(|account: AccountId| flags.contains_key(account) && flags[account])
}

impl OracleView {
    /// The oracle with `event` recorded.
    pub open spec fn with_event(self, event: OracleEvent) -> Self {
        OracleView { events: self.events.push(event), ..self }
    }

    /// `account` may update prices: the owner and the authorized updaters.
    pub open spec fn is_authorized(self, account: AccountId) -> bool {
        account == self.owner || self.authorized_updaters.contains(account)
    }

    /// What the oracle holds of `token`.
    pub open spec fn data_of(self, token: AccountId) -> Option<TokenPriceData> {
        if self.token_data.contains_key(token) {
            Some(self.token_data[token])
        } else {
            None
        }
    }

    /// Whether `caller` may put `price` on `token` at `now`: not while
    /// paused, not without authorization, not a price of zero, and against
    /// earlier data neither too far from its price nor too soon after it.
    pub open spec fn update_outcome(
        self,
        caller: AccountId,
        now: u64,
        token: AccountId,
        price: u128,
    ) -> Result<(), Error> {
        if self.paused {
            Err(Error::OracleCallFailed)
        } else if !self.is_authorized(caller) {
            Err(Error::Unauthorized)
        } else if price == 0 {
            Err(Error::InvalidParameter)
        } else {
            let config = self.validation_config;
            match self.data_of(token) {
                Some(existing) => if !config.deviation_allowed(existing.price, price) {
                    Err(Error::InvalidParameter)
                } else if !config.timing_allowed(existing.timestamp, now) {
                    Err(Error::InvalidParameter)
                } else {
                    Ok(())
                },
                None => Ok(()),
            }
        }
    }

    /// Whether the owner may override a price.
    pub open spec fn override_outcome(self, caller: AccountId, price: u128) -> Result<(), Error> {
        if caller != self.owner {
            Err(Error::Unauthorized)
        } else if price == 0 {
            Err(Error::InvalidParameter)
        } else {
            Ok(())
        }
    }

    /// The oracle with new data on `token` and the event of it.
    pub open spec fn with_token_data(
        self,
        token: AccountId,
        price: u128,
        market_cap: u128,
        volume: u128,
        now: u64,
    ) -> Self {
        (OracleView {
            token_data: self.token_data.insert(
                token,
                TokenPriceData { price, market_cap, volume_24h: volume, timestamp: now },
            ),
            ..self
        }).with_event(
            OracleEvent::PriceUpdated(
                PriceUpdated { token, price, market_cap, volume, timestamp: now },
            ),
        )
    }

    /// The oracle with a new price of DOT in USD and the event of it.
    pub open spec fn with_dot_price(self, caller: AccountId, usd_price: u128, now: u64) -> Self {
        (OracleView {
            token_data: self.token_data.insert(
                AccountId::spec_dot_token(),
                TokenPriceData { price: usd_price, market_cap: 0, volume_24h: 0, timestamp: now },
            ),
            ..self
        }).with_event(
            OracleEvent::DotUsdPriceUpdated(
                DotUsdPriceUpdated { usd_price, timestamp: now, updated_by: caller },
            ),
        )
    }

    /// The oracle with a new configuration and the event of it.
    pub open spec fn with_config(self, config: ValidationConfig) -> Self {
        (OracleView { validation_config: config, ..self }).with_event(
            OracleEvent::ConfigUpdated(
                ConfigUpdated {
                    max_deviation_bp: config.max_deviation_bp,
                    staleness_threshold: config.staleness_threshold,
                    min_update_interval: config.min_update_interval,
                },
            ),
        )
    }
}

impl View for Oracle {
    type V = OracleView;

    closed spec fn view(&self) -> OracleView {
        OracleView {
            token_data: self.token_data@,
            authorized_updaters: updaters(self.authorized_updaters@),
            validation_config: self.validation_config,
            owner: self.owner,
            paused: self.paused,
            events: self.events@,
        }
    }
}

impl Oracle {
    /// The maps of the oracle are in order.
    pub closed spec fn wf(&self) -> bool {
        &&& self.token_data.wf()
        &&& self.authorized_updaters.wf()
    }

    /// An oracle without data, owned by `caller`, with the default
    /// configuration.
    pub fn new(caller: AccountId) -> (oracle: Self)
        ensures
            oracle.wf(),
            oracle@ == (OracleView {
                token_data: Map::empty(),
                authorized_updaters: Set::empty(),
                validation_config: ValidationConfig {
                    max_deviation_bp: 2000,
                    staleness_threshold: 3600,
                    min_update_interval: 60,
                },
                owner: caller,
                paused: false,
                events: Seq::empty(),
            }),
    {
        let oracle = Oracle {
            token_data: AccountMap::new(),
            authorized_updaters: AccountMap::new(),
            validation_config: ValidationConfig::default(),
            owner: caller,
            paused: false,
            events: Vec::new(),
        };
        proof {
            assert(oracle@.authorized_updaters =~= Set::empty());
        }
        oracle
    }

    /// An oracle with the given configuration and two sample entries stamped
    /// `now`: a token at one DOT, and DOT at 6.50 USD.
    pub fn new_with_config(caller: AccountId, now: u64, config: ValidationConfig) -> (oracle: Self)
        ensures
            oracle.wf(),
            oracle@ == (OracleView {
                token_data: Map::<AccountId, TokenPriceData>::empty().insert(
                    AccountId::filled(1u8),
                    TokenPriceData {
                        price: 10_000_000_000,
                        market_cap: 1_000_000_000_000_000,
                        volume_24h: 100_000_000_000_000,
                        timestamp: now,
                    },
                ).insert(
                    AccountId::spec_dot_token(),
                    TokenPriceData {
                        price: 6_500_000_000,
                        market_cap: 0,
                        volume_24h: 0,
                        timestamp: now,
                    },
                ),
                authorized_updaters: Set::empty(),
                validation_config: config,
                owner: caller,
                paused: false,
                events: Seq::empty(),
            }),
    {
        let mut oracle = Self::new(caller);
        oracle.validation_config = config;
        let dummy_token = AccountId { bytes: [1u8; 32] };
        oracle.token_data.insert(
            dummy_token,
            TokenPriceData {
                price: 10_000_000_000,
                market_cap: 1_000_000_000_000_000,
                volume_24h: 100_000_000_000_000,
                timestamp: now,
            },
        );
        oracle.token_data.insert(
            AccountId::dot_token(),
            TokenPriceData { price: 6_500_000_000, market_cap: 0, volume_24h: 0, timestamp: now },
        );
        oracle
    }

    /// Hands the recorded events to the host and clears the log.
    pub fn take_events(&mut self) -> (taken: Vec<OracleEvent>)
        requires
            old(self).wf(),
        ensures
            final(self).wf(),
            taken@ == old(self)@.events,
            final(self)@ == (OracleView { events: Seq::empty(), ..old(self)@ }),
    {
        let mut taken: Vec<OracleEvent> = Vec::new();
        core::mem::swap(&mut taken, &mut self.events);
        taken
    }

    fn ensure_owner(&self, caller: AccountId) -> (r: Result<(), Error>)
        ensures
            r == if caller == self@.owner {
                Ok::<(), Error>(())
            } else {
                Err::<(), Error>(Error::Unauthorized)
            },
    {
        if caller != self.owner {
            return Err(Error::Unauthorized);
        }
        Ok(())
    }

    fn ensure_authorized(&self, caller: AccountId) -> (r: Result<(), Error>)
        requires
            self.wf(),
        ensures
            r == if self@.is_authorized(caller) {
                Ok::<(), Error>(())
            } else {
                Err::<(), Error>(Error::Unauthorized)
            },
    {
        if !self.is_authorized_updater(caller) {
            return Err(Error::Unauthorized);
        }
        Ok(())
    }

    fn ensure_not_paused(&self) -> (r: Result<(), Error>)
        ensures
            r == if self@.paused {
                Err::<(), Error>(Error::OracleCallFailed)
            } else {
                Ok::<(), Error>(())
            },
    {
        if self.paused {
            return Err(Error::OracleCallFailed);
        }
        Ok(())
    }

    /// Holds a new price against the price before.
    fn validate_price_update(
        &self,
        new_price: u128,
        existing: &TokenPriceData,
    ) -> (r: Result<(), Error>)
        ensures
            r == if self@.validation_config.deviation_allowed(existing.price, new_price) {
                Ok::<(), Error>(())
            } else {
                Err::<(), Error>(Error::InvalidParameter)
            },
    {
        let old_price = existing.price;
        if old_price == 0 {
            return Ok(());
        }
        let price_diff = abs_diff(new_price, old_price);
        let change_bp = match checked_mul_div(price_diff, 10000, old_price) {
            Some(change) => change,
            None => {
                return Err(Error::InvalidParameter);
            },
        };
        if change_bp > self.validation_config.max_deviation_bp as u128 {
            return Err(Error::InvalidParameter);
        }
        Ok(())
    }

    /// Holds a new price of DOT against the price before, by the same rule
    /// as any other price.
    fn validate_dot_price_update(
        &self,
        new_price: u128,
        existing: &TokenPriceData,
    ) -> (r: Result<(), Error>)
        ensures
            r == if self@.validation_config.deviation_allowed(existing.price, new_price) {
                Ok::<(), Error>(())
            } else {
                Err::<(), Error>(Error::InvalidParameter)
            },
    {
        self.validate_price_update(new_price, existing)
    }

    /// Holds the time of an update against the time of the update before.
    fn validate_update_timing(
        &self,
        existing: &TokenPriceData,
        new_timestamp: u64,
    ) -> (r: Result<(), Error>)
        ensures
            r == if self@.validation_config.timing_allowed(existing.timestamp, new_timestamp) {
                Ok::<(), Error>(())
            } else {
                Err::<(), Error>(Error::InvalidParameter)
            },
    {
        let time_diff = new_timestamp.saturating_sub(existing.timestamp);
        let min_interval_ms = match self.validation_config.min_update_interval.checked_mul(1000) {
            Some(result) => result,
            None => {
                return Err(Error::InvalidParameter);
            },
        };
        if time_diff < min_interval_ms {
            return Err(Error::InvalidParameter);
        }
        Ok(())
    }

    /// Whether `caller` may put `price` on `token` at `now`.
    fn check_update(
        &self,
        caller: AccountId,
        now: u64,
        token: AccountId,
        price: u128,
    ) -> (r: Result<(), Error>)
        requires
            self.wf(),
        ensures
            r == self@.update_outcome(caller, now, token, price),
    {
        self.ensure_not_paused()?;
        self.ensure_authorized(caller)?;
        if price == 0 {
            return Err(Error::InvalidParameter);
        }
        if let Some(existing) = self.token_data.get(&token) {
            self.validate_price_update(price, existing)?;
            self.validate_update_timing(existing, now)?;
        }
        Ok(())
    }

    /// Sets the price of DOT in USD.
    pub fn update_dot_usd_price(
        &mut self,
        caller: AccountId,
        now: u64,
        usd_price: u128,
    ) -> (result: Result<(), Error>)
        requires
            old(self).wf(),
        ensures
            final(self).wf(),
            result == old(self)@.update_outcome(
                caller,
                now,
                AccountId::spec_dot_token(),
                usd_price,
            ),
            result.is_err() ==> final(self)@ == old(self)@,
            result.is_ok() ==> final(self)@ == old(self)@.with_dot_price(caller, usd_price, now),
    {
        self.ensure_not_paused()?;
        self.ensure_authorized(caller)?;
        if usd_price == 0 {
            return Err(Error::InvalidParameter);
        }
        let dot_address = AccountId::dot_token();
        if let Some(existing) = self.token_data.get(&dot_address) {
            self.validate_dot_price_update(usd_price, existing)?;
            self.validate_update_timing(existing, now)?;
        }
        self.token_data.insert(
            dot_address,
            TokenPriceData { price: usd_price, market_cap: 0, volume_24h: 0, timestamp: now },
        );
        self.events.push(
            OracleEvent::DotUsdPriceUpdated(
                DotUsdPriceUpdated { usd_price, timestamp: now, updated_by: caller },
            ),
        );
        Ok(())
    }

    /// The price of DOT in USD.
    pub fn get_dot_usd_price(&self) -> (r: Option<u128>)
        requires
            self.wf(),
        ensures
            r == match self@.data_of(AccountId::spec_dot_token()) {
                Some(data) => Some(data.price),
                None => None,
            },
    {
        self.get_price(AccountId::dot_token())
    }

    /// Whether the price of DOT is stale at `now`. A price that is not there
    /// is stale.
    pub fn is_dot_price_stale(&self, now: u64) -> (r: bool)
        requires
            self.wf(),
        ensures
            r == match self@.data_of(AccountId::spec_dot_token()) {
                Some(data) => self@.validation_config.stale(data.timestamp, now),
                None => true,
            },
    {
        self.is_price_stale(AccountId::dot_token(), now)
    }

    /// When the price of DOT was last updated.
    pub fn get_dot_price_last_update(&self) -> (r: Option<u64>)
        requires
            self.wf(),
        ensures
            r == match self@.data_of(AccountId::spec_dot_token()) {
                Some(data) => Some(data.timestamp),
                None => None,
            },
    {
        self.get_last_update_time(AccountId::dot_token())
    }

    /// Sets the price of DOT in USD past all bounds. Only the owner may.
    pub fn emergency_dot_price_override(
        &mut self,
        caller: AccountId,
        now: u64,
        usd_price: u128,
    ) -> (result: Result<(), Error>)
        requires
            old(self).wf(),
        ensures
            final(self).wf(),
            result == old(self)@.override_outcome(caller, usd_price),
            result.is_err() ==> final(self)@ == old(self)@,
            result.is_ok() ==> final(self)@ == old(self)@.with_dot_price(caller, usd_price, now),
    {
        self.ensure_owner(caller)?;
        if usd_price == 0 {
            return Err(Error::InvalidParameter);
        }
        self.token_data.insert(
            AccountId::dot_token(),
            TokenPriceData { price: usd_price, market_cap: 0, volume_24h: 0, timestamp: now },
        );
        self.events.push(
            OracleEvent::DotUsdPriceUpdated(
                DotUsdPriceUpdated { usd_price, timestamp: now, updated_by: caller },
            ),
        );
        Ok(())
    }

    /// Whether `token` is the address under which DOT is quoted.
    pub fn is_dot_token(&self, token: AccountId) -> (r: bool)
        ensures
            r == (token == AccountId::spec_dot_token()),
    {
        token == AccountId::dot_token()
    }

    /// The address under which DOT is quoted.
    pub fn get_dot_token_address(&self) -> (r: AccountId)
        ensures
            r == AccountId::spec_dot_token(),
    {
        AccountId::dot_token()
    }

    /// Sets price, market capitalisation and volume of a token.
    pub fn update_token_data(
        &mut self,
        caller: AccountId,
        now: u64,
        token: AccountId,
        price: u128,
        market_cap: u128,
        volume: u128,
    ) -> (result: Result<(), Error>)
        requires
            old(self).wf(),
        ensures
            final(self).wf(),
            result == old(self)@.update_outcome(caller, now, token, price),
            result.is_err() ==> final(self)@ == old(self)@,
            result.is_ok() ==> final(self)@ == old(self)@.with_token_data(
                token,
                price,
                market_cap,
                volume,
                now,
            ),
    {
        self.check_update(caller, now, token, price)?;
        self.token_data.insert(
            token,
            TokenPriceData { price, market_cap, volume_24h: volume, timestamp: now },
        );
        self.events.push(
            OracleEvent::PriceUpdated(
                PriceUpdated { token, price, market_cap, volume, timestamp: now },
            ),
        );
        Ok(())
    }

    /// What the oracle holds of a token.
    pub fn get_token_data(&self, token: AccountId) -> (r: Option<TokenPriceData>)
        requires
            self.wf(),
        ensures
            r == self@.data_of(token),
    {
        match self.token_data.get(&token) {
            Some(data) => Some(*data),
            None => None,
        }
    }

    /// The price of a token.
    pub fn get_price(&self, token: AccountId) -> (r: Option<u128>)
        requires
            self.wf(),
        ensures
            r == match self@.data_of(token) {
                Some(data) => Some(data.price),
                None => None,
            },
    {
        match self.token_data.get(&token) {
            Some(data) => Some(data.price),
            None => None,
        }
    }

    /// The market capitalisation of a token.
    pub fn get_market_cap(&self, token: AccountId) -> (r: Option<u128>)
        requires
            self.wf(),
        ensures
            r == match self@.data_of(token) {
                Some(data) => Some(data.market_cap),
                None => None,
            },
    {
        match self.token_data.get(&token) {
            Some(data) => Some(data.market_cap),
            None => None,
        }
    }

    /// The volume of a token.
    pub fn get_market_volume(&self, token: AccountId) -> (r: Option<u128>)
        requires
            self.wf(),
        ensures
            r == match self@.data_of(token) {
                Some(data) => Some(data.volume_24h),
                None => None,
            },
    {
        match self.token_data.get(&token) {
            Some(data) => Some(data.volume_24h),
            None => None,
        }
    }

    /// Whether the data of a token is stale at `now`: older than the
    /// staleness threshold. Data that is not there is stale.
    pub fn is_price_stale(&self, token: AccountId, now: u64) -> (r: bool)
        requires
            self.wf(),
        ensures
            r == match self@.data_of(token) {
                Some(data) => self@.validation_config.stale(data.timestamp, now),
                None => true,
            },
    {
        match self.token_data.get(&token) {
            Some(data) => {
                let threshold = self.validation_config.staleness_threshold;
                let staleness_threshold_ms = match threshold.checked_mul(1000) {
                    Some(ms) => ms,
                    None => u64::MAX,
                };
                now.saturating_sub(data.timestamp) > staleness_threshold_ms
            },
            None => true,
        }
    }

    /// When the data of a token was last updated.
    pub fn get_last_update_time(&self, token: AccountId) -> (r: Option<u64>)
        requires
            self.wf(),
        ensures
            r == match self@.data_of(token) {
                Some(data) => Some(data.timestamp),
                None => None,
            },
    {
        match self.token_data.get(&token) {
            Some(data) => Some(data.timestamp),
            None => None,
        }
    }

    /// Authorizes an updater. Only the owner may, and not for the owner,
    /// who is authorized anyway.
    pub fn add_updater(
        &mut self,
        caller: AccountId,
        updater: AccountId,
    ) -> (result: Result<(), Error>)
        requires
            old(self).wf(),
        ensures
            final(self).wf(),
            result == if caller != old(self)@.owner {
                Err::<(), Error>(Error::Unauthorized)
            } else if updater == old(self)@.owner {
                Err::<(), Error>(Error::InvalidParameter)
            } else {
                Ok::<(), Error>(())
            },
            result.is_err() ==> final(self)@ == old(self)@,
            result.is_ok() ==> final(self)@ == (OracleView {
                authorized_updaters: old(self)@.authorized_updaters.insert(updater),
                ..old(self)@
            }).with_event(OracleEvent::UpdaterAdded(UpdaterAdded { updater })),
    {
        self.ensure_owner(caller)?;
        if updater == self.owner {
            return Err(Error::InvalidParameter);
        }
        self.authorized_updaters.insert(updater, true);
        self.events.push(OracleEvent::UpdaterAdded(UpdaterAdded { updater }));
        proof {
            assert(self@.authorized_updaters =~= old(self)@.authorized_updaters.insert(updater));
        }
        Ok(())
    }

    /// Takes the authorization from an updater. Only the owner may, and not
    /// from the owner.
    pub fn remove_updater(
        &mut self,
        caller: AccountId,
        updater: AccountId,
    ) -> (result: Result<(), Error>)
        requires
            old(self).wf(),
        ensures
            final(self).wf(),
            result == if caller != old(self)@.owner {
                Err::<(), Error>(Error::Unauthorized)
            } else if updater == old(self)@.owner {
                Err::<(), Error>(Error::InvalidParameter)
            } else {
                Ok::<(), Error>(())
            },
            result.is_err() ==> final(self)@ == old(self)@,
            result.is_ok() ==> final(self)@ == (OracleView {
                authorized_updaters: old(self)@.authorized_updaters.remove(updater),
                ..old(self)@
            }).with_event(OracleEvent::UpdaterRemoved(UpdaterRemoved { updater })),
    {
        self.ensure_owner(caller)?;
        if updater == self.owner {
            return Err(Error::InvalidParameter);
        }
        let _ = self.authorized_updaters.remove(&updater);
        self.events.push(OracleEvent::UpdaterRemoved(UpdaterRemoved { updater }));
        proof {
            assert(self@.authorized_updaters =~= old(self)@.authorized_updaters.remove(updater));
        }
        Ok(())
    }

    /// Whether `account` may update prices.
    pub fn is_authorized_updater(&self, account: AccountId) -> (r: bool)
        requires
            self.wf(),
        ensures
            r == self@.is_authorized(account),
    {
        account == self.owner || match self.authorized_updaters.get(&account) {
            Some(flag) => *flag,
            None => false,
        }
    }

    /// Replaces the configuration. Only the owner may.
    pub fn set_validation_config(
        &mut self,
        caller: AccountId,
        config: ValidationConfig,
    ) -> (result: Result<(), Error>)
        requires
            old(self).wf(),
        ensures
            final(self).wf(),
            result == if caller != old(self)@.owner {
                Err::<(), Error>(Error::Unauthorized)
            } else if !config.acceptable() {
                Err::<(), Error>(Error::InvalidParameter)
            } else {
                Ok::<(), Error>(())
            },
            result.is_err() ==> final(self)@ == old(self)@,
            result.is_ok() ==> final(self)@ == old(self)@.with_config(config),
    {
        self.ensure_owner(caller)?;
        if config.max_deviation_bp > 10000 {
            return Err(Error::InvalidParameter);
        }
        if config.staleness_threshold == 0 || config.min_update_interval == 0 {
            return Err(Error::InvalidParameter);
        }
        self.store_config(config);
        Ok(())
    }

    fn store_config(&mut self, config: ValidationConfig)
        requires
            old(self).wf(),
        ensures
            final(self).wf(),
            final(self)@ == old(self)@.with_config(config),
    {
        self.validation_config = config;
        self.events.push(
            OracleEvent::ConfigUpdated(
                ConfigUpdated {
                    max_deviation_bp: config.max_deviation_bp,
                    staleness_threshold: config.staleness_threshold,
                    min_update_interval: config.min_update_interval,
                },
            ),
        );
    }

    /// Sets the greatest deviation, at most 10000 basis points. Only the
    /// owner may.
    pub fn set_max_deviation(
        &mut self,
        caller: AccountId,
        max_deviation_bp: u32,
    ) -> (result: Result<(), Error>)
        requires
            old(self).wf(),
        ensures
            final(self).wf(),
            result == if caller != old(self)@.owner {
                Err::<(), Error>(Error::Unauthorized)
            } else if max_deviation_bp > 10000 {
                Err::<(), Error>(Error::InvalidParameter)
            } else {
                Ok::<(), Error>(())
            },
            result.is_err() ==> final(self)@ == old(self)@,
            result.is_ok() ==> final(self)@ == old(self)@.with_config(
                ValidationConfig { max_deviation_bp, ..old(self)@.validation_config },
            ),
    {
        self.ensure_owner(caller)?;
        if max_deviation_bp > 10000 {
            return Err(Error::InvalidParameter);
        }
        let mut config = self.validation_config;
        config.max_deviation_bp = max_deviation_bp;
        self.store_config(config);
        Ok(())
    }

    /// Sets the staleness threshold in seconds, which may not be zero. Only
    /// the owner may.
    pub fn set_staleness_threshold(
        &mut self,
        caller: AccountId,
        staleness_threshold: u64,
    ) -> (result: Result<(), Error>)
        requires
            old(self).wf(),
        ensures
            final(self).wf(),
            result == if caller != old(self)@.owner {
                Err::<(), Error>(Error::Unauthorized)
            } else if staleness_threshold == 0 {
                Err::<(), Error>(Error::InvalidParameter)
            } else {
                Ok::<(), Error>(())
            },
            result.is_err() ==> final(self)@ == old(self)@,
            result.is_ok() ==> final(self)@ == old(self)@.with_config(
                ValidationConfig { staleness_threshold, ..old(self)@.validation_config },
            ),
    {
        self.ensure_owner(caller)?;
        if staleness_threshold == 0 {
            return Err(Error::InvalidParameter);
        }
        let mut config = self.validation_config;
        config.staleness_threshold = staleness_threshold;
        self.store_config(config);
        Ok(())
    }

    /// Sets the least time between updates in seconds, which may not be
    /// zero. Only the owner may.
    pub fn set_min_update_interval(
        &mut self,
        caller: AccountId,
        min_update_interval: u64,
    ) -> (result: Result<(), Error>)
        requires
            old(self).wf(),
        ensures
            final(self).wf(),
            result == if caller != old(self)@.owner {
                Err::<(), Error>(Error::Unauthorized)
            } else if min_update_interval == 0 {
                Err::<(), Error>(Error::InvalidParameter)
            } else {
                Ok::<(), Error>(())
            },
            result.is_err() ==> final(self)@ == old(self)@,
            result.is_ok() ==> final(self)@ == old(self)@.with_config(
                ValidationConfig { min_update_interval, ..old(self)@.validation_config },
            ),
    {
        self.ensure_owner(caller)?;
        if min_update_interval == 0 {
            return Err(Error::InvalidParameter);
        }
        let mut config = self.validation_config;
        config.min_update_interval = min_update_interval;
        self.store_config(config);
        Ok(())
    }

    pub fn get_validation_config(&self) -> (r: ValidationConfig)
        ensures
            r == self@.validation_config,
    {
        self.validation_config
    }

    pub fn get_max_deviation(&self) -> (r: u32)
        ensures
            r == self@.validation_config.max_deviation_bp,
    {
        self.validation_config.max_deviation_bp
    }

    pub fn get_staleness_threshold(&self) -> (r: u64)
        ensures
            r == self@.validation_config.staleness_threshold,
    {
        self.validation_config.staleness_threshold
    }

    pub fn get_min_update_interval(&self) -> (r: u64)
        ensures
            r == self@.validation_config.min_update_interval,
    {
        self.validation_config.min_update_interval
    }

    /// Stops all updates. Only the owner may.
    pub fn pause_updates(&mut self, caller: AccountId, now: u64) -> (result: Result<(), Error>)
        requires
            old(self).wf(),
        ensures
            final(self).wf(),
            result == if caller != old(self)@.owner {
                Err::<(), Error>(Error::Unauthorized)
            } else {
                Ok::<(), Error>(())
            },
            result.is_err() ==> final(self)@ == old(self)@,
            result.is_ok() ==> final(self)@ == (OracleView {
                paused: true,
                ..old(self)@
            }).with_event(
                OracleEvent::EmergencyPause(EmergencyPause { paused: true, timestamp: now }),
            ),
    {
        self.ensure_owner(caller)?;
        self.paused = true;
        self.events.push(
            OracleEvent::EmergencyPause(EmergencyPause { paused: true, timestamp: now }),
        );
        Ok(())
    }

    /// Allows updates again. Only the owner may.
    pub fn resume_updates(&mut self, caller: AccountId, now: u64) -> (result: Result<(), Error>)
        requires
            old(self).wf(),
        ensures
            final(self).wf(),
            result == if caller != old(self)@.owner {
                Err::<(), Error>(Error::Unauthorized)
            } else {
                Ok::<(), Error>(())
            },
            result.is_err() ==> final(self)@ == old(self)@,
            result.is_ok() ==> final(self)@ == (OracleView {
                paused: false,
                ..old(self)@
            }).with_event(
                OracleEvent::EmergencyPause(EmergencyPause { paused: false, timestamp: now }),
            ),
    {
        self.ensure_owner(caller)?;
        self.paused = false;
        self.events.push(
            OracleEvent::EmergencyPause(EmergencyPause { paused: false, timestamp: now }),
        );
        Ok(())
    }

    /// Sets the data of a token past all bounds. Only the owner may.
    pub fn emergency_price_override(
        &mut self,
        caller: AccountId,
        now: u64,
        token: AccountId,
        price: u128,
        market_cap: u128,
        volume: u128,
    ) -> (result: Result<(), Error>)
        requires
            old(self).wf(),
        ensures
            final(self).wf(),
            result == old(self)@.override_outcome(caller, price),
            result.is_err() ==> final(self)@ == old(self)@,
            result.is_ok() ==> final(self)@ == old(self)@.with_token_data(
                token,
                price,
                market_cap,
                volume,
                now,
            ),
    {
        self.ensure_owner(caller)?;
        if price == 0 {
            return Err(Error::InvalidParameter);
        }
        self.token_data.insert(
            token,
            TokenPriceData { price, market_cap, volume_24h: volume, timestamp: now },
        );
        self.events.push(
            OracleEvent::PriceUpdated(
                PriceUpdated { token, price, market_cap, volume, timestamp: now },
            ),
        );
        Ok(())
    }

    pub fn is_paused(&self) -> (r: bool)
        ensures
            r == self@.paused,
    {
        self.paused
    }

    /// Sets the price of a token and keeps its market data; a token that is
    /// new gets market data of zero.
    pub fn update_price(
        &mut self,
        caller: AccountId,
        now: u64,
        token: AccountId,
        price: u128,
    ) -> (result: Result<(), Error>)
        requires
            old(self).wf(),
        ensures
            final(self).wf(),
            result == old(self)@.update_outcome(caller, now, token, price),
            result.is_err() ==> final(self)@ == old(self)@,
            result.is_ok() ==> final(self)@ == old(self)@.with_token_data(
                token,
                price,
                match old(self)@.data_of(token) {
                    Some(data) => data.market_cap,
                    None => 0,
                },
                match old(self)@.data_of(token) {
                    Some(data) => data.volume_24h,
                    None => 0,
                },
                now,
            ),
    {
        let (market_cap, volume) = match self.token_data.get(&token) {
            Some(data) => (data.market_cap, data.volume_24h),
            None => (0, 0),
        };
        self.update_token_data(caller, now, token, price, market_cap, volume)
    }

    /// Sets the market data of a token whose price is known, and stamps its
    /// data `now`.
    pub fn update_market_data(
        &mut self,
        caller: AccountId,
        now: u64,
        token: AccountId,
        market_cap: u128,
        volume: u128,
    ) -> (result: Result<(), Error>)
        requires
            old(self).wf(),
        ensures
            final(self).wf(),
            result == if old(self)@.paused {
                Err::<(), Error>(Error::OracleCallFailed)
            } else if !old(self)@.is_authorized(caller) {
                Err::<(), Error>(Error::Unauthorized)
            } else if old(self)@.data_of(token).is_none() {
                Err::<(), Error>(Error::InvalidParameter)
            } else {
                Ok::<(), Error>(())
            },
            result.is_err() ==> final(self)@ == old(self)@,
            result.is_ok() ==> final(self)@ == (OracleView {
                token_data: old(self)@.token_data.insert(
                    token,
                    TokenPriceData {
                        price: old(self)@.token_data[token].price,
                        market_cap,
                        volume_24h: volume,
                        timestamp: now,
                    },
                ),
                ..old(self)@
            }).with_event(
                OracleEvent::MarketDataUpdated(MarketDataUpdated { token, market_cap, volume }),
            ),
    {
        self.ensure_not_paused()?;
        self.ensure_authorized(caller)?;
        let mut data = match self.token_data.get(&token) {
            Some(data) => *data,
            None => {
                return Err(Error::InvalidParameter);
            },
        };
        data.market_cap = market_cap;
        data.volume_24h = volume;
        data.timestamp = now;
        self.token_data.insert(token, data);
        self.events.push(
            OracleEvent::MarketDataUpdated(MarketDataUpdated { token, market_cap, volume }),
        );
        Ok(())
    }

    pub fn get_owner(&self) -> (r: AccountId)
        ensures
            r == self@.owner,
    {
        self.owner
    }
}

impl crate::shared::Oracle for Oracle {
    open spec fn answers(&self) -> bool {
        self.wf()
    }

    open spec fn price_of(&self, token: AccountId) -> Option<u128> {
        match self@.data_of(token) {
            Some(data) => Some(data.price),
            None => None,
        }
    }

    open spec fn market_cap_of(&self, token: AccountId) -> Option<u128> {
        match self@.data_of(token) {
            Some(data) => Some(data.market_cap),
            None => None,
        }
    }

    open spec fn market_volume_of(&self, token: AccountId) -> Option<u128> {
        match self@.data_of(token) {
            Some(data) => Some(data.volume_24h),
            None => None,
        }
    }

    fn get_price(&self, token: AccountId) -> (r: Option<u128>) {
        Oracle::get_price(self, token)
    }

    fn get_market_cap(&self, token: AccountId) -> (r: Option<u128>) {
        Oracle::get_market_cap(self, token)
    }

    fn get_market_volume(&self, token: AccountId) -> (r: Option<u128>) {
        Oracle::get_market_volume(self, token)
    }
}

} // verus!
