//! The index value: the value of the portfolio against its baseline.

use crate::feed::RegistryFeed;
use crate::math::{abs_diff, checked_mul_div};
use crate::portfolio::{Portfolio, DISPLAY_USD_RATE, INDEX_STALENESS_MS};
use crate::portfolio::events::{
    BasePortfolioValueSet, IndexValueUpdated, OperationFailed, PortfolioEvent,
};
use crate::portfolio::model::PortfolioView;
use crate::shared::{AccountId, Error};
use vstd::prelude::*;

verus! {

impl Portfolio {
    /// Sets the baseline of the index to the value that the portfolio has
    /// now, and turns tracking on. This works once: with a baseline in place
    /// it is refused, as it is without holdings or at a value of zero. Only
    /// the owner may.
    pub fn initialize_base_portfolio_value(
        &mut self,
        caller: AccountId,
        now: u64,
        registry: &RegistryFeed,
    ) -> (result: Result<(), Error>)
        requires
            old(self).wf(),
        ensures
            final(self).wf(),
            result == old(self)@.initialize_outcome(caller, registry.tokens@),
            result.is_err() ==> final(self)@ == old(self)@,
            result.is_ok() ==> final(self)@ == old(self)@.with_baseline(
                caller,
                now,
                registry.tokens@,
            ),
    {
        self.ensure_owner(caller)?;
        if self.base_portfolio_value != 0 {
            return Err(Error::InvalidParameter);
        }
        if self.holdings.len() == 0 {
            return Err(Error::InvalidParameter);
        }
        let total_value = self.calculate_total_portfolio_value(registry)?;
        if total_value == 0 {
            return Err(Error::InvalidParameter);
        }
        self.base_portfolio_value = total_value;
        self.current_index_value = self.index_base_value;
        self.index_tracking_enabled = true;
        self.last_index_update = now;
        self.events.push(
            PortfolioEvent::BasePortfolioValueSet(
                BasePortfolioValueSet {
                    base_value: self.index_base_value,
                    base_portfolio_value: total_value,
                    deployment_timestamp: self.deployment_timestamp,
                    set_by: caller,
                },
            ),
        );
        Ok(())
    }

    /// The index value at the prices that the registry reports. Overflow is
    /// an error, never a silently wrong value.
    pub fn calculate_current_index_value(
        &self,
        registry: &RegistryFeed,
    ) -> (result: Result<u128, Error>)
        requires
            self.wf(),
        ensures
            result == self@.index_value(registry.tokens@),
    {
        if !self.index_tracking_enabled || self.base_portfolio_value == 0 {
            return Ok(self.index_base_value);
        }
        let current_portfolio_value = self.calculate_total_portfolio_value(registry)?;
        match checked_mul_div(
            current_portfolio_value,
            self.index_base_value,
            self.base_portfolio_value,
        ) {
            Some(index_value) => Ok(index_value),
            None => Err(Error::InvalidParameter),
        }
    }

    /// Deviation of `current_value` from the index value at the baseline, in
    /// basis points.
    pub fn calculate_performance_bp(&self, current_value: u128) -> (result: Result<i32, Error>)
        ensures
            result == self@.performance_bp(current_value),
    {
        if self.index_base_value == 0 {
            return Ok(0);
        }
        let difference = abs_diff(current_value, self.index_base_value);
        let performance_bp = match checked_mul_div(difference, 10000, self.index_base_value) {
            Some(bp) => bp,
            None => {
                return Err(Error::InvalidParameter);
            },
        };
        let capped: i32 = if performance_bp > 2147483647 {
            i32::MAX
        } else {
            performance_bp as i32
        };
        if current_value >= self.index_base_value {
            Ok(capped)
        } else {
            Ok(0 - capped)
        }
    }

    /// The cached index value.
    pub fn get_current_index_value(&self) -> (r: u128)
        ensures
            r == self@.current_index_value,
    {
        self.current_index_value
    }

    /// Recomputes the cached index value. Only the owner may. With tracking
    /// off nothing is stored and the index value at the baseline is returned.
    /// When the value or its performance cannot be computed nothing is
    /// stored.
    pub fn update_index_value(
        &mut self,
        caller: AccountId,
        now: u64,
        registry: &RegistryFeed,
    ) -> (result: Result<u128, Error>)
        requires
            old(self).wf(),
        ensures
            final(self).wf(),
            result == if caller != old(self)@.owner {
                Err::<u128, Error>(Error::Unauthorized)
            } else if !old(self)@.index_tracking_enabled {
                Ok::<u128, Error>(old(self)@.index_base_value)
            } else {
                old(self)@.refreshable_index(registry.tokens@)
            },
            result.is_err() ==> final(self)@ == old(self)@,
            result.is_ok() ==> final(self)@ == old(self)@.with_index_refreshed(
                now,
                registry.tokens@,
            ),
    {
        self.ensure_owner(caller)?;
        if !self.index_tracking_enabled {
            return Ok(self.index_base_value);
        }
        let old_value = self.current_index_value;
        let new_value = self.calculate_current_index_value(registry)?;
        let performance_bp = self.calculate_performance_bp(new_value)?;
        let total_portfolio_value = match self.calculate_total_portfolio_value(registry) {
            Ok(total) => total,
            Err(_) => 0,
        };
        self.current_index_value = new_value;
        self.last_index_update = now;
        self.events.push(
            PortfolioEvent::IndexValueUpdated(
                IndexValueUpdated {
                    old_value,
                    new_value,
                    performance_bp,
                    total_portfolio_value,
                    timestamp: now,
                },
            ),
        );
        Ok(new_value)
    }

    /// Refreshes the index value after the holdings changed, as far as it
    /// can be computed.
    pub(super) fn trigger_index_update(&mut self, now: u64, registry: &RegistryFeed)
        requires
            old(self).wf(),
        ensures
            final(self).wf(),
            final(self)@ == old(self)@.with_index_refreshed(now, registry.tokens@),
    {
        if self.index_tracking_enabled {
            let owner = self.owner;
            let _ = self.update_index_value(owner, now, registry);
        }
    }

    /// Performance of the cached index value, in basis points.
    pub fn get_index_performance(&self) -> (result: Result<i32, Error>)
        ensures
            result == self@.performance_bp(self@.current_index_value),
    {
        self.calculate_performance_bp(self.current_index_value)
    }

    /// Performance of the index value at the prices that the registry
    /// reports.
    pub fn get_realtime_index_performance(
        &self,
        registry: &RegistryFeed,
    ) -> (result: Result<i32, Error>)
        requires
            self.wf(),
        ensures
            result == match self@.index_value(registry.tokens@) {
                Ok(value) => self@.performance_bp(value),
                Err(e) => Err::<i32, Error>(e),
            },
    {
        let current_value = self.calculate_current_index_value(registry)?;
        self.calculate_performance_bp(current_value)
    }

    /// The index value at the baseline, the value of the portfolio at the
    /// baseline, the time of deployment, and whether tracking is on.
    pub fn get_index_base_metrics(&self) -> (r: (u128, u128, u64, bool))
        ensures
            r == (
                self@.index_base_value,
                self@.base_portfolio_value,
                self@.deployment_timestamp,
                self@.index_tracking_enabled,
            ),
    {
        (
            self.index_base_value,
            self.base_portfolio_value,
            self.deployment_timestamp,
            self.index_tracking_enabled,
        )
    }

    /// Plancks shown in USD at the display rate.
    fn convert_plancks_to_usd(&self, plancks: u128) -> (result: Result<u128, Error>)
        ensures
            result == Ok::<u128, Error>(plancks / DISPLAY_USD_RATE),
    {
        let usd_value = match plancks.checked_div(DISPLAY_USD_RATE) {
            Some(value) => value,
            None => 0,
        };
        Ok(usd_value)
    }

    /// The cached index value in USD.
    pub fn get_index_value_usd(&self) -> (result: Result<u128, Error>)
        ensures
            result == Ok::<u128, Error>(self@.current_index_value / DISPLAY_USD_RATE),
    {
        self.convert_plancks_to_usd(self.current_index_value)
    }

    /// The index value in USD at the prices that the registry reports.
    pub fn get_realtime_index_value_usd(
        &self,
        registry: &RegistryFeed,
    ) -> (result: Result<u128, Error>)
        requires
            self.wf(),
        ensures
            result == match self@.index_value(registry.tokens@) {
                Ok(value) => Ok::<u128, Error>(value / DISPLAY_USD_RATE),
                Err(e) => Err::<u128, Error>(e),
            },
    {
        let current_value = self.calculate_current_index_value(registry)?;
        self.convert_plancks_to_usd(current_value)
    }

    /// Whether the cached index value is older than an hour. Without
    /// tracking it is never stale.
    pub fn is_index_value_stale(&self, now: u64) -> (r: bool)
        ensures
            r == (self@.index_tracking_enabled && now.saturating_sub(self@.last_index_update)
                > INDEX_STALENESS_MS),
    {
        if !self.index_tracking_enabled {
            return false;
        }
        now.saturating_sub(self.last_index_update) > INDEX_STALENESS_MS
    }

    /// Milliseconds since the cached index value was computed.
    pub fn get_index_update_age(&self, now: u64) -> (r: u64)
        ensures
            r == now.saturating_sub(self@.last_index_update),
    {
        now.saturating_sub(self.last_index_update)
    }

    /// Recomputes the cached index value and returns it with its
    /// performance. Only the owner may.
    pub fn refresh_index_value(
        &mut self,
        caller: AccountId,
        now: u64,
        registry: &RegistryFeed,
    ) -> (result: Result<(u128, i32), Error>)
        requires
            old(self).wf(),
        ensures
            final(self).wf(),
            result == if caller != old(self)@.owner {
                Err::<(u128, i32), Error>(Error::Unauthorized)
            } else if !old(self)@.index_tracking_enabled {
                match old(self)@.performance_bp(old(self)@.current_index_value) {
                    Ok(bp) => Ok::<(u128, i32), Error>((old(self)@.index_base_value, bp)),
                    Err(e) => Err::<(u128, i32), Error>(e),
                }
            } else {
                match old(self)@.refreshable_index(registry.tokens@) {
                    Ok(value) => Ok::<(u128, i32), Error>(
                        (value, old(self)@.performance_bp(value).unwrap()),
                    ),
                    Err(e) => Err::<(u128, i32), Error>(e),
                }
            },
            result.is_err() ==> final(self)@ == old(self)@,
            result.is_ok() ==> final(self)@ == old(self)@.with_index_refreshed(
                now,
                registry.tokens@,
            ),
    {
        self.ensure_owner(caller)?;
        if !self.index_tracking_enabled {
            let performance = self.get_index_performance()?;
            return Ok((self.index_base_value, performance));
        }
        let new_value = self.update_index_value(caller, now, registry)?;
        match self.get_index_performance() {
            Ok(performance) => Ok((new_value, performance)),
            Err(e) => Err(e),
        }
    }

    /// The cached index value, the index value at the baseline, the
    /// performance of the cached value, and the time it was computed.
    pub fn get_index_summary(&self) -> (result: Result<(u128, u128, i32, u64), Error>)
        ensures
            result == match self@.performance_bp(self@.current_index_value) {
                Ok(bp) => Ok::<(u128, u128, i32, u64), Error>(
                    (
                        self@.current_index_value,
                        self@.index_base_value,
                        bp,
                        self@.last_index_update,
                    ),
                ),
                Err(e) => Err::<(u128, u128, i32, u64), Error>(e),
            },
    {
        let performance = self.get_index_performance()?;
        Ok((self.current_index_value, self.index_base_value, performance, self.last_index_update))
    }

    /// Turns index tracking on or off. Turning it on without a baseline sets
    /// the baseline if there are holdings; if that fails, nothing changes.
    /// Only the owner may.
    pub fn set_index_tracking(
        &mut self,
        caller: AccountId,
        now: u64,
        enabled: bool,
        registry: &RegistryFeed,
    ) -> (result: Result<(), Error>)
        requires
            old(self).wf(),
        ensures
            final(self).wf(),
            result == if caller != old(self)@.owner {
                Err::<(), Error>(Error::Unauthorized)
            } else if enabled && old(self)@.base_portfolio_value == 0 && old(self)@.holdings.len()
                > 0 {
                old(self)@.initialize_outcome(caller, registry.tokens@)
            } else {
                Ok::<(), Error>(())
            },
            result.is_err() ==> final(self)@ == old(self)@,
            result.is_ok() ==> final(self)@ == if enabled && old(self)@.base_portfolio_value == 0
                && old(self)@.holdings.len() > 0 {
                old(self)@.with_baseline(caller, now, registry.tokens@)
            } else {
                PortfolioView { index_tracking_enabled: enabled, ..old(self)@ }
            },
    {
        self.ensure_owner(caller)?;
        if enabled && self.base_portfolio_value == 0 && self.holdings.len() > 0 {
            return self.initialize_base_portfolio_value(caller, now, registry);
        }
        self.index_tracking_enabled = enabled;
        Ok(())
    }

    pub fn is_index_tracking_enabled(&self) -> (r: bool)
        ensures
            r == self@.index_tracking_enabled,
    {
        self.index_tracking_enabled
    }

    /// Sets the baseline to the value that the portfolio has now, whatever it
    /// is, and the cached index value to its base. A baseline of zero lets
    /// the baseline be set anew. Only the owner may.
    pub fn emergency_reset_base_value(
        &mut self,
        caller: AccountId,
        now: u64,
        reason: String,
        registry: &RegistryFeed,
    ) -> (result: Result<(), Error>)
        requires
            old(self).wf(),
        ensures
            final(self).wf(),
            result == if caller != old(self)@.owner {
                Err::<(), Error>(Error::Unauthorized)
            } else {
                match old(self)@.total_portfolio_value(registry.tokens@) {
                    Ok(_) => Ok::<(), Error>(()),
                    Err(e) => Err::<(), Error>(e),
                }
            },
            result.is_err() ==> final(self)@ == old(self)@,
            result.is_ok() ==> final(self)@ == (PortfolioView {
                base_portfolio_value: old(self)@.total_portfolio_value(registry.tokens@).unwrap(),
                current_index_value: old(self)@.index_base_value,
                last_index_update: now,
                ..old(self)@
            }).with_event(
                PortfolioEvent::BasePortfolioValueSet(
                    BasePortfolioValueSet {
                        base_value: old(self)@.index_base_value,
                        base_portfolio_value: old(self)@.total_portfolio_value(
                            registry.tokens@,
                        ).unwrap(),
                        deployment_timestamp: now,
                        set_by: caller,
                    },
                ),
            ).with_event(
                PortfolioEvent::OperationFailed(
                    OperationFailed {
                        operation: "emergency_reset_base_value",
                        error: reason,
                        caller,
                        timestamp: now,
                    },
                ),
            ),
    {
        self.ensure_owner(caller)?;
        let current_value = self.calculate_total_portfolio_value(registry)?;
        self.base_portfolio_value = current_value;
        self.current_index_value = self.index_base_value;
        self.last_index_update = now;
        self.events.push(
            PortfolioEvent::BasePortfolioValueSet(
                BasePortfolioValueSet {
                    base_value: self.index_base_value,
                    base_portfolio_value: current_value,
                    deployment_timestamp: now,
                    set_by: caller,
                },
            ),
        );
        self.events.push(
            PortfolioEvent::OperationFailed(
                OperationFailed {
                    operation: "emergency_reset_base_value",
                    error: reason,
                    caller,
                    timestamp: now,
                },
            ),
        );
        Ok(())
    }
}

} // verus!
