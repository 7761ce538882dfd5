//! The value of the holdings at the prices that the registry reports.

use crate::feed::RegistryFeed;
use crate::portfolio::{Portfolio, PortfolioComposition};
use crate::portfolio::holdings::{holding_of, total_amount, TokenHolding};
use crate::portfolio::model::market_value;
use crate::shared::Error;
use vstd::prelude::*;

verus! {

impl Portfolio {
    /// The value of the whole portfolio at the prices that the registry
    /// reports. A holding for which the registry does not answer, or whose
    /// amount times price does not fit, counts with its bare amount; if the
    /// registry answers for none of the holdings, the call fails.
    pub fn calculate_total_portfolio_value(
        &self,
        registry: &RegistryFeed,
    ) -> (result: Result<u128, Error>)
        requires
            self.wf(),
        ensures
            result == self@.total_portfolio_value(registry.tokens@),
    {
        let n = self.holdings.len();
        if n == 0 {
            return Ok(self.usdc_balance);
        }
        let mut total_value: u128 = 0;
        let mut successful_valuations: u32 = 0;
        let mut i: usize = 0;
        while i < n
            invariant
                self.wf(),
                n == self@.holdings.len(),
                i <= n,
                total_value == self@.valued_total(registry.tokens@, i as int),
                successful_valuations == self@.priced_count(registry.tokens@, i as int),
                successful_valuations <= i,
            decreases n - i,
        {
            let record = self.holdings[i];
            match self.call_registry_get_token_data(record.token_id, registry) {
                Ok(token_data) => {
                    let token_value = match record.holding.amount.checked_mul(token_data.price) {
                        Some(value) => value,
                        None => record.holding.amount,
                    };
                    total_value = total_value.saturating_add(token_value);
                    successful_valuations = successful_valuations + 1;
                },
                Err(_) => {
                    total_value = total_value.saturating_add(record.holding.amount);
                },
            }
            i = i + 1;
        }
        total_value = total_value.saturating_add(self.usdc_balance);
        if successful_valuations == 0 {
            return Err(Error::OracleCallFailed);
        }
        Ok(total_value)
    }

    /// The value of the portfolio, or else the amounts held plus the cash
    /// buffer.
    pub fn calculate_portfolio_value_with_fallback(&self, registry: &RegistryFeed) -> (r: u128)
        requires
            self.wf(),
        ensures
            r == match self@.total_portfolio_value(registry.tokens@) {
                Ok(value) => value,
                Err(_) => total_amount(self@.holdings).saturating_add(self@.usdc_balance),
            },
    {
        match self.calculate_total_portfolio_value(registry) {
            Ok(value) => value,
            Err(_) => {
                let mut fallback_value: u128 = 0;
                let n = self.holdings.len();
                let mut i: usize = 0;
                while i < n
                    invariant
                        n == self@.holdings.len(),
                        i <= n,
                        fallback_value == total_amount(self@.holdings.take(i as int)),
                    decreases n - i,
                {
                    proof {
                        assert(self@.holdings.take(i + 1).drop_last() =~= self@.holdings.take(
                            i as int,
                        ));
                    }
                    fallback_value = fallback_value.saturating_add(self.holdings[i].holding.amount);
                    i = i + 1;
                }
                assert(self@.holdings.take(n as int) =~= self@.holdings);
                fallback_value.saturating_add(self.usdc_balance)
            },
        }
    }

    /// The value of one holding, amount times price. A product that does not
    /// fit is an error.
    pub fn get_token_holding_value(
        &self,
        token_id: u32,
        registry: &RegistryFeed,
    ) -> (result: Result<u128, Error>)
        requires
            self.wf(),
        ensures
            result == match holding_of(self@.holdings, token_id) {
                None => Err::<u128, Error>(Error::TokenNotFound),
                Some(holding) => match self@.token_data(registry.tokens@, token_id) {
                    Err(e) => Err::<u128, Error>(e),
                    Ok(data) => if holding.amount * data.price > u128::MAX {
                        Err::<u128, Error>(Error::InvalidParameter)
                    } else {
                        Ok::<u128, Error>((holding.amount * data.price) as u128)
                    },
                },
            },
    {
        let holding = match self.get_token_holding(token_id) {
            Some(holding) => holding,
            None => {
                return Err(Error::TokenNotFound);
            },
        };
        let token_data = self.call_registry_get_token_data(token_id, registry)?;
        match holding.amount.checked_mul(token_data.price) {
            Some(value) => Ok(value),
            None => Err(Error::InvalidParameter),
        }
    }

    /// For each holding the id of its token, the amount held and its market
    /// value.
    pub fn get_holdings_with_values(
        &self,
        registry: &RegistryFeed,
    ) -> (result: Result<Vec<(u32, u128, u128)>, Error>)
        ensures
            result.is_ok(),
            result.unwrap()@ == Seq::new(
                self@.holdings.len(),
                |i: int|
                    (
                        self@.holdings[i].token_id,
                        self@.holdings[i].holding.amount,
                        market_value(
                            self@.holdings[i],
                            self@.token_data(registry.tokens@, self@.holdings[i].token_id),
                        ),
                    ),
            ),
    {
        let mut holdings_with_values: Vec<(u32, u128, u128)> = Vec::new();
        let n = self.holdings.len();
        let mut i: usize = 0;
        while i < n
            invariant
                n == self@.holdings.len(),
                i <= n,
                holdings_with_values@.len() == i,
                forall|j: int|
                    0 <= j < i ==> holdings_with_values@[j] == (
                        self@.holdings[j].token_id,
                        self@.holdings[j].holding.amount,
                        market_value(
                            self@.holdings[j],
                            self@.token_data(registry.tokens@, self@.holdings[j].token_id),
                        ),
                    ),
            decreases n - i,
        {
            let record = self.holdings[i];
            match self.call_registry_get_token_data(record.token_id, registry) {
                Ok(token_data) => {
                    let value = match record.holding.amount.checked_mul(token_data.price) {
                        Some(value) => value,
                        None => 0,
                    };
                    holdings_with_values.push((record.token_id, record.holding.amount, value));
                },
                Err(_) => {
                    holdings_with_values.push((record.token_id, record.holding.amount, 0));
                },
            }
            i = i + 1;
        }
        Ok(holdings_with_values)
    }

    /// All holdings, with their market value and the cash buffer as the
    /// total.
    pub fn get_portfolio_composition_with_market_data(
        &self,
        registry: &RegistryFeed,
    ) -> (result: Result<PortfolioComposition, Error>)
        requires
            self.wf(),
        ensures
            result.is_ok(),
            result.unwrap().total_tokens == self@.holdings.len(),
            result.unwrap().total_value == self@.market_total(
                registry.tokens@,
                self@.holdings.len() as int,
            ).saturating_add(self@.usdc_balance),
            result.unwrap().holdings@ == Seq::new(
                self@.holdings.len(),
                |i: int| (self@.holdings[i].token_id, self@.holdings[i].holding),
            ),
    {
        let mut holdings_vec: Vec<(u32, TokenHolding)> = Vec::new();
        let mut total_value: u128 = 0;
        let n = self.holdings.len();
        let mut i: usize = 0;
        while i < n
            invariant
                n == self@.holdings.len(),
                i <= n,
                holdings_vec@.len() == i,
                forall|j: int|
                    0 <= j < i ==> holdings_vec@[j] == (
                        self@.holdings[j].token_id,
                        self@.holdings[j].holding,
                    ),
                total_value == self@.market_total(registry.tokens@, i as int),
            decreases n - i,
        {
            let record = self.holdings[i];
            match self.call_registry_get_token_data(record.token_id, registry) {
                Ok(token_data) => {
                    let token_value = match record.holding.amount.checked_mul(token_data.price) {
                        Some(value) => value,
                        None => 0,
                    };
                    total_value = total_value.saturating_add(token_value);
                    holdings_vec.push((record.token_id, record.holding));
                },
                Err(_) => {
                    holdings_vec.push((record.token_id, record.holding));
                },
            }
            i = i + 1;
        }
        total_value = total_value.saturating_add(self.usdc_balance);
        Ok(PortfolioComposition { total_tokens: n as u32, total_value, holdings: holdings_vec })
    }

    /// For each holding the id of its token, the amount held, the price and
    /// the market value; price and value are 0 where the registry does not
    /// answer.
    pub fn get_portfolio_valuation_breakdown(
        &self,
        registry: &RegistryFeed,
    ) -> (result: Result<Vec<(u32, u128, u128, u128)>, Error>)
        ensures
            result.is_ok(),
            result.unwrap()@ == Seq::new(
                self@.holdings.len(),
                |i: int|
                    (
                        self@.holdings[i].token_id,
                        self@.holdings[i].holding.amount,
                        match self@.token_data(registry.tokens@, self@.holdings[i].token_id) {
                            Ok(data) => data.price,
                            Err(_) => 0,
                        },
                        market_value(
                            self@.holdings[i],
                            self@.token_data(registry.tokens@, self@.holdings[i].token_id),
                        ),
                    ),
            ),
    {
        let mut breakdown: Vec<(u32, u128, u128, u128)> = Vec::new();
        let n = self.holdings.len();
        let mut i: usize = 0;
        while i < n
            invariant
                n == self@.holdings.len(),
                i <= n,
                breakdown@.len() == i,
                forall|j: int|
                    0 <= j < i ==> breakdown@[j] == (
                        self@.holdings[j].token_id,
                        self@.holdings[j].holding.amount,
                        match self@.token_data(registry.tokens@, self@.holdings[j].token_id) {
                            Ok(data) => data.price,
                            Err(_) => 0,
                        },
                        market_value(
                            self@.holdings[j],
                            self@.token_data(registry.tokens@, self@.holdings[j].token_id),
                        ),
                    ),
            decreases n - i,
        {
            let record = self.holdings[i];
            match self.call_registry_get_token_data(record.token_id, registry) {
                Ok(token_data) => {
                    let total_value = match record.holding.amount.checked_mul(token_data.price) {
                        Some(value) => value,
                        None => 0,
                    };
                    breakdown.push(
                        (record.token_id, record.holding.amount, token_data.price, total_value),
                    );
                },
                Err(_) => {
                    breakdown.push((record.token_id, record.holding.amount, 0, 0));
                },
            }
            i = i + 1;
        }
        Ok(breakdown)
    }
}

} // verus!
