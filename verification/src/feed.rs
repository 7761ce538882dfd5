//! What collaborators answered, gathered by the host before it calls into a
//! component: the quotes of the oracles, and the answers of the registry.

use crate::shared::{AccountId, EnrichedTokenData, Error};
use vstd::prelude::*;

verus! {

/// The answers of one oracle about one token. `None` stands for a call that
/// failed or a value that the oracle does not hold.
#[derive(Clone, Copy, Debug, PartialEq, Eq)]
pub struct OracleQuote {
    pub oracle: AccountId,
    pub token: AccountId,
    pub price: Option<u128>,
    pub market_cap: Option<u128>,
    pub market_volume: Option<u128>,
}

/// A snapshot of oracle answers. Where a pair occurs more than once the first
/// quote counts; a pair that does not occur counts as a failed call.
#[derive(Debug)]
pub struct OracleFeed {
    pub quotes: Vec<OracleQuote>,
}

/// The first quote in `quotes` that `oracle` gave about `token`.
pub open spec fn quote_for(
    quotes: Seq<OracleQuote>,
    oracle: AccountId,
    token: AccountId,
) -> Option<OracleQuote>
    decreases quotes.len(),
{
    if quotes.len() == 0 {
        None
    } else if quotes[0].oracle == oracle && quotes[0].token == token {
        Some(quotes[0])
    } else {
        quote_for(quotes.skip(1), oracle, token)
    }
}

impl View for OracleFeed {
    type V = Seq<OracleQuote>;

    open spec fn view(&self) -> Seq<OracleQuote> {
        self.quotes@
    }
}

/// The price that `oracle` quoted for `token`.
pub open spec fn quoted_price(
    quotes: Seq<OracleQuote>,
    oracle: AccountId,
    token: AccountId,
) -> Option<u128> {
    match quote_for(quotes, oracle, token) {
        Some(q) => q.price,
        None => None,
    }
}

/// The market capitalisation that `oracle` quoted for `token`.
pub open spec fn quoted_market_cap(
    quotes: Seq<OracleQuote>,
    oracle: AccountId,
    token: AccountId,
) -> Option<u128> {
    match quote_for(quotes, oracle, token) {
        Some(q) => q.market_cap,
        None => None,
    }
}

/// The trading volume that `oracle` quoted for `token`.
pub open spec fn quoted_market_volume(
    quotes: Seq<OracleQuote>,
    oracle: AccountId,
    token: AccountId,
) -> Option<u128> {
    match quote_for(quotes, oracle, token) {
        Some(q) => q.market_volume,
        None => None,
    }
}

/// Market capitalisation and volume of `token`, present only when `oracle`
/// answered both questions.
pub open spec fn quoted_market_data(
    quotes: Seq<OracleQuote>,
    oracle: AccountId,
    token: AccountId,
) -> Option<(u128, u128)> {
    match (quoted_market_cap(quotes, oracle, token), quoted_market_volume(quotes, oracle, token)) {
        (Some(cap), Some(volume)) => Some((cap, volume)),
        _ => None,
    }
}

impl OracleFeed {
    /// A feed in which every call has failed.
    pub fn new() -> (feed: Self)
        ensures
            feed@ == Seq::<OracleQuote>::empty(),
    {
        OracleFeed { quotes: Vec::new() }
    }

    /// Appends a quote; it counts only if no earlier quote has the same pair.
    pub fn push(&mut self, quote: OracleQuote)
        ensures
            final(self)@ == old(self)@.push(quote),
    {
        self.quotes.push(quote);
    }

    /// The first quote of `oracle` about `token`.
    pub fn quote(&self, oracle: AccountId, token: AccountId) -> (r: Option<OracleQuote>)
        ensures
            r == quote_for(self@, oracle, token),
    {
        let n = self.quotes.len();
        let mut i: usize = 0;
        assert(self@.subrange(0, n as int) =~= self@);
        while i < n
            invariant
                n == self.quotes@.len(),
                i <= n,
                quote_for(self@, oracle, token) == quote_for(
                    self@.subrange(i as int, n as int),
                    oracle,
                    token,
                ),
            decreases n - i,
        {
            let q = self.quotes[i];
            let ghost rest = self@.subrange(i as int, n as int);
            assert(rest.skip(1) =~= self@.subrange(i + 1, n as int));
            if q.oracle == oracle && q.token == token {
                return Some(q);
            }
            i = i + 1;
        }
        None
    }

    pub fn get_price(&self, oracle: AccountId, token: AccountId) -> (r: Option<u128>)
        ensures
            r == quoted_price(self@, oracle, token),
    {
        match self.quote(oracle, token) {
            Some(q) => q.price,
            None => None,
        }
    }

    pub fn get_market_cap(&self, oracle: AccountId, token: AccountId) -> (r: Option<u128>)
        ensures
            r == quoted_market_cap(self@, oracle, token),
    {
        match self.quote(oracle, token) {
            Some(q) => q.market_cap,
            None => None,
        }
    }

    pub fn get_market_volume(&self, oracle: AccountId, token: AccountId) -> (r: Option<u128>)
        ensures
            r == quoted_market_volume(self@, oracle, token),
    {
        match self.quote(oracle, token) {
            Some(q) => q.market_volume,
            None => None,
        }
    }
}

/// What the registry answered when asked for the data of one token.
#[derive(Clone, Copy, Debug, PartialEq, Eq)]
pub struct TokenAnswer {
    pub token_id: u32,
    pub answer: Result<EnrichedTokenData, Error>,
}

/// What the registry answered when asked for the tokens of one tier.
#[derive(Debug, PartialEq, Eq)]
pub struct TierAnswer {
    /// The tier that was asked about, as a number.
    pub tier: u32,
    pub token_ids: Vec<u32>,
}

/// A snapshot of registry answers. A question that is not answered here
/// counts as a call that failed; of two answers to one question the first
/// counts.
#[derive(Debug)]
pub struct RegistryFeed {
    pub tokens: Vec<TokenAnswer>,
    /// The active tier as a number, `None` when the call failed.
    pub active_tier: Option<u32>,
    pub tiers: Vec<TierAnswer>,
}

/// The first answer in `answers` about `token_id`.
pub open spec fn token_answer(
    answers: Seq<TokenAnswer>,
    token_id: u32,
) -> Option<Result<EnrichedTokenData, Error>>
    decreases answers.len(),
{
    if answers.len() == 0 {
        None
    } else if answers[0].token_id == token_id {
        Some(answers[0].answer)
    } else {
        token_answer(answers.skip(1), token_id)
    }
}

/// The first answer in `answers` about `tier`.
pub open spec fn tier_answer(answers: Seq<TierAnswer>, tier: u32) -> Option<Seq<u32>>
    decreases answers.len(),
{
    if answers.len() == 0 {
        None
    } else if answers[0].tier == tier {
        Some(answers[0].token_ids@)
    } else {
        tier_answer(answers.skip(1), tier)
    }
}

impl RegistryFeed {
    /// A feed in which every call has failed.
    pub fn new() -> (feed: Self)
        ensures
            feed.tokens@ == Seq::<TokenAnswer>::empty(),
            feed.active_tier.is_none(),
            feed.tiers@ == Seq::<TierAnswer>::empty(),
    {
        RegistryFeed { tokens: Vec::new(), active_tier: None, tiers: Vec::new() }
    }

    /// What the registry answered about `token_id`, `None` for a failed call.
    pub fn token_data(&self, token_id: u32) -> (r: Option<Result<EnrichedTokenData, Error>>)
        ensures
            r == token_answer(self.tokens@, token_id),
    {
        let n = self.tokens.len();
        let mut i: usize = 0;
        assert(self.tokens@.subrange(0, n as int) =~= self.tokens@);
        while i < n
            invariant
                n == self.tokens@.len(),
                i <= n,
                token_answer(self.tokens@, token_id) == token_answer(
                    self.tokens@.subrange(i as int, n as int),
                    token_id,
                ),
            decreases n - i,
        {
            let a = self.tokens[i];
            let ghost rest = self.tokens@.subrange(i as int, n as int);
            assert(rest.skip(1) =~= self.tokens@.subrange(i + 1, n as int));
            if a.token_id == token_id {
                return Some(a.answer);
            }
            i = i + 1;
        }
        None
    }

    /// The tokens that the registry listed for `tier`, `None` for a failed
    /// call.
    pub fn tokens_by_tier(&self, tier: u32) -> (r: Option<&Vec<u32>>)
        ensures
            match r {
                Some(ids) => tier_answer(self.tiers@, tier) == Some(ids@),
                None => tier_answer(self.tiers@, tier).is_none(),
            },
    {
        let n = self.tiers.len();
        let mut i: usize = 0;
        assert(self.tiers@.subrange(0, n as int) =~= self.tiers@);
        while i < n
            invariant
                n == self.tiers@.len(),
                i <= n,
                tier_answer(self.tiers@, tier) == tier_answer(
                    self.tiers@.subrange(i as int, n as int),
                    tier,
                ),
            decreases n - i,
        {
            let ghost rest = self.tiers@.subrange(i as int, n as int);
            assert(rest.skip(1) =~= self.tiers@.subrange(i + 1, n as int));
            if self.tiers[i].tier == tier {
                return Some(&self.tiers[i].token_ids);
            }
            i = i + 1;
        }
        None
    }
}

} // verus!
