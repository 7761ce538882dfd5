//! A constant-product swap pool for pairs of tokens.

use crate::math::{saturating_mul, saturating_mul_spec};
use crate::shared::{AccountId, Error, ReentrancyGuard};
use vstd::prelude::*;

verus! {

/// The reserves of a pair of tokens.
#[derive(Clone, Copy, Debug, PartialEq, Eq)]
pub struct Pool {
    pub token_a: AccountId,
    pub token_b: AccountId,
    pub reserve_a: u128,
    pub reserve_b: u128,
}

#[derive(Clone, Copy, Debug, PartialEq, Eq)]
pub struct SwapExecuted {
    pub from: AccountId,
    pub to: AccountId,
    pub amount_in: u128,
    pub amount_out: u128,
}

/// The exchange.
#[derive(Clone, Debug, PartialEq, Eq)]
pub struct HydraDxDex {
    /// The pools, in the order in which their pairs were first set.
    pools: Vec<Pool>,
    owner: AccountId,
    reentrancy_guard: ReentrancyGuard,
    events: Vec<SwapExecuted>,
}

/// The state of the exchange as contracts speak of it.
pub struct DexView {
    /// The pools, in the order in which their pairs were first set.
    pub pools: Seq<Pool>,
    pub owner: AccountId,
    /// Events raised and not yet taken by the host, oldest first.
    pub events: Seq<SwapExecuted>,
}

/// No pair, taken in its order, has two pools.
pub open spec fn pairs_distinct(pools: Seq<Pool>) -> bool {
    forall|i: int, j: int|
        0 <= i < j < pools.len() ==> !(pools[i].token_a == pools[j].token_a && pools[i].token_b
            == pools[j].token_b)
}

/// There is a pool for the pair `token_a`, `token_b`, in this order.
pub open spec fn has_pool(pools: Seq<Pool>, token_a: AccountId, token_b: AccountId) -> bool {
    exists|i: int|
        0 <= i < pools.len() && (#[trigger] pools[i]).token_a == token_a && pools[i].token_b
            == token_b
}

/// The position of the pool for the pair `token_a`, `token_b`.
pub open spec fn pool_position(pools: Seq<Pool>, token_a: AccountId, token_b: AccountId) -> int {
    choose|i: int|
        0 <= i < pools.len() && (#[trigger] pools[i]).token_a == token_a && pools[i].token_b
            == token_b
}

/// The position of the pool that a swap from `from` to `to` uses: the pool
/// of the pair in this order, else the pool of the pair in the other order.
pub open spec fn swap_pool(pools: Seq<Pool>, from: AccountId, to: AccountId) -> Option<int> {
    if has_pool(pools, from, to) {
        Some(pool_position(pools, from, to))
    } else if has_pool(pools, to, from) {
        Some(pool_position(pools, to, from))
    } else {
        None
    }
}

/// What a swap of `amount_in` yields from reserves `reserve_in` and
/// `reserve_out`: `reserve_out * amount_in / (reserve_in + amount_in)`,
/// rounded down, with product and sum held at the numeric bound.
pub open spec fn amount_out(reserve_in: u128, reserve_out: u128, amount_in: u128) -> u128 {
    (saturating_mul_spec(reserve_out, amount_in) / reserve_in.saturating_add(amount_in)) as u128
}

/// The reserve that a swap from `from` pays into, and the reserve it takes
/// from.
pub open spec fn reserves_for(pool: Pool, from: AccountId) -> (u128, u128) {
    if pool.token_a == from {
        (pool.reserve_a, pool.reserve_b)
    } else {
        (pool.reserve_b, pool.reserve_a)
    }
}

/// The pool after a swap from `from` of `amount_in`.
pub open spec fn pool_after_swap(pool: Pool, from: AccountId, amount_in: u128) -> Pool {
    let (reserve_in, reserve_out) = reserves_for(pool, from);
    let paid_out = amount_out(reserve_in, reserve_out, amount_in);
    if pool.token_a == from {
        Pool {
            reserve_a: reserve_in.saturating_add(amount_in),
            reserve_b: reserve_out.saturating_sub(paid_out),
            ..pool
        }
    } else {
        Pool {
            reserve_b: reserve_in.saturating_add(amount_in),
            reserve_a: reserve_out.saturating_sub(paid_out),
            ..pool
        }
    }
}

/// The price of `token` in `pool`, if the pool prices it: the reserve of the
/// token over the reserve of the other token, rounded down, where that
/// reserve is not zero.
pub open spec fn pool_price(pool: Pool, token: AccountId) -> Option<u128> {
    if pool.token_a == token && pool.reserve_b > 0 {
        Some(pool.reserve_a / pool.reserve_b)
    } else if pool.token_b == token && pool.reserve_a > 0 {
        Some(pool.reserve_b / pool.reserve_a)
    } else {
        None
    }
}

/// The price of `token` in the first of `pools` that prices it.
pub open spec fn first_price(pools: Seq<Pool>, token: AccountId) -> Option<u128>
    decreases pools.len(),
{
    if pools.len() == 0 {
        None
    } else {
        match pool_price(pools[0], token) {
            Some(price) => Some(price),
            None => first_price(pools.skip(1), token),
        }
    }
}

impl DexView {
    /// What a swap comes to: the route must be exactly `from`, `to`; there
    /// must be a pool for the pair; and the pool must hold something of both
    /// tokens. Any amount may be paid in, also more than the pool holds.
    pub open spec fn swap_outcome(
        self,
        from: AccountId,
        to: AccountId,
        amount: u128,
        path: Seq<AccountId>,
    ) -> Result<u128, Error> {
        if path.len() != 2 || path[0] != from || path[1] != to {
            Err(Error::InvalidParameters)
        } else {
            match swap_pool(self.pools, from, to) {
                None => Err(Error::TokenNotFound),
                Some(index) => {
                    let (reserve_in, reserve_out) = reserves_for(self.pools[index], from);
                    if reserve_in == 0 || reserve_out == 0 {
                        Err(Error::InsufficientBalance)
                    } else {
                        Ok(amount_out(reserve_in, reserve_out, amount))
                    }
                },
            }
        }
    }
}

impl View for HydraDxDex {
    type V = DexView;

    closed spec fn view(&self) -> DexView {
        DexView { pools: self.pools@, owner: self.owner, events: self.events@ }
    }
}

impl HydraDxDex {
    /// No pair has two pools, and the exchange is not locked.
    pub closed spec fn wf(&self) -> bool {
        &&& pairs_distinct(self.pools@)
        &&& !self.reentrancy_guard.is_locked()
    }

    /// An exchange without pools, owned by `caller`.
    pub fn new(caller: AccountId) -> (dex: Self)
        ensures
            dex.wf(),
            dex@ == (DexView { pools: Seq::empty(), owner: caller, events: Seq::empty() }),
    {
        HydraDxDex {
            pools: Vec::new(),
            owner: caller,
            reentrancy_guard: ReentrancyGuard::new(),
            events: Vec::new(),
        }
    }

    /// Hands the recorded events to the host and clears the log.
    pub fn take_events(&mut self) -> (taken: Vec<SwapExecuted>)
        requires
            old(self).wf(),
        ensures
            final(self).wf(),
            taken@ == old(self)@.events,
            final(self)@ == (DexView { events: Seq::empty(), ..old(self)@ }),
    {
        let mut taken: Vec<SwapExecuted> = Vec::new();
        core::mem::swap(&mut taken, &mut self.events);
        taken
    }

    /// The position of the pool for the pair `token_a`, `token_b`.
    fn find_pool(&self, token_a: AccountId, token_b: AccountId) -> (r: Option<usize>)
        requires
            pairs_distinct(self@.pools),
        ensures
            match r {
                Some(i) => i < self@.pools.len() && has_pool(self@.pools, token_a, token_b)
                    && pool_position(self@.pools, token_a, token_b) == i,
                None => !has_pool(self@.pools, token_a, token_b),
            },
    {
        let mut i: usize = 0;
        while i < self.pools.len()
            invariant
                pairs_distinct(self@.pools),
                i <= self.pools@.len(),
                forall|j: int|
                    0 <= j < i ==> !((#[trigger] self.pools@[j]).token_a == token_a
                        && self.pools@[j].token_b == token_b),
            decreases self.pools@.len() - i,
        {
            if self.pools[i].token_a == token_a && self.pools[i].token_b == token_b {
                return Some(i);
            }
            i = i + 1;
        }
        None
    }

    /// Sets the reserves of a pair, as a new pool or in place of the pool
    /// that the pair has. Only the owner may.
    pub fn set_pool(
        &mut self,
        caller: AccountId,
        token_a: AccountId,
        token_b: AccountId,
        reserve_a: u128,
        reserve_b: u128,
    ) -> (result: Result<(), Error>)
        requires
            old(self).wf(),
        ensures
            final(self).wf(),
            result == if caller != old(self)@.owner {
                Err::<(), Error>(Error::Unauthorized)
            } else {
                Ok::<(), Error>(())
            },
            result.is_err() ==> final(self)@ == old(self)@,
            result.is_ok() ==> final(self)@ == (DexView {
                pools: if has_pool(old(self)@.pools, token_a, token_b) {
                    old(self)@.pools.update(
                        pool_position(old(self)@.pools, token_a, token_b),
                        Pool { token_a, token_b, reserve_a, reserve_b },
                    )
                } else {
                    old(self)@.pools.push(Pool { token_a, token_b, reserve_a, reserve_b })
                },
                ..old(self)@
            }),
    {
        if caller != self.owner {
            return Err(Error::Unauthorized);
        }
        let pool = Pool { token_a, token_b, reserve_a, reserve_b };
        match self.find_pool(token_a, token_b) {
            Some(index) => {
                self.pools.set(index, pool);
            },
            None => {
                self.pools.push(pool);
            },
        }
        Ok(())
    }

    /// Swaps `amount` of `from` for `to` along the route `path`, which must
    /// be exactly these two tokens. Returns the amount paid out.
    pub fn swap(
        &mut self,
        from: AccountId,
        to: AccountId,
        amount: u128,
        path: Vec<AccountId>,
    ) -> (result: Result<u128, Error>)
        requires
            old(self).wf(),
        ensures
            final(self).wf(),
            result == old(self)@.swap_outcome(from, to, amount, path@),
            result.is_err() ==> final(self)@ == old(self)@,
            result.is_ok() ==> ({
                let index = swap_pool(old(self)@.pools, from, to).unwrap();
                final(self)@ == (DexView {
                    pools: old(self)@.pools.update(
                        index,
                        pool_after_swap(old(self)@.pools[index], from, amount),
                    ),
                    events: old(self)@.events.push(
                        SwapExecuted { from, to, amount_in: amount, amount_out: result.unwrap() },
                    ),
                    ..old(self)@
                })
            }),
    {
        self.reentrancy_guard.enter()?;
        let result = self.swap_entered(from, to, amount, path);
        self.reentrancy_guard.exit();
        result
    }

    fn swap_entered(
        &mut self,
        from: AccountId,
        to: AccountId,
        amount: u128,
        path: Vec<AccountId>,
    ) -> (result: Result<u128, Error>)
        requires
            pairs_distinct(old(self)@.pools),
        ensures
            pairs_distinct(final(self)@.pools),
            final(self).reentrancy_guard == old(self).reentrancy_guard,
            result == old(self)@.swap_outcome(from, to, amount, path@),
            result.is_err() ==> final(self)@ == old(self)@,
            result.is_ok() ==> ({
                let index = swap_pool(old(self)@.pools, from, to).unwrap();
                final(self)@ == (DexView {
                    pools: old(self)@.pools.update(
                        index,
                        pool_after_swap(old(self)@.pools[index], from, amount),
                    ),
                    events: old(self)@.events.push(
                        SwapExecuted { from, to, amount_in: amount, amount_out: result.unwrap() },
                    ),
                    ..old(self)@
                })
            }),
    {
        if path.len() != 2 || path[0] != from || path[1] != to {
            return Err(Error::InvalidParameters);
        }
        let index = match self.find_pool(from, to) {
            Some(index) => index,
            None => match self.find_pool(to, from) {
                Some(index) => index,
                None => {
                    return Err(Error::TokenNotFound);
                },
            },
        };
        let mut pool = self.pools[index];
        let forward = pool.token_a == from;
        let (reserve_in, reserve_out) = if forward {
            (pool.reserve_a, pool.reserve_b)
        } else {
            (pool.reserve_b, pool.reserve_a)
        };
        if reserve_in == 0 || reserve_out == 0 {
            return Err(Error::InsufficientBalance);
        }
        let paid_out = saturating_mul(reserve_out, amount) / reserve_in.saturating_add(amount);
        if forward {
            pool.reserve_a = reserve_in.saturating_add(amount);
            pool.reserve_b = reserve_out.saturating_sub(paid_out);
        } else {
            pool.reserve_b = reserve_in.saturating_add(amount);
            pool.reserve_a = reserve_out.saturating_sub(paid_out);
        }
        self.pools.set(index, pool);
        self.events.push(SwapExecuted { from, to, amount_in: amount, amount_out: paid_out });
        Ok(paid_out)
    }

    /// The price of a token in the first pool that prices it.
    pub fn get_token_price(&self, token: AccountId) -> (result: Result<u128, Error>)
        ensures
            result == match first_price(self@.pools, token) {
                Some(price) => Ok::<u128, Error>(price),
                None => Err::<u128, Error>(Error::TokenNotFound),
            },
    {
        let n = self.pools.len();
        let mut i: usize = 0;
        assert(self@.pools.subrange(0, n as int) =~= self@.pools);
        while i < n
            invariant
                n == self@.pools.len(),
                i <= n,
                first_price(self@.pools, token) == first_price(
                    self@.pools.subrange(i as int, n as int),
                    token,
                ),
            decreases n - i,
        {
            let pool = self.pools[i];
            let ghost rest = self@.pools.subrange(i as int, n as int);
            assert(rest.skip(1) =~= self@.pools.subrange(i + 1, n as int));
            if pool.token_a == token && pool.reserve_b > 0 {
                return Ok(pool.reserve_a / pool.reserve_b);
            } else if pool.token_b == token && pool.reserve_a > 0 {
                return Ok(pool.reserve_b / pool.reserve_a);
            }
            i = i + 1;
        }
        Err(Error::TokenNotFound)
    }
}

/// Without overflow a swap pays out `reserve_out * amount_in / (reserve_in +
/// amount_in)`, rounded down. It never pays out more than the reserve holds,
/// and the product of the reserves does not shrink.
pub proof fn lemma_constant_product(reserve_in: u128, reserve_out: u128, amount_in: u128)
    requires
        reserve_in > 0,
        reserve_out * amount_in <= u128::MAX,
        reserve_in + amount_in <= u128::MAX,
    ensures
        amount_out(reserve_in, reserve_out, amount_in) == (reserve_out * amount_in) / (reserve_in
            + amount_in),
        amount_out(reserve_in, reserve_out, amount_in) <= reserve_out,
        (reserve_in + amount_in) * (reserve_out - amount_out(reserve_in, reserve_out, amount_in))
            >= reserve_in * reserve_out,
{
    let paid_out = amount_out(reserve_in, reserve_out, amount_in) as int;
    let total_in = reserve_in + amount_in;
    let product = reserve_out * amount_in;
    assert(total_in * paid_out <= product) by (nonlinear_arith)
        requires
            total_in > 0,
            product >= 0,
            paid_out == product / total_in,
    ;
    assert(paid_out <= reserve_out) by (nonlinear_arith)
        requires
            total_in * paid_out <= reserve_out * amount_in,
            total_in >= amount_in,
            amount_in >= 0,
            total_in > 0,
            paid_out >= 0,
            reserve_out >= 0,
    ;
    assert(total_in * (reserve_out - paid_out) >= reserve_in * reserve_out) by (nonlinear_arith)
        requires
            total_in == reserve_in + amount_in,
            total_in * paid_out <= reserve_out * amount_in,
    ;
}

/// The exchange as a host stores it. Events are not stored: the host takes
/// them before it stores the exchange.
#[derive(Clone, Debug, PartialEq, Eq)]
pub struct DexSnapshot {
    pub pools: Vec<Pool>,
    pub owner: AccountId,
}

impl View for DexSnapshot {
    type V = DexView;

    /// The exchange that the snapshot stands for.
    open spec fn view(&self) -> DexView {
        DexView { pools: self.pools@, owner: self.owner, events: Seq::empty() }
    }
}

impl DexSnapshot {
    /// The snapshot stands for an exchange: no pair has two pools.
    pub open spec fn restorable(&self) -> bool {
        pairs_distinct(self.pools@)
    }
}

/// Whether no pair has two pools.
fn pools_are_distinct(pools: &Vec<Pool>) -> (r: bool)
    ensures
        r == pairs_distinct(pools@),
{
    let n = pools.len();
    let mut i: usize = 0;
    while i < n
        invariant
            n == pools@.len(),
            i <= n,
            forall|a: int, b: int|
                0 <= a < b < i ==> !(pools@[a].token_a == pools@[b].token_a && pools@[a].token_b
                    == pools@[b].token_b),
        decreases n - i,
    {
        let pool = pools[i];
        let mut j: usize = 0;
        while j < i
            invariant
                n == pools@.len(),
                i < n,
                j <= i,
                pool == pools@[i as int],
                forall|a: int|
                    0 <= a < j ==> !((#[trigger] pools@[a]).token_a == pool.token_a
                        && pools@[a].token_b == pool.token_b),
            decreases i - j,
        {
            if pools[j].token_a == pool.token_a && pools[j].token_b == pool.token_b {
                return false;
            }
            j = j + 1;
        }
        i = i + 1;
    }
    true
}

impl HydraDxDex {
    /// The exchange as a host stores it. The events recorded are dropped;
    /// the host takes them first.
    pub fn snapshot(self) -> (snapshot: DexSnapshot)
        requires
            self.wf(),
        ensures
            snapshot.restorable(),
            snapshot@ == (DexView { events: Seq::empty(), ..self@ }),
    {
        DexSnapshot { pools: self.pools, owner: self.owner }
    }

    /// The exchange that a snapshot stands for, if it stands for one.
    pub fn restore(snapshot: DexSnapshot) -> (r: Option<HydraDxDex>)
        ensures
            match r {
                Some(dex) => snapshot.restorable() && dex.wf() && dex@ == snapshot@,
                None => !snapshot.restorable(),
            },
    {
        if !pools_are_distinct(&snapshot.pools) {
            return None;
        }
        Some(
            HydraDxDex {
                pools: snapshot.pools,
                owner: snapshot.owner,
                reentrancy_guard: ReentrancyGuard::new(),
                events: Vec::new(),
            },
        )
    }
}

} // verus!
