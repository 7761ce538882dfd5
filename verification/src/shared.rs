//! Types shared by every component: accounts, errors, roles, the token data
//! exchanged between components, and the reentrancy guard.

use vstd::prelude::*;
use vstd::std_specs::cmp::PartialEqSpecImpl;

verus! {

/// A 32-byte account address.
#[derive(Clone, Copy, Debug, Eq)]
pub struct AccountId {
    pub bytes: [u8; 32],
}

impl PartialEq for AccountId {
    fn eq(&self, other: &Self) -> (r: bool) {
        let mut i: usize = 0;
        while i < 32
            invariant
                i <= 32,
                forall|j: int| 0 <= j < i ==> self.bytes[j] == other.bytes[j],
            decreases 32 - i,
        {
            if self.bytes[i] != other.bytes[i] {
                return false;
            }
            i = i + 1;
        }
        assert(self.bytes =~= other.bytes);
        true
    }
}

impl PartialEqSpecImpl for AccountId {
    open spec fn obeys_eq_spec() -> bool {
        true
    }

    open spec fn eq_spec(&self, other: &Self) -> bool {
        *self == *other
    }
}

impl AccountId {
    /// The address whose 32 bytes all equal `byte`.
    pub open spec fn filled(byte: u8) -> AccountId {
        AccountId { bytes: vstd::array::spec_array_fill_for_copy_type::<u8, 32>(byte) }
    }

    /// The all-zero address, which stands for "no account".
    pub open spec fn spec_zero() -> AccountId {
        Self::filled(0u8)
    }

    /// The reserved address under which the price of DOT in USD is quoted.
    pub open spec fn spec_dot_token() -> AccountId {
        Self::filled(0xFFu8)
    }

    pub fn from_bytes(bytes: [u8; 32]) -> (r: AccountId)
        ensures
            r.bytes == bytes,
    {
        AccountId { bytes }
    }

    pub fn to_bytes(&self) -> (r: [u8; 32])
        ensures
            r == self.bytes,
    {
        self.bytes
    }

    #[verifier::when_used_as_spec(spec_zero)]
    pub fn zero() -> (r: AccountId)
        ensures
            r == Self::spec_zero(),
    {
        AccountId { bytes: [0u8; 32] }
    }

    #[verifier::when_used_as_spec(spec_dot_token)]
    pub fn dot_token() -> (r: AccountId)
        ensures
            r == Self::spec_dot_token(),
    {
        AccountId { bytes: [0xFFu8; 32] }
    }

    pub fn is_zero(&self) -> (r: bool)
        ensures
            r == (*self == Self::spec_zero()),
    {
        *self == Self::zero()
    }
}

/// Why an operation was refused.
#[derive(Clone, Copy, Debug, PartialEq, Eq, Structural)]
pub enum Error {
    /// The caller is not the owner.
    Unauthorized,
    /// The caller holds neither the required role nor ownership.
    UnauthorizedRole,
    TokenNotFound,
    TokenAlreadyExists,
    InvalidTokenContract,
    ZeroAddress,
    /// A weight outside 0..=10000 basis points.
    InvalidWeight,
    InvalidTier,
    InvalidParameter,
    /// An oracle or registry could not be reached, or answered with a failure.
    OracleCallFailed,
    InsufficientBalance,
    /// A staking or swap argument is out of range, or there is nothing to do.
    InvalidParameters,
    ContractPaused,
    /// The component was entered again before an earlier call had finished.
    ReentrantCall,
    CrossContractCallFailed,
    TransferFailed,
}

/// Roles that the registry owner can grant.
#[derive(Clone, Copy, Debug, PartialEq, Eq, Structural)]
pub enum Role {
    /// May add and remove tokens and run manual tier operations.
    TokenManager,
    /// May update balances and weights and process grace periods.
    TokenUpdater,
    /// May pause and resume operations.
    EmergencyController,
}

/// Token data as the registry hands it to other components.
#[derive(Clone, Copy, Debug, PartialEq, Eq)]
pub struct TokenData {
    pub token_contract: AccountId,
    pub oracle_contract: AccountId,
    pub balance: u128,
    /// Investment weight in basis points, 0..=10000.
    pub weight_investment: u32,
    /// The tier as a number, 0 for none up to 4.
    pub tier: u32,
}

/// Token data together with what the token's oracle reported.
#[derive(Clone, Copy, Debug, PartialEq, Eq)]
pub struct EnrichedTokenData {
    pub token_contract: AccountId,
    pub oracle_contract: AccountId,
    pub balance: u128,
    pub weight_investment: u32,
    pub tier: u32,
    pub market_cap: u128,
    pub market_volume: u128,
    pub price: u128,
}

/// What an oracle answers about a token. Each answer is `None` where the
/// oracle holds nothing of the token.
pub trait Oracle {
    /// The oracle is in a state in which it can answer.
    spec fn answers(&self) -> bool;

    /// The price of `token` in plancks.
    spec fn price_of(&self, token: AccountId) -> Option<u128>;

    /// The market capitalisation of `token` in plancks.
    spec fn market_cap_of(&self, token: AccountId) -> Option<u128>;

    /// The volume of `token` over 24 hours in plancks.
    spec fn market_volume_of(&self, token: AccountId) -> Option<u128>;

    fn get_price(&self, token: AccountId) -> (r: Option<u128>)
        requires
            self.answers(),
        ensures
            r == self.price_of(token),
    ;

    fn get_market_cap(&self, token: AccountId) -> (r: Option<u128>)
        requires
            self.answers(),
        ensures
            r == self.market_cap_of(token),
    ;

    fn get_market_volume(&self, token: AccountId) -> (r: Option<u128>)
        requires
            self.answers(),
        ensures
            r == self.market_volume_of(token),
    ;
}

/// A lock that keeps a component from being entered while a call into it is
/// still waiting for an outside transfer.
#[derive(Clone, Copy, Debug, PartialEq, Eq, Structural)]
pub struct ReentrancyGuard {
    locked: bool,
}

impl ReentrancyGuard {
    pub closed spec fn is_locked(&self) -> bool {
        self.locked
    }

    pub fn new() -> (r: Self)
        ensures
            !r.is_locked(),
    {
        ReentrancyGuard { locked: false }
    }

    #[verifier::when_used_as_spec(is_locked)]
    pub fn locked(&self) -> (r: bool)
        ensures
            r == self.is_locked(),
    {
        self.locked
    }

    /// Takes the lock, or refuses when it is already held.
    pub fn enter(&mut self) -> (r: Result<(), Error>)
        ensures
            old(self).is_locked() ==> r == Err::<(), Error>(Error::ReentrantCall) && *final(self)
                == *old(self),
            !old(self).is_locked() ==> r == Ok::<(), Error>(()) && final(self).is_locked(),
    {
        if self.locked {
            return Err(Error::ReentrantCall);
        }
        self.locked = true;
        Ok(())
    }

    /// Releases the lock.
    pub fn exit(&mut self)
        ensures
            !final(self).is_locked(),
    {
        self.locked = false;
    }
}

} // verus!
