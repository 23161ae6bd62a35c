use vstd::prelude::*;
use crate::pubkey::Pubkey;

verus! {

/// Stored size of a [`Pool`]: two addresses, six eight-byte numbers, one byte.
pub const POOL_SIZE: usize = 32 + 32 + 8 + 8 + 8 + 8 + 8 + 8 + 1;

/// Sixteen days, in seconds.
pub const MYTHIC_PERIOD: i64 = 16 * 24 * 60 * 60;

/// Thirty days, in seconds.
pub const BABY_MYTHIC_PERIOD: i64 = 30 * 24 * 60 * 60;

/// Two days, in seconds.
pub const MYTHIC_PHEONIX_PERIOD: i64 = 2 * 24 * 60 * 60;

/// Stored size of a [`BreedData`]: the time, the category, the mint.
pub const BREED_DATA_SIZE: usize = 8 + 1 + 32;

/// Stored size of a [`WalletData`]: the owner and the two counters.
pub const WALLET_DATA_SIZE: usize = 32 + 2 + 1;

/// Category of a session that has been claimed, or was never started.
pub const BREED_NONE: u8 = 0;

/// Category `mythic`; starting one counts as an evolution of the wallet.
pub const BREED_MYTHIC: u8 = 1;

/// Category `baby-phoenix`; counted by no wallet counter.
pub const BREED_BABY_PHEONIX: u8 = 2;

/// Category `mythic-phoenix`; starting one counts as an exalted breeding.
pub const BREED_MYTHIC_PHEONIX: u8 = 3;

/// The parameters of a deployment, fixed when the pool is created.
#[derive(Clone, Copy, Debug, PartialEq, Eq)]
pub struct Pool {
    pub owner: Pubkey,
    pub rand: Pubkey,
    pub mythic_period: i64,
    pub baby_pheonix_period: i64,
    pub mythic_pheonix_period: i64,
    pub mythic_amount: u64,
    pub baby_pheonix_amount: u64,
    pub mythic_pheonix_amount: u64,
    pub bump: u8,
}

/// One contributor to an asset and the share attributed to it.
#[derive(Clone, Copy, Debug, PartialEq, Eq)]
pub struct Creator {
    pub address: Pubkey,
    pub verified: bool,
    pub share: u8,
}

/// What describes an asset in the registry.
#[derive(Clone, Debug, PartialEq, Eq)]
pub struct Metadata {
    pub name: String,
    pub symbol: String,
    pub uri: String,
    pub seller_fee_basis_points: u16,
    pub creators: Vec<Creator>,
    pub is_mutable: bool,
}

/// One breeding session: when it started, its category, and the mint
/// issued at its start.
#[derive(Clone, Copy, Debug, PartialEq, Eq)]
pub struct BreedData {
    pub b_time: i64,
    pub b_type: u8,
    pub mint: Pubkey,
}

/// The sessions that one wallet has started, by counted category.
#[derive(Clone, Copy, Debug, PartialEq, Eq)]
pub struct WalletData {
    pub wallet: Pubkey,
    pub evolving_amount: u16,
    pub exalated_breeding_amount: u8,
}

/// Why an operation of the ledger was refused.
#[derive(Clone, Copy, Debug, PartialEq, Eq, Structural)]
pub enum PoolError {
    TokenMintToFailed,
    TokenSetAuthorityFailed,
    TokenTransferFailed,
    InvalidTokenAccount,
    InvalidTokenMint,
    InvalidMetadata,
    InvalidBreedData,
    InvalidTime,
    InvalidPeriod,
    AlreadyUnBreedd,
    NotAllowed,
    TokenBurnFailed,
    InvalidMintAccount,
    ExceedAmount,
}

/// Why an operation did not go through: a refusal of the ledger itself, or
/// a failure of what it relies on.
#[derive(Clone, Copy, Debug, PartialEq, Eq, Structural)]
pub enum LedgerError {
    /// The ledger refused the operation.
    Pool(PoolError),
    /// The stored form of the mint is too short or malformed.
    InvalidAccountData,
    /// A request to the registry failed there.
    InvokeFailed,
}

/// The wait that `pool` imposes on a session of category `b_type`, in
/// seconds; none for a category that the pool does not know.
pub open spec fn lock_period(pool: Pool, b_type: u8) -> Option<int> {
    if b_type == BREED_MYTHIC {
        Some(pool.mythic_period as int)
    } else if b_type == BREED_BABY_PHEONIX {
        Some(pool.baby_pheonix_period as int)
    } else if b_type == BREED_MYTHIC_PHEONIX {
        Some(pool.mythic_pheonix_period as int)
    } else {
        None
    }
}

/// Whether the wait of `session` is over at time `now`.
pub open spec fn lock_elapsed(pool: Pool, session: BreedData, now: i64) -> bool {
    match lock_period(pool, session.b_type) {
        Some(period) => now - session.b_time >= period,
        None => true,
    }
}

impl Default for Metadata {
    /// Empty texts, no fee, no creators, not mutable.
    fn default() -> (data: Metadata)
        ensures
            data.name@.len() == 0,
            data.symbol@.len() == 0,
            data.uri@.len() == 0,
            data.seller_fee_basis_points == 0,
            data.creators@.len() == 0,
            !data.is_mutable,
    {
        Metadata {
            name: String::new(),
            symbol: String::new(),
            uri: String::new(),
            seller_fee_basis_points: 0,
            creators: Vec::new(),
            is_mutable: false,
        }
    }
}

impl Pool {
    /// The wait for a category, if the pool imposes one.
    pub fn period_of(&self, b_type: u8) -> (period: Option<i64>)
        ensures
            match period {
                Some(p) => lock_period(*self, b_type) == Some(p as int),
                None => lock_period(*self, b_type).is_none(),
            },
    {
        if b_type == BREED_MYTHIC {
            Some(self.mythic_period)
        } else if b_type == BREED_BABY_PHEONIX {
            Some(self.baby_pheonix_period)
        } else if b_type == BREED_MYTHIC_PHEONIX {
            Some(self.mythic_pheonix_period)
        } else {
            None
        }
    }

    /// Whether a session may be claimed at time `now` as far as its wait
    /// goes. The elapsed time is taken exactly, however far apart the two
    /// times lie.
    pub fn lock_elapsed(&self, session: &BreedData, now: i64) -> (elapsed: bool)
        ensures
            elapsed == lock_elapsed(*self, *session, now),
    {
        match self.period_of(session.b_type) {
            Some(period) => (now as i128) - (session.b_time as i128) >= (period as i128),
            None => true,
        }
    }
}

impl WalletData {
    /// Counts one more evolution; refused at the top of the counter's range.
    pub fn increment_evolving(&mut self) -> (counted: Result<(), PoolError>)
        ensures
            old(self).evolving_amount < u16::MAX ==> counted.is_ok()
                && *final(self) == (WalletData {
                evolving_amount: (old(self).evolving_amount + 1) as u16,
                ..*old(self)
            }),
            old(self).evolving_amount == u16::MAX ==> counted == Err::<(), PoolError>(
                PoolError::ExceedAmount,
            ) && *final(self) == *old(self),
    {
        match self.evolving_amount.checked_add(1) {
            Some(next) => {
                self.evolving_amount = next;
                Ok(())
            },
            None => Err(PoolError::ExceedAmount),
        }
    }

    /// Counts one more exalted breeding; refused at the top of the
    /// counter's range.
    pub fn increment_exalated(&mut self) -> (counted: Result<(), PoolError>)
        ensures
            old(self).exalated_breeding_amount < u8::MAX ==> counted.is_ok()
                && *final(self) == (WalletData {
                exalated_breeding_amount: (old(self).exalated_breeding_amount + 1) as u8,
                ..*old(self)
            }),
            old(self).exalated_breeding_amount == u8::MAX ==> counted == Err::<(), PoolError>(
                PoolError::ExceedAmount,
            ) && *final(self) == *old(self),
    {
        match self.exalated_breeding_amount.checked_add(1) {
            Some(next) => {
                self.exalated_breeding_amount = next;
                Ok(())
            },
            None => Err(PoolError::ExceedAmount),
        }
    }
}

impl BreedData {
    /// Marks the session as claimed.
    pub fn consume(&mut self)
        ensures
            *final(self) == (BreedData { b_time: 0, b_type: BREED_NONE, ..*old(self) }),
    {
        self.b_time = 0;
        self.b_type = BREED_NONE;
    }

    /// A session is active while it carries a category.
    pub open spec fn is_active(&self) -> bool {
        self.b_type != BREED_NONE
    }

    /// A claimed session carries neither a category nor a start time.
    pub open spec fn is_consumed(&self) -> bool {
        self.b_type == BREED_NONE && self.b_time == 0
    }

    /// A session record is either active or consumed.
    pub open spec fn is_well_formed(&self) -> bool {
        self.is_active() || self.is_consumed()
    }
}

} // verus!
