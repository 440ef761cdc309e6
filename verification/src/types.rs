//! Plain data shared by every component of the ledger.

use vstd::prelude::*;

verus! {

/// A principal: an account or contract, named by an opaque identifier.
pub type Address = u64;

/// Every failure that an operation of the ledger can report.
#[derive(Copy, Clone, Debug, PartialEq, Eq, Structural, PartialOrd, Ord)]
pub enum BrazaError {
    AlreadyInitialized,
    Unauthorized,
    InsufficientBalance,
    InvalidAmount,
    Paused,
    Blacklisted,
    MaxSupplyExceeded,
    VestingNotFound,
    VestingAlreadyReleased,
    CliffNotReached,
    NotRevocable,
    MaxVestingSchedulesExceeded,
    InvalidVestingParams,
    NoTokensToRelease,
    TimelockNotExpired,
    GlobalVestingLimitExceeded,
    VestingCooldownActive,
    VestingAmountTooLow,
    InsufficientAllowance,
    OverflowError,
}

impl BrazaError {
    /// The numeric code under which the error is reported to a host.
    pub open spec fn spec_code(self) -> u32 {
        match self {
            BrazaError::AlreadyInitialized => 1,
            BrazaError::Unauthorized => 2,
            BrazaError::InsufficientBalance => 3,
            BrazaError::InvalidAmount => 4,
            BrazaError::Paused => 5,
            BrazaError::Blacklisted => 6,
            BrazaError::MaxSupplyExceeded => 7,
            BrazaError::VestingNotFound => 8,
            BrazaError::VestingAlreadyReleased => 9,
            BrazaError::CliffNotReached => 10,
            BrazaError::NotRevocable => 11,
            BrazaError::MaxVestingSchedulesExceeded => 12,
            BrazaError::InvalidVestingParams => 13,
            BrazaError::NoTokensToRelease => 14,
            BrazaError::TimelockNotExpired => 15,
            BrazaError::GlobalVestingLimitExceeded => 16,
            BrazaError::VestingCooldownActive => 17,
            BrazaError::VestingAmountTooLow => 18,
            BrazaError::InsufficientAllowance => 19,
            BrazaError::OverflowError => 20,
        }
    }

    /// The numeric code under which the error is reported to a host.
    #[verifier::when_used_as_spec(spec_code)]
    pub fn code(self) -> (c: u32)
        ensures
            c == self.spec_code(),
            1 <= c <= 20,
    {
        match self {
            BrazaError::AlreadyInitialized => 1,
            BrazaError::Unauthorized => 2,
            BrazaError::InsufficientBalance => 3,
            BrazaError::InvalidAmount => 4,
            BrazaError::Paused => 5,
            BrazaError::Blacklisted => 6,
            BrazaError::MaxSupplyExceeded => 7,
            BrazaError::VestingNotFound => 8,
            BrazaError::VestingAlreadyReleased => 9,
            BrazaError::CliffNotReached => 10,
            BrazaError::NotRevocable => 11,
            BrazaError::MaxVestingSchedulesExceeded => 12,
            BrazaError::InvalidVestingParams => 13,
            BrazaError::NoTokensToRelease => 14,
            BrazaError::TimelockNotExpired => 15,
            BrazaError::GlobalVestingLimitExceeded => 16,
            BrazaError::VestingCooldownActive => 17,
            BrazaError::VestingAmountTooLow => 18,
            BrazaError::InsufficientAllowance => 19,
            BrazaError::OverflowError => 20,
        }
    }
}

/// Name, symbol and number of decimals of the token.
#[derive(Clone, Debug, PartialEq, Eq)]
pub struct TokenMetadata {
    pub name: String,
    pub symbol: String,
    pub decimals: u32,
}

/// A time-released grant: nothing vests before the cliff, then the grant
/// vests linearly until `duration_ledgers` ticks after `start_ledger`.
#[derive(Copy, Clone, Debug, PartialEq, Eq, Structural)]
pub struct VestingSchedule {
    pub beneficiary: Address,
    pub total_amount: i128,
    pub released_amount: i128,
    pub start_ledger: u32,
    pub cliff_ledgers: u32,
    pub duration_ledgers: u32,
    pub revocable: bool,
    pub revoked: bool,
}

/// A notification that the ledger hands to its host for publication.
#[derive(Clone, Debug, PartialEq, Eq)]
pub enum Event {
    Transfer { from: Address, to: Address, amount: i128 },
    Mint { to: Address, amount: i128 },
    Burn { from: Address, amount: i128 },
    Approval { owner: Address, spender: Address, amount: i128 },
    Pause,
    Unpause,
    Blacklist { addr: Address, blacklisted: bool },
    VestingCreated { beneficiary: Address, schedule_id: u32, amount: i128 },
    VestingReleased { beneficiary: Address, schedule_id: u32, amount: i128 },
    VestingRevoked { beneficiary: Address, schedule_id: u32 },
    /// Advisory: a non-zero allowance was replaced by another non-zero one.
    AllowanceRace { owner: Address, spender: Address, current: i128, requested: i128 },
    /// A spender drew on an allowance; `remaining` is what is left of it.
    AllowanceUsed { spender: Address, owner: Address, amount: i128, remaining: i128 },
    /// Advisory: a privileged issuance was attempted inside the timelock.
    MintBlocked { now: u32, last: u32 },
    /// Advisory: a privileged destruction was attempted inside the timelock.
    BurnBlocked { now: u32, last: u32 },
    AdminChanged { previous: Address, successor: Address },
    ForcedTransfer { from: Address, to: Address, amount: i128 },
    ForcedBurn { from: Address, amount: i128 },
    KycSet { user: Address, level: u32 },
    AccreditedSet { investor: Address, accredited: bool },
    CountrySet { user: Address, code: String },
    CountryBlocked { code: String },
    CountryUnblocked { code: String },
    RiskSet { user: Address, score: u32 },
    DailyLimitSet { user: Address, limit: i128 },
    BalanceChanged { user: Address, amount: i128 },
    AdminSet { admin: Address },
}

} // verus!
