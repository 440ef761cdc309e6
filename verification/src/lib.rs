//! A compliance-gated, value-conserving token ledger.
//!
//! The ledger keeps balances, allowances and time-released grants in an
//! explicit [`env::Env`] value, checks every balance-changing operation against
//! the compliance profile of the principals involved, and records the
//! notifications that a host is expected to publish.

pub mod admin;
pub mod compliance;
pub mod compliance_cache;
pub mod env;
pub mod events;
pub mod laws;
pub mod model;
pub mod storage;
pub mod supply;
pub mod token;
pub mod types;
pub mod validation;
pub mod vesting;

pub use token::{BrazaToken, BrazaTokenContract};
pub use types::{Address, BrazaError, Event, TokenMetadata, VestingSchedule};
