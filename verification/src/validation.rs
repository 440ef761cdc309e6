//! The checks that an operation makes before it changes anything.

use vstd::prelude::*;
use crate::compliance;
use crate::env::{Env, EnvView};
use crate::storage;
use crate::types::{Address, BrazaError};

verus! {

/// What [`require_valid_vesting_params`] answers.
pub open spec fn vesting_params_check(total: i128, cliff: u32, duration: u32) -> Result<
    (),
    BrazaError,
> {
    if total <= 0 {
        Err(BrazaError::InvalidAmount)
    } else if duration == 0 || cliff > duration {
        Err(BrazaError::InvalidVestingParams)
    } else if total < storage::MIN_VESTING_AMOUNT {
        Err(BrazaError::VestingAmountTooLow)
    } else {
        Ok(())
    }
}

impl EnvView {
    /// What [`require_max_supply_not_exceeded`] answers.
    pub open spec fn max_supply_check(self, add: i128) -> Result<(), BrazaError> {
        if self.storage.total_supply + add > storage::MAX_SUPPLY || self.storage.total_supply + add
            < i128::MIN {
            Err(BrazaError::MaxSupplyExceeded)
        } else {
            Ok(())
        }
    }
}

/// Succeeds exactly when `caller` is the administrator; fails with
/// `Unauthorized` otherwise.
pub fn require_admin(env: &Env, caller: Address) -> (r: Result<(), BrazaError>)
    ensures
        r == (if env@.storage.admin == Some(caller) {
            Ok::<(), BrazaError>(())
        } else {
            Err(BrazaError::Unauthorized)
        }),
{
    storage::ensure_admin(env, caller)
}

/// Fails with `Paused` exactly when the ledger is paused.
pub fn require_not_paused(env: &Env) -> (r: Result<(), BrazaError>)
    ensures
        r == (if env@.storage.paused {
            Err::<(), BrazaError>(BrazaError::Paused)
        } else {
            Ok(())
        }),
{
    if storage::is_paused(env) {
        return Err(BrazaError::Paused);
    }
    Ok(())
}

/// Fails with `Blacklisted` exactly when `addr` is on the blacklist.
pub fn require_not_blacklisted(env: &Env, addr: Address) -> (r: Result<(), BrazaError>)
    ensures
        r == (if env@.storage.blacklisted(addr) {
            Err::<(), BrazaError>(BrazaError::Blacklisted)
        } else {
            Ok(())
        }),
{
    if storage::is_blacklisted(env, addr) {
        return Err(BrazaError::Blacklisted);
    }
    Ok(())
}

/// Fails with `InvalidAmount` exactly when `amount` is zero or negative.
pub fn require_positive_amount(amount: i128) -> (r: Result<(), BrazaError>)
    ensures
        r == (if amount <= 0 {
            Err::<(), BrazaError>(BrazaError::InvalidAmount)
        } else {
            Ok(())
        }),
{
    if amount <= 0 {
        return Err(BrazaError::InvalidAmount);
    }
    Ok(())
}

/// Fails with `InsufficientBalance` exactly when `addr` holds less than
/// `required`.
pub fn require_sufficient_balance(env: &Env, addr: Address, required: i128) -> (r: Result<
    (),
    BrazaError,
>)
    ensures
        r == (if env@.storage.balance(addr) < required {
            Err::<(), BrazaError>(BrazaError::InsufficientBalance)
        } else {
            Ok(())
        }),
{
    let bal = storage::get_balance(env, addr);
    if bal < required {
        return Err(BrazaError::InsufficientBalance);
    }
    Ok(())
}

/// Fails with `MaxSupplyExceeded` exactly when the total supply and `add`
/// together do not fit an amount or exceed the largest supply.
pub fn require_max_supply_not_exceeded(env: &Env, add: i128) -> (r: Result<(), BrazaError>)
    ensures
        r == env@.max_supply_check(add),
{
    let current = storage::get_total_supply(env);
    match current.checked_add(add) {
        Some(new_sup) => {
            if new_sup > storage::MAX_SUPPLY {
                return Err(BrazaError::MaxSupplyExceeded);
            }
            Ok(())
        },
        None => Err(BrazaError::MaxSupplyExceeded),
    }
}

/// Holds a grant's parameters to the rules: a positive total (else
/// `InvalidAmount`), a duration that is not zero and a cliff within it
/// (else `InvalidVestingParams`), and a total of at least the smallest
/// grant (else `VestingAmountTooLow`).
pub fn require_valid_vesting_params(total: i128, cliff: u32, duration: u32) -> (r: Result<
    (),
    BrazaError,
>)
    ensures
        r == vesting_params_check(total, cliff, duration),
{
    if total <= 0 {
        return Err(BrazaError::InvalidAmount);
    }
    if duration == 0 {
        return Err(BrazaError::InvalidVestingParams);
    }
    if cliff > duration {
        return Err(BrazaError::InvalidVestingParams);
    }
    if total < storage::MIN_VESTING_AMOUNT {
        return Err(BrazaError::VestingAmountTooLow);
    }
    Ok(())
}

/// Fails with `InvalidAmount` exactly when `kyc_level` is not one, two or
/// three.
pub fn validate_kyc_level_value(kyc_level: u32) -> (r: Result<(), BrazaError>)
    ensures
        r == (if kyc_level == 0 || kyc_level > 3 {
            Err::<(), BrazaError>(BrazaError::InvalidAmount)
        } else {
            Ok(())
        }),
{
    if kyc_level == 0 || kyc_level > 3 {
        return Err(BrazaError::InvalidAmount);
    }
    Ok(())
}

/// Fails with `OverflowError` where the current day's volume of `user`
/// and `amount` together do not fit an amount, and with `InvalidAmount`
/// where they exceed the daily cap of `user`.
pub fn require_daily_volume_limit(env: &Env, user: Address, amount: i128) -> (r: Result<
    (),
    BrazaError,
>)
    ensures
        r == env@.daily_limit_check(user, amount),
{
    let daily_limit = compliance::get_daily_limit(env, user);
    let daily_volume = compliance::get_daily_volume(env, user);
    match daily_volume.checked_add(amount) {
        Some(new_volume) => {
            if new_volume > daily_limit {
                return Err(BrazaError::InvalidAmount);
            }
            Ok(())
        },
        None => Err(BrazaError::OverflowError),
    }
}

/// Succeeds exactly when a country code is on file for `user` that is
/// neither empty nor blocked; fails with `Unauthorized` otherwise.
pub fn require_country_allowed(env: &Env, user: Address) -> (r: Result<(), BrazaError>)
    ensures
        r == env@.country_check(user),
{
    compliance::require_country_allowed(env, user)
}

/// Fails with `Unauthorized` exactly when the tier of `user` is below
/// `min_level`.
pub fn require_kyc_level(env: &Env, user: Address, min_level: u32) -> (r: Result<(), BrazaError>)
    ensures
        r == env@.kyc_check(user, min_level),
{
    compliance::require_kyc_level(env, user, min_level)
}

/// Fails with `Unauthorized` exactly when the risk score of `user`
/// exceeds `max_allowed`.
pub fn require_acceptable_risk(env: &Env, user: Address, max_allowed: u32) -> (r: Result<
    (),
    BrazaError,
>)
    ensures
        r == env@.risk_check(user, max_allowed),
{
    compliance::require_acceptable_risk(env, user, max_allowed)
}

} // verus!
