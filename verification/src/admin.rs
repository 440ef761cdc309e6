//! The administrator's overriding operations. Both hold every principal
//! involved to the compliance policy before they move anything.

use vstd::prelude::*;
use crate::compliance;
use crate::compliance::{TRANSFER_MAX_RISK, TRANSFER_MIN_KYC};
use crate::env::{require_auth, Env};
use crate::storage;
use crate::types::{Address, BrazaError, Event};
use crate::validation;

verus! {

/// Succeeds exactly when an administrator is stored and has authorized
/// the call; fails with `Unauthorized` otherwise.
pub fn require_admin_authorized(env: &Env) -> (r: Result<Address, BrazaError>)
    ensures
        match r {
            Ok(admin) => env@.admin_authorized() && env@.storage.admin == Some(admin),
            Err(e) => !env@.admin_authorized() && e == BrazaError::Unauthorized,
        },
{
    if !storage::has_admin(env) {
        return Err(BrazaError::Unauthorized);
    }
    let admin = storage::get_admin(env);
    require_auth(env, admin)?;
    Ok(admin)
}

/// Moves `amount` from `from` to `to` on the administrator's word.
///
/// Fails with `Unauthorized` unless the administrator authorized the
/// call, with `InvalidAmount` unless `amount` is positive, with the
/// policy's error where `from` or `to` does not meet it, with
/// `InsufficientBalance` where `from` holds less than `amount`, and with
/// `InvalidAmount` where the balance of `to` would not fit.
pub fn force_transfer(env: &mut Env, from: Address, to: Address, amount: i128) -> (r: Result<
    (),
    BrazaError,
>)
    ensures
        r == old(env)@.force_transfer_rules(from, to, amount),
        final(env)@ == (if r is Ok {
            old(env)@.force_transfer_effect(from, to, amount)
        } else {
            old(env)@
        }),
{
    require_admin_authorized(env)?;
    validation::require_positive_amount(amount)?;
    compliance::evaluate(env, from, None, TRANSFER_MIN_KYC, TRANSFER_MAX_RISK)?;
    compliance::evaluate(env, to, None, TRANSFER_MIN_KYC, TRANSFER_MAX_RISK)?;
    validation::require_sufficient_balance(env, from, amount)?;
    if from != to {
        let from_balance = storage::get_balance(env, from);
        let to_balance = storage::get_balance(env, to);
        let new_to = match to_balance.checked_add(amount) {
            Some(v) => v,
            None => {
                return Err(BrazaError::InvalidAmount);
            },
        };
        let new_from = from_balance - amount;
        storage::set_balance(env, from, new_from);
        storage::set_balance(env, to, new_to);
    }
    env.events.push(Event::ForcedTransfer { from, to, amount });
    Ok(())
}

/// Destroys `amount` of what `from` holds on the administrator's word.
///
/// Fails with `Unauthorized` unless the administrator authorized the
/// call, with `InvalidAmount` unless `amount` is positive, with the
/// policy's error where `from` does not meet it, with
/// `InsufficientBalance` where `from` holds less than `amount`, and with
/// `InvalidAmount` where the total supply would not fit.
pub fn force_burn(env: &mut Env, from: Address, amount: i128) -> (r: Result<(), BrazaError>)
    ensures
        r == old(env)@.force_burn_rules(from, amount),
        final(env)@ == (if r is Ok {
            old(env)@.force_burn_effect(from, amount)
        } else {
            old(env)@
        }),
{
    require_admin_authorized(env)?;
    validation::require_positive_amount(amount)?;
    compliance::evaluate(env, from, None, TRANSFER_MIN_KYC, TRANSFER_MAX_RISK)?;
    validation::require_sufficient_balance(env, from, amount)?;
    let from_balance = storage::get_balance(env, from);
    let supply = storage::get_total_supply(env);
    let new_supply = match supply.checked_sub(amount) {
        Some(v) => v,
        None => {
            return Err(BrazaError::InvalidAmount);
        },
    };
    let new_from = from_balance - amount;
    storage::set_balance(env, from, new_from);
    storage::set_total_supply(env, new_supply);
    env.events.push(Event::ForcedBurn { from, amount });
    Ok(())
}

} // verus!
