//! The entry points of the ledger.
//!
//! Every entry point that changes state runs under the guard: it fails
//! with `Unauthorized` while another call is in progress, and clears the
//! flag again on every way out. Inside, each first makes all its checks,
//! then changes the state, then records its notifications.

use vstd::prelude::*;
use crate::admin;
use crate::admin::require_admin_authorized;
use crate::compliance;
use crate::compliance::{TRANSFER_MAX_RISK, TRANSFER_MIN_KYC};
use crate::env::{require_auth, Env, EnvView};
use crate::events;
use crate::storage;
use crate::storage::{
    schedules_below, BURN_TIMELOCK_TICKS, INITIAL_SUPPLY, MAX_PER_TX, MAX_SUPPLY,
    MINT_TIMELOCK_TICKS,
};
use crate::types::{Address, BrazaError, Event, TokenMetadata, VestingSchedule};
use crate::validation;
use crate::vesting;
use crate::vesting::releasable_amount;

verus! {

/// The token: its entry points, each a function of the world it runs in.
pub struct BrazaToken;

/// A second name for [`BrazaToken`].
pub type BrazaTokenContract = BrazaToken;

/// The number of decimals of an amount.
pub const DECIMALS: u32 = 7;

/// The most principals that one call of [`BrazaToken::batch_blacklist`]
/// takes.
pub const MAX_BATCH_SIZE: usize = 100;

/// Moves the funds of a transfer whose checks have passed.
fn apply_transfer(env: &mut Env, from: Address, to: Address, amount: i128)
    requires
        amount > 0,
        old(env)@.storage.balance(from) >= amount,
        from != to ==> old(env)@.storage.balance(to) + amount <= i128::MAX,
        old(env)@.daily_limit_check(from, amount) is Ok,
    ensures
        final(env)@ == old(env)@.transfer_effect(from, to, amount),
{
    if from != to {
        let from_balance = storage::get_balance(env, from);
        let to_balance = storage::get_balance(env, to);
        storage::set_balance(env, from, from_balance - amount);
        storage::set_balance(env, to, to_balance + amount);
        let counted = compliance::check_and_update_daily_volume(env, from, amount);
        assert(counted is Ok);
    }
    events::emit_transfer(env, from, to, amount);
}

fn transfer_unguarded(env: &mut Env, from: Address, to: Address, amount: i128) -> (r: Result<
    (),
    BrazaError,
>)
    ensures
        r == old(env)@.transfer_rules(from, to, amount),
        final(env)@ == (if r is Ok {
            old(env)@.transfer_effect(from, to, amount)
        } else {
            old(env)@
        }),
{
    require_auth(env, from)?;
    validation::require_not_paused(env)?;
    validation::require_positive_amount(amount)?;
    compliance::evaluate(env, from, Some(amount), TRANSFER_MIN_KYC, TRANSFER_MAX_RISK)?;
    compliance::evaluate(env, to, None, TRANSFER_MIN_KYC, TRANSFER_MAX_RISK)?;
    validation::require_sufficient_balance(env, from, amount)?;
    if from != to {
        let to_balance = storage::get_balance(env, to);
        if to_balance.checked_add(amount).is_none() {
            return Err(BrazaError::InvalidAmount);
        }
    }
    apply_transfer(env, from, to, amount);
    Ok(())
}

fn transfer_from_unguarded(
    env: &mut Env,
    spender: Address,
    from: Address,
    to: Address,
    amount: i128,
) -> (r: Result<(), BrazaError>)
    ensures
        r == old(env)@.transfer_from_rules(spender, from, to, amount),
        final(env)@ == (if r is Ok {
            old(env)@.transfer_from_effect(spender, from, to, amount)
        } else {
            old(env)@
        }),
{
    require_auth(env, spender)?;
    validation::require_not_paused(env)?;
    validation::require_positive_amount(amount)?;
    compliance::evaluate(env, spender, None, TRANSFER_MIN_KYC, TRANSFER_MAX_RISK)?;
    compliance::evaluate(env, from, Some(amount), TRANSFER_MIN_KYC, TRANSFER_MAX_RISK)?;
    compliance::evaluate(env, to, None, TRANSFER_MIN_KYC, TRANSFER_MAX_RISK)?;
    validation::require_sufficient_balance(env, from, amount)?;
    let current_allowance = storage::get_allowance(env, from, spender);
    if current_allowance < amount {
        return Err(BrazaError::InsufficientAllowance);
    }
    if from != to {
        let to_balance = storage::get_balance(env, to);
        if to_balance.checked_add(amount).is_none() {
            return Err(BrazaError::InvalidAmount);
        }
    }
    let new_allowance = current_allowance - amount;
    storage::set_allowance(env, from, spender, new_allowance);
    apply_transfer(env, from, to, amount);
    env.events.push(
        Event::AllowanceUsed { spender, owner: from, amount, remaining: new_allowance },
    );
    Ok(())
}

/// The checks common to every change of an allowance.
fn allowance_checks(env: &Env, from: Address, spender: Address) -> (r: Result<(), BrazaError>)
    ensures
        r == env@.allowance_rules(from, spender),
{
    require_auth(env, from)?;
    validation::require_not_paused(env)?;
    validation::require_not_blacklisted(env, from)?;
    validation::require_not_blacklisted(env, spender)?;
    Ok(())
}

fn mint_unguarded(env: &mut Env, to: Address, amount: i128) -> (r: Result<(), BrazaError>)
    ensures
        r == old(env)@.mint_rules(to, amount),
        final(env)@ == (match r {
            Ok(_) => old(env)@.mint_effect(to, amount),
            Err(BrazaError::TimelockNotExpired) => old(env)@.emit(
                Event::MintBlocked {
                    now: old(env)@.ledger_sequence,
                    last: old(env)@.storage.last_mint_time.unwrap(),
                },
            ),
            Err(_) => old(env)@,
        }),
{
    require_admin_authorized(env)?;
    let now = env.ledger_sequence;
    match storage::get_last_mint_time(env) {
        Some(last) => {
            let elapsed = if now >= last {
                now - last
            } else {
                0
            };
            if elapsed < MINT_TIMELOCK_TICKS {
                env.events.push(Event::MintBlocked { now, last });
                return Err(BrazaError::TimelockNotExpired);
            }
        },
        None => {},
    }
    validation::require_not_paused(env)?;
    validation::require_positive_amount(amount)?;
    if amount > MAX_PER_TX {
        return Err(BrazaError::InvalidAmount);
    }
    validation::require_max_supply_not_exceeded(env, amount)?;
    compliance::evaluate(env, to, None, TRANSFER_MIN_KYC, TRANSFER_MAX_RISK)?;
    let bal = storage::get_balance(env, to);
    let new_bal = match bal.checked_add(amount) {
        Some(v) => v,
        None => {
            return Err(BrazaError::OverflowError);
        },
    };
    let supply = storage::get_total_supply(env);
    let new_supply = supply + amount;
    storage::set_balance(env, to, new_bal);
    storage::set_total_supply(env, new_supply);
    storage::set_last_mint_time(env, now);
    events::emit_mint(env, to, amount);
    Ok(())
}

fn burn_unguarded(env: &mut Env, from: Address, amount: i128) -> (r: Result<(), BrazaError>)
    ensures
        r == old(env)@.burn_rules(from, amount),
        final(env)@ == (match r {
            Ok(_) => old(env)@.burn_effect(from, amount),
            Err(BrazaError::TimelockNotExpired) => old(env)@.emit(
                Event::BurnBlocked {
                    now: old(env)@.ledger_sequence,
                    last: old(env)@.storage.last_burn_time.unwrap(),
                },
            ),
            Err(_) => old(env)@,
        }),
{
    require_admin_authorized(env)?;
    let now = env.ledger_sequence;
    match storage::get_last_burn_time(env) {
        Some(last) => {
            let elapsed = if now >= last {
                now - last
            } else {
                0
            };
            if elapsed < BURN_TIMELOCK_TICKS {
                env.events.push(Event::BurnBlocked { now, last });
                return Err(BrazaError::TimelockNotExpired);
            }
        },
        None => {},
    }
    validation::require_not_paused(env)?;
    validation::require_positive_amount(amount)?;
    if amount > MAX_PER_TX {
        return Err(BrazaError::InvalidAmount);
    }
    validation::require_not_blacklisted(env, from)?;
    validation::require_sufficient_balance(env, from, amount)?;
    storage::validate_burn_not_locked(env, amount)?;
    let bal = storage::get_balance(env, from);
    let supply = storage::get_total_supply(env);
    let new_supply = match supply.checked_sub(amount) {
        Some(v) => v,
        None => {
            return Err(BrazaError::InvalidAmount);
        },
    };
    storage::set_balance(env, from, bal - amount);
    storage::set_total_supply(env, new_supply);
    storage::set_last_burn_time(env, now);
    events::emit_burn(env, from, amount);
    Ok(())
}

fn create_vesting_unguarded(
    env: &mut Env,
    beneficiary: Address,
    total_amount: i128,
    cliff_ledgers: u32,
    duration_ledgers: u32,
    revocable: bool,
) -> (r: Result<u32, BrazaError>)
    ensures
        r == old(env)@.create_vesting_rules(
            beneficiary,
            total_amount,
            cliff_ledgers,
            duration_ledgers,
        ),
        final(env)@ == (if r is Ok {
            old(env)@.create_vesting_effect(
                beneficiary,
                total_amount,
                cliff_ledgers,
                duration_ledgers,
                revocable,
            )
        } else {
            old(env)@
        }),
{
    let admin = require_admin_authorized(env)?;
    validation::require_not_paused(env)?;
    validation::require_valid_vesting_params(total_amount, cliff_ledgers, duration_ledgers)?;
    validation::require_sufficient_balance(env, admin, total_amount)?;
    let locked = storage::get_locked_balance(env);
    let new_locked = match locked.checked_add(total_amount) {
        Some(v) => v,
        None => {
            return Err(BrazaError::InvalidAmount);
        },
    };
    if !storage::is_vesting_cooldown_expired(env, beneficiary) {
        return Err(BrazaError::VestingCooldownActive);
    }
    if storage::get_vesting_count(env, beneficiary) >= storage::MAX_VESTING_SCHEDULES {
        return Err(BrazaError::MaxVestingSchedulesExceeded);
    }
    if storage::get_global_vesting_count(env) >= storage::MAX_GLOBAL_VESTING_SCHEDULES {
        return Err(BrazaError::GlobalVestingLimitExceeded);
    }
    let admin_balance = storage::get_balance(env, admin);
    storage::set_balance(env, admin, admin_balance - total_amount);
    storage::set_locked_balance(env, new_locked);
    let created = vesting::create_vesting_schedule(
        env,
        beneficiary,
        total_amount,
        cliff_ledgers,
        duration_ledgers,
        revocable,
    );
    match created {
        Ok(schedule_id) => {
            events::emit_vesting_created(env, beneficiary, schedule_id, total_amount);
            Ok(schedule_id)
        },
        Err(e) => {
            assert(false);
            Err(e)
        },
    }
}

fn release_vested_unguarded(env: &mut Env, beneficiary: Address, schedule_id: u32) -> (r: Result<
    i128,
    BrazaError,
>)
    ensures
        r == old(env)@.release_vested_rules(beneficiary, schedule_id),
        final(env)@ == (match r {
            Ok(amount) => old(env)@.release_vested_effect(beneficiary, schedule_id, amount),
            Err(_) => old(env)@,
        }),
{
    require_auth(env, beneficiary)?;
    validation::require_not_paused(env)?;
    let schedule = match storage::get_vesting_schedule(env, beneficiary, schedule_id) {
        Some(s) => s,
        None => {
            return Err(BrazaError::VestingNotFound);
        },
    };
    let releasable = vesting::calculate_releasable_amount(env, &schedule);
    if releasable <= 0 {
        return Err(BrazaError::NoTokensToRelease);
    }
    if schedule.released_amount.checked_add(releasable).is_none() {
        return Err(BrazaError::InvalidAmount);
    }
    let bal = storage::get_balance(env, beneficiary);
    let new_bal = match bal.checked_add(releasable) {
        Some(v) => v,
        None => {
            return Err(BrazaError::InvalidAmount);
        },
    };
    let locked = storage::get_locked_balance(env);
    if locked < releasable {
        return Err(BrazaError::InsufficientBalance);
    }
    let released = vesting::release_vested_tokens(env, beneficiary, schedule_id);
    assert(released == Ok::<i128, BrazaError>(releasable));
    storage::set_balance(env, beneficiary, new_bal);
    storage::set_locked_balance(env, locked - releasable);
    events::emit_vesting_released(env, beneficiary, schedule_id, releasable);
    Ok(releasable)
}

fn revoke_vesting_unguarded(env: &mut Env, beneficiary: Address, schedule_id: u32) -> (r: Result<
    i128,
    BrazaError,
>)
    ensures
        r == old(env)@.revoke_vesting_rules(beneficiary, schedule_id),
        final(env)@ == (match r {
            Ok(unvested) => old(env)@.revoke_vesting_effect(beneficiary, schedule_id, unvested),
            Err(_) => old(env)@,
        }),
{
    let admin = require_admin_authorized(env)?;
    validation::require_not_paused(env)?;
    let schedule = match storage::get_vesting_schedule(env, beneficiary, schedule_id) {
        Some(s) => s,
        None => {
            return Err(BrazaError::VestingNotFound);
        },
    };
    if !schedule.revocable {
        return Err(BrazaError::NotRevocable);
    }
    if schedule.revoked {
        return Err(BrazaError::VestingNotFound);
    }
    let vested = vesting::calculate_vested_amount(env, &schedule);
    let unvested = match schedule.total_amount.checked_sub(vested) {
        Some(d) => d,
        None => if vested < 0 {
            i128::MAX
        } else {
            i128::MIN
        },
    };
    if unvested < 0 {
        return Err(BrazaError::InvalidAmount);
    }
    let adm_bal = storage::get_balance(env, admin);
    let new_bal = match adm_bal.checked_add(unvested) {
        Some(v) => v,
        None => {
            return Err(BrazaError::InvalidAmount);
        },
    };
    let locked = storage::get_locked_balance(env);
    if locked < unvested {
        return Err(BrazaError::InsufficientBalance);
    }
    let revoked = vesting::revoke_vesting_schedule(env, beneficiary, schedule_id);
    assert(revoked == Ok::<i128, BrazaError>(unvested));
    storage::set_balance(env, admin, new_bal);
    storage::set_locked_balance(env, locked - unvested);
    events::emit_vesting_revoked(env, beneficiary, schedule_id);
    Ok(unvested)
}

fn initialize_unguarded(env: &mut Env, admin: Address, name: String, symbol: String) -> (r:
    Result<(), BrazaError>)
    ensures
        r == (if old(env)@.storage.admin is Some {
            Err::<(), BrazaError>(BrazaError::AlreadyInitialized)
        } else {
            Ok(())
        }),
        final(env)@ == (if r is Ok {
            old(env)@.initialized(admin, TokenMetadata { name, symbol, decimals: DECIMALS })
        } else {
            old(env)@
        }),
{
    if storage::has_admin(env) {
        return Err(BrazaError::AlreadyInitialized);
    }
    storage::set_admin(env, admin);
    storage::set_paused(env, false);
    storage::set_balance(env, admin, INITIAL_SUPPLY);
    storage::set_total_supply(env, INITIAL_SUPPLY);
    let metadata = TokenMetadata { name, symbol, decimals: DECIMALS };
    storage::set_metadata(env, metadata);
    env.storage.kyc_levels.insert(admin, 3);
    env.storage.risk_scores.insert(admin, 0);
    events::emit_mint(env, admin, INITIAL_SUPPLY);
    Ok(())
}

fn approve_unguarded(env: &mut Env, from: Address, spender: Address, amount: i128) -> (r: Result<
    (),
    BrazaError,
>)
    ensures
        r == old(env)@.approve_rules(from, spender, amount),
        final(env)@ == (if r is Ok {
            old(env)@.approve_effect(from, spender, amount)
        } else {
            old(env)@
        }),
{
    allowance_checks(env, from, spender)?;
    if amount < 0 {
        return Err(BrazaError::InvalidAmount);
    }
    let current_allowance = storage::get_allowance(env, from, spender);
    if current_allowance != 0 && amount != 0 {
        env.events.push(
            Event::AllowanceRace {
                owner: from,
                spender,
                current: current_allowance,
                requested: amount,
            },
        );
    }
    storage::set_allowance(env, from, spender, amount);
    events::emit_approval(env, from, spender, amount);
    Ok(())
}

fn increase_allowance_unguarded(env: &mut Env, from: Address, spender: Address, delta: i128) -> (r:
    Result<(), BrazaError>)
    ensures
        r == old(env)@.increase_allowance_rules(from, spender, delta),
        final(env)@ == (if r is Ok {
            old(env)@.allowance_changed(
                from,
                spender,
                (old(env)@.storage.allowance(from, spender) + delta) as i128,
            )
        } else {
            old(env)@
        }),
{
    allowance_checks(env, from, spender)?;
    validation::require_positive_amount(delta)?;
    let current = storage::get_allowance(env, from, spender);
    let new = match current.checked_add(delta) {
        Some(v) => v,
        None => {
            return Err(BrazaError::InvalidAmount);
        },
    };
    storage::set_allowance(env, from, spender, new);
    events::emit_approval(env, from, spender, new);
    Ok(())
}

fn decrease_allowance_unguarded(env: &mut Env, from: Address, spender: Address, delta: i128) -> (r:
    Result<(), BrazaError>)
    ensures
        r == old(env)@.decrease_allowance_rules(from, spender, delta),
        final(env)@ == (if r is Ok {
            old(env)@.allowance_changed(
                from,
                spender,
                (old(env)@.storage.allowance(from, spender) - delta) as i128,
            )
        } else {
            old(env)@
        }),
{
    allowance_checks(env, from, spender)?;
    validation::require_positive_amount(delta)?;
    let current = storage::get_allowance(env, from, spender);
    if current < delta {
        return Err(BrazaError::InsufficientAllowance);
    }
    let new = current - delta;
    storage::set_allowance(env, from, spender, new);
    events::emit_approval(env, from, spender, new);
    Ok(())
}

/// Blacklisting does not read or write the guard: it may be set before
/// or after.
proof fn lemma_blacklisting_leaves_guard(
    env: EnvView,
    addrs: Seq<Address>,
    blacklisted: bool,
    locked: bool,
)
    ensures
        env.set_reentrancy_guard(locked).blacklisted_all(addrs, blacklisted)
            == env.blacklisted_all(addrs, blacklisted).set_reentrancy_guard(locked),
    decreases addrs.len(),
{
    if addrs.len() > 0 {
        lemma_blacklisting_leaves_guard(env, addrs.drop_last(), blacklisted, locked);
    }
}

fn batch_blacklist_unguarded(env: &mut Env, addrs: &Vec<Address>, blacklisted: bool) -> (r: Result<
    (),
    BrazaError,
>)
    ensures
        r == old(env)@.batch_blacklist_rules(addrs@),
        final(env)@ == (if r is Ok {
            old(env)@.blacklisted_all(addrs@, blacklisted)
        } else {
            old(env)@
        }),
{
    require_admin_authorized(env)?;
    if addrs.len() > MAX_BATCH_SIZE {
        return Err(BrazaError::InvalidAmount);
    }
    let mut i: usize = 0;
    while i < addrs.len()
        invariant
            0 <= i <= addrs@.len(),
            env@ == old(env)@.blacklisted_all(addrs@.take(i as int), blacklisted),
        decreases addrs@.len() - i,
    {
        storage::set_blacklisted(env, addrs[i], blacklisted);
        events::emit_blacklist(env, addrs[i], blacklisted);
        proof {
            let done = addrs@.take(i + 1);
            assert(done.drop_last() =~= addrs@.take(i as int));
            assert(done.last() == addrs@[i as int]);
        }
        i += 1;
    }
    proof {
        assert(addrs@.take(addrs@.len() as int) =~= addrs@);
    }
    Ok(())
}

impl BrazaToken {
    /// Sets the ledger up, once: `admin` becomes the administrator, holds
    /// the initial supply and is put on file with the highest tier and no
    /// risk; its country code is set like any other principal's. Fails with
    /// `Unauthorized` while another call is in progress and with
    /// `AlreadyInitialized` where an administrator exists.
    pub fn initialize(env: &mut Env, admin: Address, name: String, symbol: String) -> (r: Result<
        (),
        BrazaError,
    >)
        ensures
            r == old(env)@.initialize_check(),
            final(env)@ == (if r is Ok {
                old(env)@.initialized(admin, TokenMetadata { name, symbol, decimals: DECIMALS })
            } else {
                old(env)@
            }),
    {
        if storage::is_reentrancy_locked(env) {
            return Err(BrazaError::Unauthorized);
        }
        storage::set_reentrancy_guard(env, true);
        let result = initialize_unguarded(env, admin, name, symbol);
        storage::set_reentrancy_guard(env, false);
        result
    }

    /// The token's name.
    pub fn name(env: &Env) -> (n: String)
        requires
            env@.storage.metadata is Some,
        ensures
            n == env@.storage.metadata.unwrap().name,
    {
        storage::get_metadata(env).name
    }

    /// The token's symbol.
    pub fn symbol(env: &Env) -> (s: String)
        requires
            env@.storage.metadata is Some,
        ensures
            s == env@.storage.metadata.unwrap().symbol,
    {
        storage::get_metadata(env).symbol
    }

    /// The number of decimals of an amount.
    pub fn decimals(env: &Env) -> (d: u32)
        requires
            env@.storage.metadata is Some,
        ensures
            d == env@.storage.metadata.unwrap().decimals,
    {
        storage::get_metadata(env).decimals
    }

    /// What `id` holds.
    pub fn balance(env: &Env, id: Address) -> (b: i128)
        ensures
            b == env@.storage.balance(id),
    {
        storage::get_balance(env, id)
    }

    /// The total supply.
    pub fn total_supply(env: &Env) -> (s: i128)
        ensures
            s == env@.storage.total_supply,
    {
        storage::get_total_supply(env)
    }

    /// Moves `amount` from `from` to `to`.
    ///
    /// The checks, in this order: no call in progress and `from` has
    /// authorized the call (else `Unauthorized`); not paused (else
    /// `Paused`); `amount` positive (else `InvalidAmount`); the policy for
    /// `from`, with the daily cap, and for `to`; `from` holds `amount`
    /// (else `InsufficientBalance`); the balance of `to` fits (else
    /// `InvalidAmount`). A failed call changes nothing.
    pub fn transfer(env: &mut Env, from: Address, to: Address, amount: i128) -> (r: Result<
        (),
        BrazaError,
    >)
        ensures
            r == old(env)@.transfer_check(from, to, amount),
            final(env)@ == (if r is Ok {
                old(env)@.transfer_effect(from, to, amount)
            } else {
                old(env)@
            }),
    {
        if storage::is_reentrancy_locked(env) {
            return Err(BrazaError::Unauthorized);
        }
        storage::set_reentrancy_guard(env, true);
        let result = transfer_unguarded(env, from, to, amount);
        storage::set_reentrancy_guard(env, false);
        result
    }

    /// Moves `amount` from `from` to `to` on the word of `spender`, who
    /// draws on the allowance that `from` has granted.
    ///
    /// The checks, in this order: no call in progress and `spender` has
    /// authorized the call (else `Unauthorized`); not paused; `amount`
    /// positive; the policy for `spender`, for `from` with the daily cap,
    /// and for `to`; `from` holds `amount` (else `InsufficientBalance`);
    /// the allowance covers `amount` (else `InsufficientAllowance`); the
    /// balance of `to` fits. A failed call changes nothing.
    pub fn transfer_from(
        env: &mut Env,
        spender: Address,
        from: Address,
        to: Address,
        amount: i128,
    ) -> (r: Result<(), BrazaError>)
        ensures
            r == old(env)@.transfer_from_check(spender, from, to, amount),
            final(env)@ == (if r is Ok {
                old(env)@.transfer_from_effect(spender, from, to, amount)
            } else {
                old(env)@
            }),
    {
        if storage::is_reentrancy_locked(env) {
            return Err(BrazaError::Unauthorized);
        }
        storage::set_reentrancy_guard(env, true);
        let result = transfer_from_unguarded(env, spender, from, to, amount);
        storage::set_reentrancy_guard(env, false);
        result
    }

    /// Sets what `spender` may draw from `from` to `amount`; zero removes
    /// the allowance. Fails with `Unauthorized` while a call is in
    /// progress or unless `from` authorized the call, with `Paused`, with
    /// `Blacklisted` where either principal is on the blacklist, and with
    /// `InvalidAmount` where `amount` is negative.
    pub fn approve(env: &mut Env, from: Address, spender: Address, amount: i128) -> (r: Result<
        (),
        BrazaError,
    >)
        ensures
            r == old(env)@.approve_check(from, spender, amount),
            final(env)@ == (if r is Ok {
                old(env)@.approve_effect(from, spender, amount)
            } else {
                old(env)@
            }),
    {
        if storage::is_reentrancy_locked(env) {
            return Err(BrazaError::Unauthorized);
        }
        storage::set_reentrancy_guard(env, true);
        let result = approve_unguarded(env, from, spender, amount);
        storage::set_reentrancy_guard(env, false);
        result
    }

    /// Raises what `spender` may draw from `from` by `delta`. Fails as
    /// [`BrazaToken::approve`] does, and with `InvalidAmount` unless
    /// `delta` is positive and the new allowance fits.
    pub fn increase_allowance(env: &mut Env, from: Address, spender: Address, delta: i128) -> (r:
        Result<(), BrazaError>)
        ensures
            r == old(env)@.increase_allowance_check(from, spender, delta),
            final(env)@ == (if r is Ok {
                old(env)@.allowance_changed(
                    from,
                    spender,
                    (old(env)@.storage.allowance(from, spender) + delta) as i128,
                )
            } else {
                old(env)@
            }),
    {
        if storage::is_reentrancy_locked(env) {
            return Err(BrazaError::Unauthorized);
        }
        storage::set_reentrancy_guard(env, true);
        let result = increase_allowance_unguarded(env, from, spender, delta);
        storage::set_reentrancy_guard(env, false);
        result
    }

    /// Lowers what `spender` may draw from `from` by `delta`. Fails as
    /// [`BrazaToken::approve`] does, with `InvalidAmount` unless `delta`
    /// is positive, and with `InsufficientAllowance` where the allowance
    /// is less than `delta`.
    pub fn decrease_allowance(env: &mut Env, from: Address, spender: Address, delta: i128) -> (r:
        Result<(), BrazaError>)
        ensures
            r == old(env)@.decrease_allowance_check(from, spender, delta),
            final(env)@ == (if r is Ok {
                old(env)@.allowance_changed(
                    from,
                    spender,
                    (old(env)@.storage.allowance(from, spender) - delta) as i128,
                )
            } else {
                old(env)@
            }),
    {
        if storage::is_reentrancy_locked(env) {
            return Err(BrazaError::Unauthorized);
        }
        storage::set_reentrancy_guard(env, true);
        let result = decrease_allowance_unguarded(env, from, spender, delta);
        storage::set_reentrancy_guard(env, false);
        result
    }

    /// What `spender` may still draw from `from`.
    pub fn allowance(env: &Env, from: Address, spender: Address) -> (a: i128)
        ensures
            a == env@.storage.allowance(from, spender),
    {
        storage::get_allowance(env, from, spender)
    }

    /// Issues `amount` to `to`.
    ///
    /// The checks, in this order: no call in progress and the
    /// administrator has authorized the call (else `Unauthorized`); the
    /// timelock of issuance is open (else `TimelockNotExpired`, with a
    /// warning); not paused; `amount` positive and within the cap of one
    /// call (else `InvalidAmount`); the largest supply is kept (else
    /// `MaxSupplyExceeded`); the policy for `to`; the balance of `to` fits
    /// (else `OverflowError`). A successful call resets the timelock.
    pub fn mint(env: &mut Env, to: Address, amount: i128) -> (r: Result<(), BrazaError>)
        ensures
            r == old(env)@.mint_check(to, amount),
            final(env)@ == old(env)@.mint_outcome(to, amount),
    {
        if storage::is_reentrancy_locked(env) {
            return Err(BrazaError::Unauthorized);
        }
        storage::set_reentrancy_guard(env, true);
        let result = mint_unguarded(env, to, amount);
        storage::set_reentrancy_guard(env, false);
        result
    }

    /// Destroys `amount` of what `from` holds, on the administrator's
    /// word.
    ///
    /// The checks, in this order: no call in progress and the
    /// administrator has authorized the call (else `Unauthorized`); the
    /// timelock of destruction is open (else `TimelockNotExpired`, with a
    /// warning); not paused; `amount` positive and within the cap of one
    /// call; `from` is not on the blacklist (else `Blacklisted`); `from`
    /// holds `amount` and the circulating supply covers it (else
    /// `InsufficientBalance`). A successful call resets the timelock.
    pub fn burn(env: &mut Env, from: Address, amount: i128) -> (r: Result<(), BrazaError>)
        ensures
            r == old(env)@.burn_check(from, amount),
            final(env)@ == old(env)@.burn_outcome(from, amount),
    {
        if storage::is_reentrancy_locked(env) {
            return Err(BrazaError::Unauthorized);
        }
        storage::set_reentrancy_guard(env, true);
        let result = burn_unguarded(env, from, amount);
        storage::set_reentrancy_guard(env, false);
        result
    }

    /// Creates a grant for `beneficiary` out of the administrator's
    /// balance and returns the id of its schedule.
    ///
    /// The checks, in this order: no call in progress and the
    /// administrator has authorized the call; not paused; the parameters
    /// are valid; the administrator holds `total_amount` (else
    /// `InsufficientBalance`); the locked balance fits; the cooldown of
    /// `beneficiary` has passed (else `VestingCooldownActive`); neither
    /// cap of schedules is reached.
    pub fn create_vesting(
        env: &mut Env,
        beneficiary: Address,
        total_amount: i128,
        cliff_ledgers: u32,
        duration_ledgers: u32,
        revocable: bool,
    ) -> (r: Result<u32, BrazaError>)
        ensures
            r == old(env)@.create_vesting_check(
                beneficiary,
                total_amount,
                cliff_ledgers,
                duration_ledgers,
            ),
            final(env)@ == (if r is Ok {
                old(env)@.create_vesting_effect(
                    beneficiary,
                    total_amount,
                    cliff_ledgers,
                    duration_ledgers,
                    revocable,
                )
            } else {
                old(env)@
            }),
    {
        if storage::is_reentrancy_locked(env) {
            return Err(BrazaError::Unauthorized);
        }
        storage::set_reentrancy_guard(env, true);
        let result = create_vesting_unguarded(
            env,
            beneficiary,
            total_amount,
            cliff_ledgers,
            duration_ledgers,
            revocable,
        );
        storage::set_reentrancy_guard(env, false);
        result
    }

    /// Pays out what can be released of a schedule at the current tick
    /// and returns the amount.
    ///
    /// The checks, in this order: no call in progress and `beneficiary`
    /// has authorized the call; not paused; the schedule exists (else
    /// `VestingNotFound`); something can be released (else
    /// `NoTokensToRelease`); the amounts fit; the locked balance covers
    /// the amount (else `InsufficientBalance`).
    pub fn release_vested(env: &mut Env, beneficiary: Address, schedule_id: u32) -> (r: Result<
        i128,
        BrazaError,
    >)
        ensures
            r == old(env)@.release_vested_check(beneficiary, schedule_id),
            final(env)@ == (match r {
                Ok(amount) => old(env)@.release_vested_effect(beneficiary, schedule_id, amount),
                Err(_) => old(env)@,
            }),
    {
        if storage::is_reentrancy_locked(env) {
            return Err(BrazaError::Unauthorized);
        }
        storage::set_reentrancy_guard(env, true);
        let result = release_vested_unguarded(env, beneficiary, schedule_id);
        storage::set_reentrancy_guard(env, false);
        result
    }

    /// Revokes a schedule and gives what had not vested of it back to
    /// the administrator; returns that amount.
    ///
    /// The checks, in this order: no call in progress and the
    /// administrator has authorized the call; not paused; the schedule
    /// exists (else `VestingNotFound`), is revocable (else
    /// `NotRevocable`) and not yet revoked (else `VestingNotFound`); the
    /// amounts fit; the locked balance covers the amount.
    pub fn revoke_vesting(env: &mut Env, beneficiary: Address, schedule_id: u32) -> (r: Result<
        i128,
        BrazaError,
    >)
        ensures
            r == old(env)@.revoke_vesting_check(beneficiary, schedule_id),
            final(env)@ == (match r {
                Ok(unvested) => old(env)@.revoke_vesting_effect(
                    beneficiary,
                    schedule_id,
                    unvested,
                ),
                Err(_) => old(env)@,
            }),
    {
        if storage::is_reentrancy_locked(env) {
            return Err(BrazaError::Unauthorized);
        }
        storage::set_reentrancy_guard(env, true);
        let result = revoke_vesting_unguarded(env, beneficiary, schedule_id);
        storage::set_reentrancy_guard(env, false);
        result
    }

    /// Schedule `schedule_id` of `beneficiary`, or `VestingNotFound`.
    pub fn get_vesting_schedule(env: &Env, beneficiary: Address, schedule_id: u32) -> (r: Result<
        VestingSchedule,
        BrazaError,
    >)
        ensures
            r == (match env@.storage.schedule(beneficiary, schedule_id) {
                Some(s) => Ok::<VestingSchedule, BrazaError>(s),
                None => Err(BrazaError::VestingNotFound),
            }),
    {
        match storage::get_vesting_schedule(env, beneficiary, schedule_id) {
            Some(s) => Ok(s),
            None => Err(BrazaError::VestingNotFound),
        }
    }

    /// Every schedule of `beneficiary`, by rising id.
    pub fn get_all_vesting_schedules(env: &Env, beneficiary: Address) -> (v: Vec<VestingSchedule>)
        ensures
            v@ == schedules_below(
                env@.storage,
                beneficiary,
                (env@.storage.vesting_count(beneficiary) + 1) as nat,
            ),
    {
        storage::get_all_vesting_schedules(env, beneficiary)
    }

    /// What can be released of a schedule at the current tick, or
    /// `VestingNotFound`.
    pub fn get_releasable_amount(env: &Env, beneficiary: Address, schedule_id: u32) -> (r: Result<
        i128,
        BrazaError,
    >)
        ensures
            r == (match env@.storage.schedule(beneficiary, schedule_id) {
                Some(s) => Ok::<i128, BrazaError>(releasable_amount(s, env@.ledger_sequence)),
                None => Err(BrazaError::VestingNotFound),
            }),
    {
        match storage::get_vesting_schedule(env, beneficiary, schedule_id) {
            Some(schedule) => Ok(vesting::calculate_releasable_amount(env, &schedule)),
            None => Err(BrazaError::VestingNotFound),
        }
    }

    /// The part of the supply that grants hold back.
    pub fn get_locked_balance(env: &Env) -> (b: i128)
        ensures
            b == env@.storage.locked_balance,
    {
        storage::get_locked_balance(env)
    }

    /// The supply that grants do not hold back.
    pub fn get_circulating_supply(env: &Env) -> (c: i128)
        ensures
            c == env@.storage.circulating_supply(),
    {
        storage::get_circulating_supply(env)
    }

    /// The total, the locked and the circulating supply, and the largest
    /// supply that can exist.
    pub fn get_supply_stats(env: &Env) -> (stats: (i128, i128, i128, i128))
        ensures
            stats == (
                env@.storage.total_supply,
                env@.storage.locked_balance,
                env@.storage.circulating_supply(),
                MAX_SUPPLY,
            ),
    {
        let total = storage::get_total_supply(env);
        let locked = storage::get_locked_balance(env);
        let circulating = storage::get_circulating_supply(env);
        (total, locked, circulating, MAX_SUPPLY)
    }

    /// Pauses the ledger. Fails with `Unauthorized` while a call is in
    /// progress or unless the administrator authorized the call.
    pub fn pause(env: &mut Env) -> (r: Result<(), BrazaError>)
        ensures
            r == old(env)@.admin_only_check(),
            final(env)@ == (if r is Ok {
                old(env)@.set_paused(true).emit(Event::Pause)
            } else {
                old(env)@
            }),
    {
        if storage::is_reentrancy_locked(env) {
            return Err(BrazaError::Unauthorized);
        }
        storage::set_reentrancy_guard(env, true);
        let result = match require_admin_authorized(env) {
            Ok(_) => {
                storage::set_paused(env, true);
                events::emit_pause(env);
                Ok(())
            },
            Err(e) => Err(e),
        };
        storage::set_reentrancy_guard(env, false);
        result
    }

    /// Resumes the ledger. Fails with `Unauthorized` while a call is in
    /// progress or unless the administrator authorized the call.
    pub fn unpause(env: &mut Env) -> (r: Result<(), BrazaError>)
        ensures
            r == old(env)@.admin_only_check(),
            final(env)@ == (if r is Ok {
                old(env)@.set_paused(false).emit(Event::Unpause)
            } else {
                old(env)@
            }),
    {
        if storage::is_reentrancy_locked(env) {
            return Err(BrazaError::Unauthorized);
        }
        storage::set_reentrancy_guard(env, true);
        let result = match require_admin_authorized(env) {
            Ok(_) => {
                storage::set_paused(env, false);
                events::emit_unpause(env);
                Ok(())
            },
            Err(e) => Err(e),
        };
        storage::set_reentrancy_guard(env, false);
        result
    }

    /// Puts `addr` on the blacklist or takes it off. Fails with
    /// `Unauthorized` while a call is in progress or unless the
    /// administrator authorized the call.
    pub fn set_blacklisted(env: &mut Env, addr: Address, blacklisted: bool) -> (r: Result<
        (),
        BrazaError,
    >)
        ensures
            r == old(env)@.admin_only_check(),
            final(env)@ == (if r is Ok {
                old(env)@.set_blacklisted(addr, blacklisted).emit(
                    Event::Blacklist { addr, blacklisted },
                )
            } else {
                old(env)@
            }),
    {
        if storage::is_reentrancy_locked(env) {
            return Err(BrazaError::Unauthorized);
        }
        storage::set_reentrancy_guard(env, true);
        let result = match require_admin_authorized(env) {
            Ok(_) => {
                storage::set_blacklisted(env, addr, blacklisted);
                events::emit_blacklist(env, addr, blacklisted);
                Ok(())
            },
            Err(e) => Err(e),
        };
        storage::set_reentrancy_guard(env, false);
        result
    }

    /// The administrator.
    pub fn get_admin(env: &Env) -> (admin: Address)
        requires
            env@.storage.admin is Some,
        ensures
            Some(admin) == env@.storage.admin,
    {
        storage::get_admin(env)
    }

    /// Whether the ledger is paused.
    pub fn is_paused(env: &Env) -> (b: bool)
        ensures
            b == env@.storage.paused,
    {
        storage::is_paused(env)
    }

    /// Whether `addr` is on the blacklist.
    pub fn is_blacklisted(env: &Env, addr: Address) -> (b: bool)
        ensures
            b == env@.storage.blacklisted(addr),
    {
        storage::is_blacklisted(env, addr)
    }

    /// Makes `new_admin` the administrator. Fails with `Unauthorized`
    /// while a call is in progress or unless the administrator authorized
    /// the call.
    pub fn transfer_ownership(env: &mut Env, new_admin: Address) -> (r: Result<(), BrazaError>)
        ensures
            r == old(env)@.admin_only_check(),
            final(env)@ == (if r is Ok {
                old(env)@.ownership_transferred(new_admin)
            } else {
                old(env)@
            }),
    {
        if storage::is_reentrancy_locked(env) {
            return Err(BrazaError::Unauthorized);
        }
        storage::set_reentrancy_guard(env, true);
        let result = match require_admin_authorized(env) {
            Ok(current_admin) => {
                env.events.push(
                    Event::AdminChanged { previous: current_admin, successor: new_admin },
                );
                storage::set_admin(env, new_admin);
                Ok(())
            },
            Err(e) => Err(e),
        };
        storage::set_reentrancy_guard(env, false);
        result
    }

    /// Moves `amount` from `from` to `to` on the administrator's word;
    /// see [`admin::force_transfer`]. Fails with `Unauthorized` while a
    /// call is in progress.
    pub fn force_transfer(env: &mut Env, from: Address, to: Address, amount: i128) -> (r: Result<
        (),
        BrazaError,
    >)
        ensures
            r == old(env)@.guarded(old(env)@.force_transfer_rules(from, to, amount)),
            final(env)@ == (if r is Ok {
                old(env)@.force_transfer_effect(from, to, amount)
            } else {
                old(env)@
            }),
    {
        if storage::is_reentrancy_locked(env) {
            return Err(BrazaError::Unauthorized);
        }
        storage::set_reentrancy_guard(env, true);
        let result = admin::force_transfer(env, from, to, amount);
        storage::set_reentrancy_guard(env, false);
        result
    }

    /// Destroys `amount` of what `from` holds on the administrator's
    /// word; see [`admin::force_burn`]. Fails with `Unauthorized` while a
    /// call is in progress.
    pub fn force_burn(env: &mut Env, from: Address, amount: i128) -> (r: Result<(), BrazaError>)
        ensures
            r == old(env)@.guarded(old(env)@.force_burn_rules(from, amount)),
            final(env)@ == (if r is Ok {
                old(env)@.force_burn_effect(from, amount)
            } else {
                old(env)@
            }),
    {
        if storage::is_reentrancy_locked(env) {
            return Err(BrazaError::Unauthorized);
        }
        storage::set_reentrancy_guard(env, true);
        let result = admin::force_burn(env, from, amount);
        storage::set_reentrancy_guard(env, false);
        result
    }
    /// Renames the token; the number of decimals stays as it is. Fails
    /// with `Unauthorized` while a call is in progress or unless the
    /// administrator authorized the call.
    pub fn update_metadata(env: &mut Env, name: String, symbol: String) -> (r: Result<
        (),
        BrazaError,
    >)
        ensures
            r == old(env)@.admin_only_check(),
            final(env)@ == (if r is Ok {
                old(env)@.set_metadata(TokenMetadata { name, symbol, decimals: DECIMALS })
            } else {
                old(env)@
            }),
    {
        if storage::is_reentrancy_locked(env) {
            return Err(BrazaError::Unauthorized);
        }
        storage::set_reentrancy_guard(env, true);
        let result = match require_admin_authorized(env) {
            Ok(_) => {
                storage::set_metadata(env, TokenMetadata { name, symbol, decimals: DECIMALS });
                Ok(())
            },
            Err(e) => Err(e),
        };
        storage::set_reentrancy_guard(env, false);
        result
    }

    /// Puts every principal of `addrs` on the blacklist or takes it off,
    /// in the order given, with one notification each. Fails with
    /// `Unauthorized` while a call is in progress or unless the
    /// administrator authorized the call, and with `InvalidAmount` where
    /// `addrs` holds more than [`MAX_BATCH_SIZE`] principals.
    pub fn batch_blacklist(env: &mut Env, addrs: &Vec<Address>, blacklisted: bool) -> (r: Result<
        (),
        BrazaError,
    >)
        ensures
            r == old(env)@.batch_blacklist_check(addrs@),
            final(env)@ == (if r is Ok {
                old(env)@.blacklisted_all(addrs@, blacklisted)
            } else {
                old(env)@
            }),
    {
        if storage::is_reentrancy_locked(env) {
            return Err(BrazaError::Unauthorized);
        }
        storage::set_reentrancy_guard(env, true);
        let result = batch_blacklist_unguarded(env, addrs, blacklisted);
        storage::set_reentrancy_guard(env, false);
        proof {
            lemma_blacklisting_leaves_guard(old(env)@, addrs@, blacklisted, true);
            lemma_blacklisting_leaves_guard(old(env)@, addrs@, blacklisted, false);
            assert(old(env)@.set_reentrancy_guard(false) == old(env)@);
        }
        result
    }

    /// Puts the tier of `user` on file; see
    /// [`compliance::set_kyc_level`]. Fails with `Unauthorized` while a
    /// call is in progress, and with `InvalidAmount` unless `level` is
    /// one, two or three, whoever calls.
    pub fn set_kyc_level(env: &mut Env, admin: Address, user: Address, level: u32) -> (r: Result<
        (),
        BrazaError,
    >)
        ensures
            r == old(env)@.guarded(
                if level == 0 || level > 3 {
                    Err::<(), BrazaError>(BrazaError::InvalidAmount)
                } else {
                    old(env)@.kyc_update_check(admin, level)
                },
            ),
            final(env)@ == (if r is Ok {
                old(env)@.put_kyc_level(user, level).emit(Event::KycSet { user, level })
            } else {
                old(env)@
            }),
    {
        if storage::is_reentrancy_locked(env) {
            return Err(BrazaError::Unauthorized);
        }
        validation::validate_kyc_level_value(level)?;
        storage::set_reentrancy_guard(env, true);
        let result = compliance::set_kyc_level(env, admin, user, level);
        storage::set_reentrancy_guard(env, false);
        result
    }

    /// Puts the country code of `user` on file; see
    /// [`compliance::set_country_code`]. Fails with `Unauthorized` while
    /// a call is in progress.
    pub fn set_country_code(env: &mut Env, admin: Address, user: Address, code: String) -> (r:
        Result<(), BrazaError>)
        ensures
            r == old(env)@.guarded(old(env)@.country_update_check(admin, code@)),
            final(env)@ == (if r is Ok {
                old(env)@.put_country(user, code@).emit(Event::CountrySet { user, code })
            } else {
                old(env)@
            }),
    {
        if storage::is_reentrancy_locked(env) {
            return Err(BrazaError::Unauthorized);
        }
        storage::set_reentrancy_guard(env, true);
        let result = compliance::set_country_code(env, admin, user, code);
        storage::set_reentrancy_guard(env, false);
        result
    }

    /// Puts `code` on the list of blocked countries; see
    /// [`compliance::add_blocked_country`]. Fails with `Unauthorized`
    /// while a call is in progress.
    pub fn add_blocked_country(env: &mut Env, admin: Address, code: String) -> (r: Result<
        (),
        BrazaError,
    >)
        ensures
            r == old(env)@.guarded(old(env)@.country_update_check(admin, code@)),
            final(env)@ == (if r is Ok {
                old(env)@.block_country(code@).emit(Event::CountryBlocked { code })
            } else {
                old(env)@
            }),
    {
        if storage::is_reentrancy_locked(env) {
            return Err(BrazaError::Unauthorized);
        }
        storage::set_reentrancy_guard(env, true);
        let result = compliance::add_blocked_country(env, admin, code);
        storage::set_reentrancy_guard(env, false);
        result
    }

    /// Takes `code` off the list of blocked countries; see
    /// [`compliance::remove_blocked_country`]. Fails with `Unauthorized`
    /// while a call is in progress.
    pub fn remove_blocked_country(env: &mut Env, admin: Address, code: String) -> (r: Result<
        (),
        BrazaError,
    >)
        ensures
            r == old(env)@.guarded(old(env)@.admin_check(admin)),
            final(env)@ == (if r is Ok {
                old(env)@.unblock_country(code@).emit(Event::CountryUnblocked { code })
            } else {
                old(env)@
            }),
    {
        if storage::is_reentrancy_locked(env) {
            return Err(BrazaError::Unauthorized);
        }
        storage::set_reentrancy_guard(env, true);
        let result = compliance::remove_blocked_country(env, admin, code);
        storage::set_reentrancy_guard(env, false);
        result
    }

    /// Puts the risk score of `user` on file; see
    /// [`compliance::set_risk_score`]. Fails with `Unauthorized` while a
    /// call is in progress.
    pub fn set_risk_score(env: &mut Env, admin: Address, user: Address, score: u32) -> (r: Result<
        (),
        BrazaError,
    >)
        ensures
            r == old(env)@.guarded(old(env)@.risk_update_check(admin, score)),
            final(env)@ == (if r is Ok {
                old(env)@.put_risk_score(user, score).emit(Event::RiskSet { user, score })
            } else {
                old(env)@
            }),
    {
        if storage::is_reentrancy_locked(env) {
            return Err(BrazaError::Unauthorized);
        }
        storage::set_reentrancy_guard(env, true);
        let result = compliance::set_risk_score(env, admin, user, score);
        storage::set_reentrancy_guard(env, false);
        result
    }

    /// Sets what `user` may move in one day; see
    /// [`compliance::set_daily_limit`]. Fails with `Unauthorized` while a
    /// call is in progress.
    pub fn set_daily_limit(env: &mut Env, admin: Address, user: Address, limit: i128) -> (r:
        Result<(), BrazaError>)
        ensures
            r == old(env)@.guarded(old(env)@.limit_update_check(admin, limit)),
            final(env)@ == (if r is Ok {
                old(env)@.put_daily_limit(user, limit).emit(Event::DailyLimitSet { user, limit })
            } else {
                old(env)@
            }),
    {
        if storage::is_reentrancy_locked(env) {
            return Err(BrazaError::Unauthorized);
        }
        storage::set_reentrancy_guard(env, true);
        let result = compliance::set_daily_limit(env, admin, user, limit);
        storage::set_reentrancy_guard(env, false);
        result
    }
}

} // verus!
