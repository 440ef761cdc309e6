//! The notifications of the ledger. Each function appends one to the log
//! of the call; a host publishes the log once the call has returned.

use vstd::prelude::*;
use crate::env::Env;
use crate::types::{Address, Event};

verus! {

/// Notifies that `amount` moved from `from` to `to`.
pub fn emit_transfer(env: &mut Env, from: Address, to: Address, amount: i128)
    ensures
        final(env)@ == old(env)@.emit(Event::Transfer { from, to, amount }),
{
    env.events.push(Event::Transfer { from, to, amount });
}

/// Notifies that `amount` was issued to `to`.
pub fn emit_mint(env: &mut Env, to: Address, amount: i128)
    ensures
        final(env)@ == old(env)@.emit(Event::Mint { to, amount }),
{
    env.events.push(Event::Mint { to, amount });
}

/// Notifies that `amount` of `from` was destroyed.
pub fn emit_burn(env: &mut Env, from: Address, amount: i128)
    ensures
        final(env)@ == old(env)@.emit(Event::Burn { from, amount }),
{
    env.events.push(Event::Burn { from, amount });
}

/// Notifies that `spender` may now draw `amount` from `owner`.
pub fn emit_approval(env: &mut Env, owner: Address, spender: Address, amount: i128)
    ensures
        final(env)@ == old(env)@.emit(Event::Approval { owner, spender, amount }),
{
    env.events.push(Event::Approval { owner, spender, amount });
}

/// Notifies that the ledger was paused.
pub fn emit_pause(env: &mut Env)
    ensures
        final(env)@ == old(env)@.emit(Event::Pause),
{
    env.events.push(Event::Pause);
}

/// Notifies that the ledger was resumed.
pub fn emit_unpause(env: &mut Env)
    ensures
        final(env)@ == old(env)@.emit(Event::Unpause),
{
    env.events.push(Event::Unpause);
}

/// Notifies that `addr` was put on the blacklist or taken off it.
pub fn emit_blacklist(env: &mut Env, addr: Address, blacklisted: bool)
    ensures
        final(env)@ == old(env)@.emit(Event::Blacklist { addr, blacklisted }),
{
    env.events.push(Event::Blacklist { addr, blacklisted });
}

/// Notifies that schedule `schedule_id` over `amount` was created for
/// `beneficiary`.
pub fn emit_vesting_created(env: &mut Env, beneficiary: Address, schedule_id: u32, amount: i128)
    ensures
        final(env)@ == old(env)@.emit(Event::VestingCreated { beneficiary, schedule_id, amount }),
{
    env.events.push(Event::VestingCreated { beneficiary, schedule_id, amount });
}

/// Notifies that `amount` was released from schedule `schedule_id` of
/// `beneficiary`.
pub fn emit_vesting_released(env: &mut Env, beneficiary: Address, schedule_id: u32, amount: i128)
    ensures
        final(env)@ == old(env)@.emit(Event::VestingReleased { beneficiary, schedule_id, amount }),
{
    env.events.push(Event::VestingReleased { beneficiary, schedule_id, amount });
}

/// Notifies that schedule `schedule_id` of `beneficiary` was revoked.
pub fn emit_vesting_revoked(env: &mut Env, beneficiary: Address, schedule_id: u32)
    ensures
        final(env)@ == old(env)@.emit(Event::VestingRevoked { beneficiary, schedule_id }),
{
    env.events.push(Event::VestingRevoked { beneficiary, schedule_id });
}

} // verus!
