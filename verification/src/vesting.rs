//! The vesting engine: how much of a grant has vested at a tick, and the
//! state changes of creating, releasing and revoking a schedule.

use vstd::prelude::*;
use crate::env::{Env, EnvView};
use crate::storage;
use crate::storage::elapsed_since;
use crate::supply::sum_values;
use crate::types::{Address, BrazaError, VestingSchedule};

verus! {

/// The invariant of a schedule: what was released lies between zero and
/// the total, the duration is not zero, and the cliff lies within it.
pub open spec fn schedule_valid(s: VestingSchedule) -> bool {
    &&& 0 <= s.released_amount <= s.total_amount
    &&& 0 < s.duration_ledgers
    &&& s.cliff_ledgers <= s.duration_ledgers
}

/// What has vested of `s` at tick `now`.
///
/// A revoked schedule is frozen at what was released. Otherwise nothing
/// vests before the cliff, everything has vested once the duration has
/// passed, and in between the total vests in proportion to the ticks
/// elapsed, rounded down; where that product does not fit an amount, the
/// answer is zero.
pub open spec fn vested_amount(s: VestingSchedule, now: u32) -> i128 {
    let elapsed = elapsed_since(now, s.start_ledger);
    if s.revoked {
        s.released_amount
    } else if elapsed < s.cliff_ledgers {
        0
    } else if elapsed >= s.duration_ledgers {
        s.total_amount
    } else if s.total_amount * elapsed > i128::MAX || s.total_amount * elapsed < i128::MIN {
        0
    } else {
        ((s.total_amount * elapsed) / (s.duration_ledgers as int)) as i128
    }
}

/// `x` where it fits an amount, else the nearest amount.
pub open spec fn clamp_amount(x: int) -> i128 {
    if x > i128::MAX {
        i128::MAX
    } else if x < i128::MIN {
        i128::MIN
    } else {
        x as i128
    }
}

/// What can be released of `s` at tick `now`: what has vested and was
/// not released yet, never less than zero.
pub open spec fn releasable_amount(s: VestingSchedule, now: u32) -> i128 {
    let open = clamp_amount(vested_amount(s, now) - s.released_amount);
    if open < 0 {
        0
    } else {
        open
    }
}

/// What has not vested of `s` at tick `now`.
pub open spec fn unvested_amount(s: VestingSchedule, now: u32) -> i128 {
    clamp_amount(s.total_amount - vested_amount(s, now))
}

/// What a schedule still holds back: the part of the total that was not
/// released; nothing once the schedule is revoked.
pub open spec fn held_amount(s: VestingSchedule) -> int {
    if s.revoked {
        0
    } else {
        s.total_amount - s.released_amount
    }
}

/// What each stored schedule still holds back.
pub open spec fn held_amounts(schedules: Map<u128, VestingSchedule>) -> Map<u128, int> {
    Map::new(|k: u128| schedules.dom().contains(k), |k: u128| held_amount(schedules[k]))
}

/// What all stored schedules together still hold back.
pub open spec fn outstanding_grants(schedules: Map<u128, VestingSchedule>) -> int {
    sum_values(held_amounts(schedules))
}

impl EnvView {
    /// What [`create_vesting_schedule`] answers: the id of the new
    /// schedule, unless the cooldown of `beneficiary` still runs or a cap
    /// on the number of schedules is reached.
    pub open spec fn schedule_creation_check(self, beneficiary: Address) -> Result<
        u32,
        BrazaError,
    > {
        if !self.vesting_cooldown_expired(beneficiary) {
            Err(BrazaError::VestingCooldownActive)
        } else {
            self.vesting_count_check(beneficiary)
        }
    }

    /// The state after a schedule was created for `beneficiary` at the
    /// current tick.
    pub open spec fn schedule_created(
        self,
        beneficiary: Address,
        total_amount: i128,
        cliff_ledgers: u32,
        duration_ledgers: u32,
        revocable: bool,
    ) -> EnvView {
        let id = (self.storage.vesting_count(beneficiary) + 1) as u32;
        self.count_vesting(beneficiary).set_vesting_schedule(
            beneficiary,
            id,
            VestingSchedule {
                beneficiary,
                total_amount,
                released_amount: 0,
                start_ledger: self.ledger_sequence,
                cliff_ledgers,
                duration_ledgers,
                revocable,
                revoked: false,
            },
        ).set_last_vesting_creation_time(beneficiary, self.ledger_sequence)
    }

    /// What [`release_vested_tokens`] answers: the amount released.
    pub open spec fn release_check(self, beneficiary: Address, schedule_id: u32) -> Result<
        i128,
        BrazaError,
    > {
        match self.storage.schedule(beneficiary, schedule_id) {
            None => Err(BrazaError::VestingNotFound),
            Some(s) => {
                let releasable = releasable_amount(s, self.ledger_sequence);
                if releasable <= 0 {
                    Err(BrazaError::NoTokensToRelease)
                } else if s.released_amount + releasable > i128::MAX {
                    Err(BrazaError::InvalidAmount)
                } else {
                    Ok(releasable)
                }
            },
        }
    }

    /// The state after `amount` was released from a schedule.
    pub open spec fn schedule_released(self, beneficiary: Address, schedule_id: u32, amount: i128)
        -> EnvView {
        let s = self.storage.schedule(beneficiary, schedule_id).unwrap();
        self.set_vesting_schedule(
            beneficiary,
            schedule_id,
            VestingSchedule { released_amount: (s.released_amount + amount) as i128, ..s },
        )
    }

    /// What [`revoke_vesting_schedule`] answers: the amount that had not
    /// vested.
    pub open spec fn revoke_check(self, beneficiary: Address, schedule_id: u32) -> Result<
        i128,
        BrazaError,
    > {
        match self.storage.schedule(beneficiary, schedule_id) {
            None => Err(BrazaError::VestingNotFound),
            Some(s) => if !s.revocable {
                Err(BrazaError::NotRevocable)
            } else if s.revoked {
                Err(BrazaError::VestingNotFound)
            } else {
                Ok(unvested_amount(s, self.ledger_sequence))
            },
        }
    }

    /// The state after a schedule was revoked.
    pub open spec fn schedule_revoked(self, beneficiary: Address, schedule_id: u32) -> EnvView {
        let s = self.storage.schedule(beneficiary, schedule_id).unwrap();
        self.set_vesting_schedule(beneficiary, schedule_id, VestingSchedule { revoked: true, ..s })
    }
}

/// Rounding down divides a negative number as it divides the
/// non-negative number one below its negation.
proof fn lemma_floor_div_negative(num: int, d: int)
    requires
        num < 0,
        d > 0,
    ensures
        num / d == -((-(num + 1)) / d) - 1,
{
    let m = -(num + 1);
    let q = m / d;
    let r = m % d;
    vstd::arithmetic::div_mod::lemma_fundamental_div_mod(m, d);
    assert(m == d * q + r);
    assert(0 <= r < d) by {
        vstd::arithmetic::div_mod::lemma_mod_pos_bound(m, d);
    }
    assert(num == (-q - 1) * d + (d - r - 1)) by (nonlinear_arith)
        requires
            m == d * q + r,
            m == -(num + 1),
    ;
    vstd::arithmetic::div_mod::lemma_fundamental_div_mod_converse(num, d, -q - 1, d - r - 1);
}

/// `num` divided by `d`, rounded down.
fn floor_div(num: i128, d: i128) -> (q: i128)
    requires
        d > 0,
    ensures
        q == num / d,
{
    if num >= 0 {
        num / d
    } else {
        let m = -(num + 1);
        proof {
            lemma_floor_div_negative(num as int, d as int);
            vstd::arithmetic::div_mod::lemma_div_pos_is_pos(m as int, d as int);
            vstd::arithmetic::div_mod::lemma_div_is_ordered_by_denominator(m as int, 1, d as int);
            vstd::arithmetic::div_mod::lemma_div_basics(m as int);
        }
        -(m / d) - 1
    }
}

/// `a - b` where it fits an amount, else the nearest amount.
fn saturating_difference(a: i128, b: i128) -> (d: i128)
    ensures
        d == clamp_amount(a - b),
{
    match a.checked_sub(b) {
        Some(d) => d,
        None => if b < 0 {
            i128::MAX
        } else {
            i128::MIN
        },
    }
}

/// What has vested of `schedule` at the current tick.
pub fn calculate_vested_amount(env: &Env, schedule: &VestingSchedule) -> (v: i128)
    ensures
        v == vested_amount(*schedule, env@.ledger_sequence),
{
    if schedule.revoked {
        return schedule.released_amount;
    }
    let now = env.ledger_sequence;
    let elapsed = if now >= schedule.start_ledger {
        now - schedule.start_ledger
    } else {
        0
    };
    if elapsed < schedule.cliff_ledgers {
        return 0;
    }
    if elapsed >= schedule.duration_ledgers {
        return schedule.total_amount;
    }
    match schedule.total_amount.checked_mul(elapsed as i128) {
        Some(num) => floor_div(num, schedule.duration_ledgers as i128),
        None => 0,
    }
}

/// What can be released of `schedule` at the current tick.
pub fn calculate_releasable_amount(env: &Env, schedule: &VestingSchedule) -> (r: i128)
    ensures
        r == releasable_amount(*schedule, env@.ledger_sequence),
{
    let vested = calculate_vested_amount(env, schedule);
    let open = saturating_difference(vested, schedule.released_amount);
    if open < 0 {
        0
    } else {
        open
    }
}

/// Creates a schedule for `beneficiary` that starts at the current tick
/// and returns its id. Fails with `VestingCooldownActive` while the
/// cooldown of `beneficiary` runs, and where `beneficiary` or the ledger
/// as a whole has reached its cap of schedules. The funds are moved by
/// the caller.
pub fn create_vesting_schedule(
    env: &mut Env,
    beneficiary: Address,
    total_amount: i128,
    cliff_ledgers: u32,
    duration_ledgers: u32,
    revocable: bool,
) -> (r: Result<u32, BrazaError>)
    ensures
        r == old(env)@.schedule_creation_check(beneficiary),
        final(env)@ == (if r is Ok {
            old(env)@.schedule_created(
                beneficiary,
                total_amount,
                cliff_ledgers,
                duration_ledgers,
                revocable,
            )
        } else {
            old(env)@
        }),
{
    if !storage::is_vesting_cooldown_expired(env, beneficiary) {
        return Err(BrazaError::VestingCooldownActive);
    }
    let schedule_id = storage::increment_vesting_count(env, beneficiary)?;
    let start_ledger = env.ledger_sequence;
    let schedule = VestingSchedule {
        beneficiary,
        total_amount,
        released_amount: 0,
        start_ledger,
        cliff_ledgers,
        duration_ledgers,
        revocable,
        revoked: false,
    };
    storage::set_vesting_schedule(env, beneficiary, schedule_id, &schedule);
    storage::set_last_vesting_creation_time(env, beneficiary, start_ledger);
    Ok(schedule_id)
}

/// Marks what can be released of a schedule at the current tick as
/// released and returns that amount. Fails with `VestingNotFound` where
/// the schedule does not exist, with `NoTokensToRelease` where nothing
/// can be released, and with `InvalidAmount` where the released amount
/// would not fit. The funds are moved by the caller.
pub fn release_vested_tokens(env: &mut Env, beneficiary: Address, schedule_id: u32) -> (r: Result<
    i128,
    BrazaError,
>)
    ensures
        r == old(env)@.release_check(beneficiary, schedule_id),
        final(env)@ == (match r {
            Ok(amount) => old(env)@.schedule_released(beneficiary, schedule_id, amount),
            Err(_) => old(env)@,
        }),
{
    let mut schedule = match storage::get_vesting_schedule(env, beneficiary, schedule_id) {
        Some(s) => s,
        None => {
            return Err(BrazaError::VestingNotFound);
        },
    };
    let releasable = calculate_releasable_amount(env, &schedule);
    if releasable <= 0 {
        return Err(BrazaError::NoTokensToRelease);
    }
    let released = match schedule.released_amount.checked_add(releasable) {
        Some(v) => v,
        None => {
            return Err(BrazaError::InvalidAmount);
        },
    };
    schedule.released_amount = released;
    storage::set_vesting_schedule(env, beneficiary, schedule_id, &schedule);
    Ok(releasable)
}

/// Revokes a schedule and returns what had not vested of it at the
/// current tick. Fails with `VestingNotFound` where the schedule does
/// not exist or is revoked already, and with `NotRevocable` where it is
/// not revocable. The funds are moved by the caller.
pub fn revoke_vesting_schedule(env: &mut Env, beneficiary: Address, schedule_id: u32) -> (r:
    Result<i128, BrazaError>)
    ensures
        r == old(env)@.revoke_check(beneficiary, schedule_id),
        final(env)@ == (if r is Ok {
            old(env)@.schedule_revoked(beneficiary, schedule_id)
        } else {
            old(env)@
        }),
{
    let mut schedule = match storage::get_vesting_schedule(env, beneficiary, schedule_id) {
        Some(s) => s,
        None => {
            return Err(BrazaError::VestingNotFound);
        },
    };
    if !schedule.revocable {
        return Err(BrazaError::NotRevocable);
    }
    if schedule.revoked {
        return Err(BrazaError::VestingNotFound);
    }
    let vested = calculate_vested_amount(env, &schedule);
    let unvested = saturating_difference(schedule.total_amount, vested);
    schedule.revoked = true;
    storage::set_vesting_schedule(env, beneficiary, schedule_id, &schedule);
    Ok(unvested)
}

} // verus!
