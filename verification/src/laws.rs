//! What holds of the ledger as a whole, proved from the model of its
//! entry points.

use vstd::prelude::*;
use crate::env::EnvView;
use crate::model::timelock_closed;
use crate::storage::{
    elapsed_since, vesting_key, StorageView, BURN_TIMELOCK_TICKS, MAX_SUPPLY,
    MINT_TIMELOCK_TICKS,
};
use crate::supply::{
    balance_of, balances_non_negative, lemma_sum_bounds, lemma_sum_empty, lemma_sum_insert,
    lemma_sum_values_bounds, lemma_sum_values_insert, sum_balances, values_non_negative,
};
use crate::types::{Address, BrazaError, TokenMetadata, VestingSchedule};
use crate::vesting::{
    held_amount, held_amounts, outstanding_grants, releasable_amount, schedule_valid,
    vested_amount,
};

verus! {

/// Writing a balance that is not negative keeps the map of balances
/// finite and free of negative entries, and moves the sum of the
/// balances by the difference to what was held.
pub proof fn lemma_balance_written(s: StorageView, who: Address, v: i128)
    requires
        s.balances.dom().finite(),
        balances_non_negative(s.balances),
        v >= 0,
    ensures
        s.balances.insert(who, v).dom().finite(),
        balances_non_negative(s.balances.insert(who, v)),
        sum_balances(s.balances.insert(who, v)) == sum_balances(s.balances) - s.balance(who) + v,
        0 <= sum_balances(s.balances.insert(who, v)),
        forall|other: Address|
            other != who ==> balance_of(s.balances.insert(who, v), other) == s.balance(other),
{
    lemma_sum_insert(s.balances, who, v);
    let m = s.balances.insert(who, v);
    assert(balances_non_negative(m)) by {
        assert forall|k: Address| #[trigger] m.dom().contains(k) implies m[k] >= 0 by {
            if k != who {
                assert(s.balances.dom().contains(k));
            }
        }
    }
    lemma_sum_bounds(m, who);
}

/// In a well-formed state nobody holds a negative balance, nobody holds
/// more than the circulating supply, and no allowance is negative.
pub proof fn lemma_no_negative_holdings(s: StorageView, who: Address, spender: Address)
    requires
        s.wf(),
    ensures
        0 <= s.balance(who) <= s.total_supply - s.locked_balance,
        0 <= s.allowance(who, spender),
{
    lemma_sum_bounds(s.balances, who);
}

/// In a well-formed state the balances and the locked balance make up
/// the total supply, and so do the circulating supply and the locked
/// balance; where nothing is locked, the balances alone make up the total
/// supply.
pub proof fn lemma_conservation(s: StorageView)
    requires
        s.wf(),
    ensures
        s.total_supply == sum_balances(s.balances) + s.locked_balance,
        s.circulating_supply() + s.locked_balance == s.total_supply,
        s.locked_balance == 0 ==> s.total_supply == sum_balances(s.balances),
{
}

/// Initialization of an empty ledger gives a well-formed state.
pub proof fn lemma_initialize_well_formed(env: EnvView, admin: Address, metadata: TokenMetadata)
    requires
        env.storage == StorageView::empty(),
    ensures
        env.initialize_check() is Ok,
        env.initialized(admin, metadata).storage.wf(),
{
    lemma_sum_empty();
    lemma_sum_insert(Map::<Address, i128>::empty(), admin, crate::storage::INITIAL_SUPPLY);
    let m = Map::<Address, i128>::empty().insert(admin, crate::storage::INITIAL_SUPPLY);
    assert(balances_non_negative(m));
}

/// A transfer keeps the state well-formed and the total supply as it
/// was.
pub proof fn lemma_transfer_conserves(env: EnvView, from: Address, to: Address, amount: i128)
    requires
        env.storage.wf(),
        env.transfer_check(from, to, amount) is Ok,
    ensures
        env.transfer_effect(from, to, amount).storage.wf(),
        env.transfer_effect(from, to, amount).storage.total_supply == env.storage.total_supply,
        env.transfer_effect(from, to, amount).storage.locked_balance
            == env.storage.locked_balance,
{
    lemma_moved_well_formed(env, from, to, amount);
}

/// Moving an amount that the payer holds keeps the state well-formed.
pub proof fn lemma_moved_well_formed(env: EnvView, from: Address, to: Address, amount: i128)
    requires
        env.storage.wf(),
        amount > 0,
        env.storage.balance(from) >= amount,
        from != to ==> env.storage.balance(to) + amount <= i128::MAX,
    ensures
        env.move_balance(from, to, amount).storage.wf(),
        env.move_balance(from, to, amount).storage.total_supply == env.storage.total_supply,
        env.move_balance(from, to, amount).storage.locked_balance == env.storage.locked_balance,
        env.move_balance(from, to, amount).storage.allowances == env.storage.allowances,
{
    if from != to {
        let s0 = env.storage;
        lemma_sum_bounds(s0.balances, to);
        let v_from = (s0.balance(from) - amount) as i128;
        lemma_balance_written(s0, from, v_from);
        let s1 = env.set_balance(from, v_from).storage;
        let v_to = (s0.balance(to) + amount) as i128;
        assert(s1.balance(to) == s0.balance(to));
        lemma_balance_written(s1, to, v_to);
    }
}

/// A transfer on an allowance keeps the state well-formed and the total
/// supply as it was.
pub proof fn lemma_transfer_from_conserves(
    env: EnvView,
    spender: Address,
    from: Address,
    to: Address,
    amount: i128,
)
    requires
        env.storage.wf(),
        env.transfer_from_check(spender, from, to, amount) is Ok,
    ensures
        env.transfer_from_effect(spender, from, to, amount).storage.wf(),
        env.transfer_from_effect(spender, from, to, amount).storage.total_supply
            == env.storage.total_supply,
        env.transfer_from_effect(spender, from, to, amount).storage.locked_balance
            == env.storage.locked_balance,
{
    let remaining = (env.storage.allowance(from, spender) - amount) as i128;
    let drawn = env.set_allowance(from, spender, remaining);
    assert(drawn.storage.wf());
    lemma_moved_well_formed(drawn, from, to, amount);
}

/// Every change of an allowance that passes its checks keeps the state
/// well-formed.
pub proof fn lemma_allowance_changes_keep_well_formed(
    env: EnvView,
    from: Address,
    spender: Address,
    amount: i128,
)
    requires
        env.storage.wf(),
    ensures
        env.approve_check(from, spender, amount) is Ok ==> env.approve_effect(
            from,
            spender,
            amount,
        ).storage.wf(),
        env.increase_allowance_check(from, spender, amount) is Ok ==> env.allowance_changed(
            from,
            spender,
            (env.storage.allowance(from, spender) + amount) as i128,
        ).storage.wf(),
        env.decrease_allowance_check(from, spender, amount) is Ok ==> env.allowance_changed(
            from,
            spender,
            (env.storage.allowance(from, spender) - amount) as i128,
        ).storage.wf(),
{
}

/// An issuance keeps the state well-formed and raises the total supply
/// by the amount issued.
pub proof fn lemma_mint_conserves(env: EnvView, to: Address, amount: i128)
    requires
        env.storage.wf(),
        env.mint_check(to, amount) is Ok,
    ensures
        env.mint_outcome(to, amount).storage.wf(),
        env.mint_outcome(to, amount).storage.total_supply == env.storage.total_supply + amount,
{
    lemma_sum_bounds(env.storage.balances, to);
    lemma_balance_written(env.storage, to, (env.storage.balance(to) + amount) as i128);
}

/// A destruction keeps the state well-formed and lowers the total supply
/// by the amount destroyed.
pub proof fn lemma_burn_conserves(env: EnvView, from: Address, amount: i128)
    requires
        env.storage.wf(),
        env.burn_check(from, amount) is Ok,
    ensures
        env.burn_outcome(from, amount).storage.wf(),
        env.burn_outcome(from, amount).storage.total_supply == env.storage.total_supply - amount,
{
    lemma_balance_written(env.storage, from, (env.storage.balance(from) - amount) as i128);
}

/// A call of `mint` or `burn` that fails leaves the durable state as it
/// was.
pub proof fn lemma_failed_issuance_changes_nothing(env: EnvView, who: Address, amount: i128)
    ensures
        env.mint_check(who, amount) is Err ==> env.mint_outcome(who, amount).storage
            == env.storage,
        env.burn_check(who, amount) is Err ==> env.burn_outcome(who, amount).storage
            == env.storage,
{
}

/// Creating a grant keeps the state well-formed and the total supply as
/// it was: what the administrator gives up is locked.
pub proof fn lemma_create_vesting_conserves(
    env: EnvView,
    beneficiary: Address,
    total_amount: i128,
    cliff_ledgers: u32,
    duration_ledgers: u32,
    revocable: bool,
)
    requires
        env.storage.wf(),
        env.create_vesting_check(beneficiary, total_amount, cliff_ledgers, duration_ledgers)
            is Ok,
    ensures
        env.create_vesting_effect(
            beneficiary,
            total_amount,
            cliff_ledgers,
            duration_ledgers,
            revocable,
        ).storage.wf(),
        env.create_vesting_effect(
            beneficiary,
            total_amount,
            cliff_ledgers,
            duration_ledgers,
            revocable,
        ).storage.total_supply == env.storage.total_supply,
        env.create_vesting_effect(
            beneficiary,
            total_amount,
            cliff_ledgers,
            duration_ledgers,
            revocable,
        ).storage.locked_balance == env.storage.locked_balance + total_amount,
{
    let admin = env.storage.admin.unwrap();
    lemma_balance_written(env.storage, admin, (env.storage.balance(admin) - total_amount) as i128);
}

/// The share `e / d` of a total that is not negative, rounded down, lies
/// between zero and the total, for `0 <= e <= d` and `d` not zero.
pub proof fn lemma_share_within_total(t: int, e: int, d: int)
    requires
        0 <= t,
        0 <= e <= d,
        0 < d,
    ensures
        0 <= t * e <= t * d,
        0 <= (t * e) / d <= t,
{
    assert(0 <= t * e <= t * d) by (nonlinear_arith)
        requires
            0 <= t,
            0 <= e <= d,
    ;
    assert(t * d == d * t) by (nonlinear_arith);
    vstd::arithmetic::div_mod::lemma_div_pos_is_pos(t * e, d);
    vstd::arithmetic::div_mod::lemma_div_is_ordered(t * e, t * d, d);
    vstd::arithmetic::div_mod::lemma_div_multiples_vanish(t, d);
}

/// What has vested of a valid schedule lies between zero and its total,
/// and what was released together with what can be released never
/// exceeds the total.
pub proof fn lemma_vested_within_total(s: VestingSchedule, now: u32)
    requires
        schedule_valid(s),
    ensures
        0 <= vested_amount(s, now) <= s.total_amount,
        0 <= releasable_amount(s, now),
        s.released_amount + releasable_amount(s, now) <= s.total_amount,
{
    let e = elapsed_since(now, s.start_ledger) as int;
    let d = s.duration_ledgers as int;
    let t = s.total_amount as int;
    if !s.revoked && e >= s.cliff_ledgers && e < d {
        lemma_share_within_total(t, e, d);
        assert(0 <= (t * e) / d <= t);
        assert(s.total_amount * elapsed_since(now, s.start_ledger) == t * e);
    }
}

/// A release keeps the state well-formed and the total supply as it
/// was: what the beneficiary receives leaves the locked balance.
pub proof fn lemma_release_conserves(env: EnvView, beneficiary: Address, schedule_id: u32)
    requires
        env.storage.wf(),
        env.release_vested_check(beneficiary, schedule_id) is Ok,
    ensures
        ({
            let amount = env.release_vested_check(beneficiary, schedule_id).unwrap();
            let after = env.release_vested_effect(beneficiary, schedule_id, amount).storage;
            &&& after.wf()
            &&& after.total_supply == env.storage.total_supply
            &&& after.locked_balance == env.storage.locked_balance - amount
            &&& after.balance(beneficiary) == env.storage.balance(beneficiary) + amount
        }),
{
    let amount = env.release_vested_check(beneficiary, schedule_id).unwrap();
    let marked = env.schedule_released(beneficiary, schedule_id, amount);
    let before = env.storage.schedule(beneficiary, schedule_id).unwrap();
    assert(env.storage.vestings.dom().contains(
        crate::storage::vesting_key(beneficiary, schedule_id),
    ));
    lemma_vested_within_total(before, env.ledger_sequence);
    assert(marked.storage.schedules_valid());
    lemma_sum_bounds(env.storage.balances, beneficiary);
    lemma_balance_written(
        marked.storage,
        beneficiary,
        (env.storage.balance(beneficiary) + amount) as i128,
    );
}

/// A revocation keeps the state well-formed and the total supply as it
/// was: what the administrator gets back leaves the locked balance.
pub proof fn lemma_revoke_conserves(env: EnvView, beneficiary: Address, schedule_id: u32)
    requires
        env.storage.wf(),
        env.revoke_vesting_check(beneficiary, schedule_id) is Ok,
    ensures
        ({
            let unvested = env.revoke_vesting_check(beneficiary, schedule_id).unwrap();
            let after = env.revoke_vesting_effect(beneficiary, schedule_id, unvested).storage;
            &&& after.wf()
            &&& after.total_supply == env.storage.total_supply
            &&& after.locked_balance == env.storage.locked_balance - unvested
        }),
{
    let unvested = env.revoke_vesting_check(beneficiary, schedule_id).unwrap();
    let admin = env.storage.admin.unwrap();
    let marked = env.schedule_revoked(beneficiary, schedule_id);
    lemma_sum_bounds(env.storage.balances, admin);
    lemma_balance_written(marked.storage, admin, (env.storage.balance(admin) + unvested) as i128);
}

/// The administrator's overriding operations keep the state well-formed.
pub proof fn lemma_forced_operations_conserve(
    env: EnvView,
    from: Address,
    to: Address,
    amount: i128,
)
    requires
        env.storage.wf(),
    ensures
        env.force_transfer_rules(from, to, amount) is Ok ==> {
            &&& env.force_transfer_effect(from, to, amount).storage.wf()
            &&& env.force_transfer_effect(from, to, amount).storage.total_supply
                == env.storage.total_supply
        },
        env.force_burn_rules(from, amount) is Ok ==> {
            &&& env.force_burn_effect(from, amount).storage.wf()
            &&& env.force_burn_effect(from, amount).storage.total_supply
                == env.storage.total_supply - amount
        },
{
    if env.force_transfer_rules(from, to, amount) is Ok {
        lemma_moved_well_formed(env, from, to, amount);
    }
    if env.force_burn_rules(from, amount) is Ok {
        lemma_balance_written(env.storage, from, (env.storage.balance(from) - amount) as i128);
    }
}

/// What has vested of a schedule that is not revoked never falls as time
/// goes on, for a total that is not negative and whose product with the
/// duration fits an amount.
pub proof fn lemma_vested_monotonic(s: VestingSchedule, now1: u32, now2: u32)
    requires
        !s.revoked,
        now1 <= now2,
        0 <= s.total_amount,
        s.total_amount * s.duration_ledgers <= i128::MAX,
    ensures
        0 <= vested_amount(s, now1) <= vested_amount(s, now2) <= s.total_amount,
{
    lemma_vested_bounds(s, now1);
    lemma_vested_bounds(s, now2);
    let e1 = elapsed_since(now1, s.start_ledger) as int;
    let e2 = elapsed_since(now2, s.start_ledger) as int;
    let d = s.duration_ledgers as int;
    let t = s.total_amount as int;
    if e1 >= s.cliff_ledgers && e2 < d {
        assert(t * e1 <= t * e2) by (nonlinear_arith)
            requires
                0 <= t,
                0 <= e1 <= e2,
        ;
        assert(0 <= t * e1) by (nonlinear_arith)
            requires
                0 <= t,
                0 <= e1,
        ;
        assert(t * e2 <= t * d) by (nonlinear_arith)
            requires
                0 <= t,
                0 <= e2 <= d,
        ;
        vstd::arithmetic::div_mod::lemma_div_is_ordered(t * e1, t * e2, d);
    }
}

/// What has vested of a schedule that is not revoked lies between zero
/// and the total, for a total that is not negative and whose product with
/// the duration fits an amount.
pub proof fn lemma_vested_bounds(s: VestingSchedule, now: u32)
    requires
        !s.revoked,
        0 <= s.total_amount,
        s.total_amount * s.duration_ledgers <= i128::MAX,
    ensures
        0 <= vested_amount(s, now) <= s.total_amount,
        elapsed_since(now, s.start_ledger) >= s.cliff_ledgers && elapsed_since(
            now,
            s.start_ledger,
        ) < s.duration_ledgers ==> vested_amount(s, now) == (s.total_amount * elapsed_since(
            now,
            s.start_ledger,
        )) / (s.duration_ledgers as int),
{
    let e = elapsed_since(now, s.start_ledger) as int;
    let d = s.duration_ledgers as int;
    let t = s.total_amount as int;
    if e >= s.cliff_ledgers && e < d {
        lemma_share_within_total(t, e, d);
        assert((t * e) / d <= t);
        assert(s.total_amount * elapsed_since(now, s.start_ledger) == t * e);
    }
}

/// Once the duration has passed, all of a valid schedule that is not
/// revoked has vested.
pub proof fn lemma_fully_vested_after_duration(s: VestingSchedule, now: u32)
    requires
        !s.revoked,
        schedule_valid(s),
        now >= s.start_ledger + s.duration_ledgers,
    ensures
        vested_amount(s, now) == s.total_amount,
{
}

/// Before the cliff, nothing has vested of a valid schedule that is not
/// revoked, and nothing can be released of it.
pub proof fn lemma_nothing_vested_before_cliff(s: VestingSchedule, now: u32)
    requires
        !s.revoked,
        schedule_valid(s),
        now < s.start_ledger + s.cliff_ledgers,
    ensures
        vested_amount(s, now) == 0,
        releasable_amount(s, now) == 0,
{
    let e = elapsed_since(now, s.start_ledger) as int;
    if e >= s.cliff_ledgers {
        assert(e == 0 && s.cliff_ledgers == 0);
        assert(s.total_amount * e == 0) by (nonlinear_arith)
            requires
                e == 0,
        ;
        assert(0int / (s.duration_ledgers as int) == 0);
    }
}

/// Nothing can be released of a revoked schedule, at any tick.
pub proof fn lemma_revoked_releases_nothing(s: VestingSchedule, now: u32)
    requires
        s.revoked,
    ensures
        vested_amount(s, now) == s.released_amount,
        releasable_amount(s, now) == 0,
{
}

/// A revocation freezes its schedule: in the state it leaves, the
/// schedule is marked revoked, what was released of it is as before, and
/// nothing can be released of it at any later tick; a release then fails
/// with `NoTokensToRelease`.
pub proof fn lemma_revocation_freezes(
    env: EnvView,
    beneficiary: Address,
    schedule_id: u32,
    later: EnvView,
)
    requires
        env.revoke_vesting_check(beneficiary, schedule_id) is Ok,
        later.storage == env.revoke_vesting_effect(
            beneficiary,
            schedule_id,
            env.revoke_vesting_check(beneficiary, schedule_id).unwrap(),
        ).storage,
    ensures
        later.storage.schedule(beneficiary, schedule_id) is Some,
        later.storage.schedule(beneficiary, schedule_id).unwrap().revoked,
        later.storage.schedule(beneficiary, schedule_id).unwrap().released_amount
            == env.storage.schedule(beneficiary, schedule_id).unwrap().released_amount,
        releasable_amount(
            later.storage.schedule(beneficiary, schedule_id).unwrap(),
            later.ledger_sequence,
        ) == 0,
        later.release_check(beneficiary, schedule_id) == Err::<i128, BrazaError>(
            BrazaError::NoTokensToRelease,
        ),
{
}

/// After an issuance, every further issuance that the administrator
/// authorizes before the timelock has run out fails with
/// `TimelockNotExpired`, whatever its recipient and amount, and leaves the
/// durable state, the total supply with it, as it was.
pub proof fn lemma_second_mint_rejected(
    env: EnvView,
    to: Address,
    amount: i128,
    next: EnvView,
    next_to: Address,
    next_amount: i128,
)
    requires
        env.mint_check(to, amount) is Ok,
        next.storage == env.mint_outcome(to, amount).storage,
        next.admin_authorized(),
        next.ledger_sequence - env.ledger_sequence < MINT_TIMELOCK_TICKS,
    ensures
        next.mint_check(next_to, next_amount) == Err::<(), BrazaError>(
            BrazaError::TimelockNotExpired,
        ),
        next.mint_outcome(next_to, next_amount).storage == next.storage,
        next.mint_outcome(next_to, next_amount).storage.total_supply == env.storage.total_supply
            + amount,
{
}

/// The two timelocks are independent: an issuance does not touch the
/// clock of destruction, and a destruction does not touch the clock of
/// issuance.
pub proof fn lemma_timelocks_independent(env: EnvView, who: Address, amount: i128)
    ensures
        env.mint_outcome(who, amount).storage.last_burn_time == env.storage.last_burn_time,
        env.burn_outcome(who, amount).storage.last_mint_time == env.storage.last_mint_time,
{
}

/// An operation that moves funds or changes an allowance.
pub enum Operation {
    Transfer { from: Address, to: Address, amount: i128 },
    TransferFrom { spender: Address, from: Address, to: Address, amount: i128 },
    Approve { from: Address, spender: Address, amount: i128 },
    IncreaseAllowance { from: Address, spender: Address, delta: i128 },
    DecreaseAllowance { from: Address, spender: Address, delta: i128 },
    Mint { to: Address, amount: i128 },
    Burn { from: Address, amount: i128 },
    CreateVesting {
        beneficiary: Address,
        total_amount: i128,
        cliff_ledgers: u32,
        duration_ledgers: u32,
        revocable: bool,
    },
    ReleaseVested { beneficiary: Address, schedule_id: u32 },
    RevokeVesting { beneficiary: Address, schedule_id: u32 },
    ForceTransfer { from: Address, to: Address, amount: i128 },
    ForceBurn { from: Address, amount: i128 },
}

/// One call as a host makes it: the tick, the principals that authorized
/// it, and the operation.
pub struct Call {
    pub now: u32,
    pub authorized: Set<Address>,
    pub operation: Operation,
}

impl EnvView {
    /// The world after the entry point for `operation` has run.
    pub open spec fn perform(self, operation: Operation) -> EnvView {
        match operation {
            Operation::Transfer { from, to, amount } => if self.transfer_check(from, to, amount)
                is Ok {
                self.transfer_effect(from, to, amount)
            } else {
                self
            },
            Operation::TransferFrom { spender, from, to, amount } => if self.transfer_from_check(
                spender,
                from,
                to,
                amount,
            ) is Ok {
                self.transfer_from_effect(spender, from, to, amount)
            } else {
                self
            },
            Operation::Approve { from, spender, amount } => if self.approve_check(
                from,
                spender,
                amount,
            ) is Ok {
                self.approve_effect(from, spender, amount)
            } else {
                self
            },
            Operation::IncreaseAllowance { from, spender, delta } => {
                if self.increase_allowance_check(from, spender, delta) is Ok {
                    self.allowance_changed(
                        from,
                        spender,
                        (self.storage.allowance(from, spender) + delta) as i128,
                    )
                } else {
                    self
                }
            },
            Operation::DecreaseAllowance { from, spender, delta } => {
                if self.decrease_allowance_check(from, spender, delta) is Ok {
                    self.allowance_changed(
                        from,
                        spender,
                        (self.storage.allowance(from, spender) - delta) as i128,
                    )
                } else {
                    self
                }
            },
            Operation::Mint { to, amount } => self.mint_outcome(to, amount),
            Operation::Burn { from, amount } => self.burn_outcome(from, amount),
            Operation::CreateVesting {
                beneficiary,
                total_amount,
                cliff_ledgers,
                duration_ledgers,
                revocable,
            } => if self.create_vesting_check(
                beneficiary,
                total_amount,
                cliff_ledgers,
                duration_ledgers,
            ) is Ok {
                self.create_vesting_effect(
                    beneficiary,
                    total_amount,
                    cliff_ledgers,
                    duration_ledgers,
                    revocable,
                )
            } else {
                self
            },
            Operation::ReleaseVested { beneficiary, schedule_id } => {
                match self.release_vested_check(beneficiary, schedule_id) {
                    Ok(amount) => self.release_vested_effect(beneficiary, schedule_id, amount),
                    Err(_) => self,
                }
            },
            Operation::RevokeVesting { beneficiary, schedule_id } => {
                match self.revoke_vesting_check(beneficiary, schedule_id) {
                    Ok(unvested) => self.revoke_vesting_effect(beneficiary, schedule_id, unvested),
                    Err(_) => self,
                }
            },
            Operation::ForceTransfer { from, to, amount } => if self.guarded(
                self.force_transfer_rules(from, to, amount),
            ) is Ok {
                self.force_transfer_effect(from, to, amount)
            } else {
                self
            },
            Operation::ForceBurn { from, amount } => if self.guarded(
                self.force_burn_rules(from, amount),
            ) is Ok {
                self.force_burn_effect(from, amount)
            } else {
                self
            },
        }
    }

    /// The world after a host has made `call`.
    pub open spec fn receive(self, call: Call) -> EnvView {
        (EnvView {
            ledger_sequence: call.now,
            authorized: call.authorized,
            ..self
        }).perform(call.operation)
    }

    /// The world after a host has made `calls`, one after the other.
    pub open spec fn run(self, calls: Seq<Call>) -> EnvView
        decreases calls.len(),
    {
        if calls.len() == 0 {
            self
        } else {
            self.run(calls.drop_last()).receive(calls.last())
        }
    }
}

/// One operation, whether it succeeds or fails, keeps the state
/// well-formed.
pub proof fn lemma_operation_conserves(env: EnvView, operation: Operation)
    requires
        env.storage.wf(),
    ensures
        env.perform(operation).storage.wf(),
{
    match operation {
        Operation::Transfer { from, to, amount } => {
            if env.transfer_check(from, to, amount) is Ok {
                lemma_transfer_conserves(env, from, to, amount);
            }
        },
        Operation::TransferFrom { spender, from, to, amount } => {
            if env.transfer_from_check(spender, from, to, amount) is Ok {
                lemma_transfer_from_conserves(env, spender, from, to, amount);
            }
        },
        Operation::Approve { from, spender, amount } => {
            lemma_allowance_changes_keep_well_formed(env, from, spender, amount);
        },
        Operation::IncreaseAllowance { from, spender, delta } => {
            lemma_allowance_changes_keep_well_formed(env, from, spender, delta);
        },
        Operation::DecreaseAllowance { from, spender, delta } => {
            lemma_allowance_changes_keep_well_formed(env, from, spender, delta);
        },
        Operation::Mint { to, amount } => {
            if env.mint_check(to, amount) is Ok {
                lemma_mint_conserves(env, to, amount);
            }
        },
        Operation::Burn { from, amount } => {
            if env.burn_check(from, amount) is Ok {
                lemma_burn_conserves(env, from, amount);
            }
        },
        Operation::CreateVesting {
            beneficiary,
            total_amount,
            cliff_ledgers,
            duration_ledgers,
            revocable,
        } => {
            if env.create_vesting_check(beneficiary, total_amount, cliff_ledgers, duration_ledgers)
                is Ok {
                lemma_create_vesting_conserves(
                    env,
                    beneficiary,
                    total_amount,
                    cliff_ledgers,
                    duration_ledgers,
                    revocable,
                );
            }
        },
        Operation::ReleaseVested { beneficiary, schedule_id } => {
            if env.release_vested_check(beneficiary, schedule_id) is Ok {
                lemma_release_conserves(env, beneficiary, schedule_id);
            }
        },
        Operation::RevokeVesting { beneficiary, schedule_id } => {
            if env.revoke_vesting_check(beneficiary, schedule_id) is Ok {
                lemma_revoke_conserves(env, beneficiary, schedule_id);
            }
        },
        Operation::ForceTransfer { from, to, amount } => {
            lemma_forced_operations_conserve(env, from, to, amount);
        },
        Operation::ForceBurn { from, amount } => {
            lemma_forced_operations_conserve(env, from, from, amount);
        },
    }
}

/// Conservation: after any sequence of calls on a well-formed state, the
/// state is well-formed again. Every schedule is valid, the balances and
/// the locked balance make up the total supply, the circulating supply
/// and the locked balance make up the total supply, and no balance and no
/// allowance is negative.
pub proof fn lemma_run_conserves(env: EnvView, calls: Seq<Call>)
    requires
        env.storage.wf(),
    ensures
        env.run(calls).storage.wf(),
        env.run(calls).storage.schedules_valid(),
        env.run(calls).storage.total_supply == sum_balances(env.run(calls).storage.balances)
            + env.run(calls).storage.locked_balance,
        env.run(calls).storage.circulating_supply() + env.run(calls).storage.locked_balance
            == env.run(calls).storage.total_supply,
        forall|who: Address| 0 <= #[trigger] env.run(calls).storage.balance(who),
        forall|owner: Address, spender: Address|
            0 <= #[trigger] env.run(calls).storage.allowance(owner, spender),
    decreases calls.len(),
{
    if calls.len() > 0 {
        lemma_run_conserves(env, calls.drop_last());
        let before = env.run(calls.drop_last());
        let call = calls.last();
        let entered = EnvView {
            ledger_sequence: call.now,
            authorized: call.authorized,
            ..before
        };
        lemma_operation_conserves(entered, call.operation);
    }
    let after = env.run(calls).storage;
    assert forall|who: Address| 0 <= #[trigger] after.balance(who) by {
        lemma_no_negative_holdings(after, who, who);
    }
    assert forall|owner: Address, spender: Address| 0 <= #[trigger] after.allowance(
        owner,
        spender,
    ) by {
        lemma_no_negative_holdings(after, owner, spender);
    }
}

/// While a call is in progress, every operation is rejected and changes
/// nothing at all.
pub proof fn lemma_locked_ledger_rejects(env: EnvView, operation: Operation)
    requires
        env.storage.reentrancy_locked,
    ensures
        env.perform(operation) == env,
{
}

/// No operation leaves the guard set: after it, the flag is as it was
/// before, whether the operation succeeded or failed.
pub proof fn lemma_guard_is_released(env: EnvView, operation: Operation)
    ensures
        env.perform(operation).storage.reentrancy_locked == env.storage.reentrancy_locked,
{
}

/// The schedule that a successful call of `create_vesting` stores is
/// valid, starts at the current tick with nothing released, and is not
/// revoked.
pub proof fn lemma_created_schedule_valid(
    env: EnvView,
    beneficiary: Address,
    total_amount: i128,
    cliff_ledgers: u32,
    duration_ledgers: u32,
    revocable: bool,
)
    requires
        env.create_vesting_check(beneficiary, total_amount, cliff_ledgers, duration_ledgers)
            is Ok,
    ensures
        ({
            let id = env.create_vesting_check(
                beneficiary,
                total_amount,
                cliff_ledgers,
                duration_ledgers,
            ).unwrap();
            let after = env.create_vesting_effect(
                beneficiary,
                total_amount,
                cliff_ledgers,
                duration_ledgers,
                revocable,
            );
            &&& id == env.storage.vesting_count(beneficiary) + 1
            &&& after.storage.vesting_count(beneficiary) == id
            &&& after.storage.schedule(beneficiary, id) == Some(
                VestingSchedule {
                    beneficiary,
                    total_amount,
                    released_amount: 0,
                    start_ledger: env.ledger_sequence,
                    cliff_ledgers,
                    duration_ledgers,
                    revocable,
                    revoked: false,
                },
            )
            &&& schedule_valid(after.storage.schedule(beneficiary, id).unwrap())
        }),
{
}

/// A release keeps a valid schedule valid: afterwards exactly what has
/// vested at the current tick is marked as released.
pub proof fn lemma_release_keeps_schedule_valid(
    env: EnvView,
    beneficiary: Address,
    schedule_id: u32,
)
    requires
        env.release_vested_check(beneficiary, schedule_id) is Ok,
        schedule_valid(env.storage.schedule(beneficiary, schedule_id).unwrap()),
    ensures
        ({
            let before = env.storage.schedule(beneficiary, schedule_id).unwrap();
            let amount = env.release_vested_check(beneficiary, schedule_id).unwrap();
            let after = env.release_vested_effect(
                beneficiary,
                schedule_id,
                amount,
            ).storage.schedule(beneficiary, schedule_id);
            &&& after is Some
            &&& schedule_valid(after.unwrap())
            &&& amount == vested_amount(before, env.ledger_sequence) - before.released_amount
            &&& after.unwrap().released_amount == vested_amount(before, env.ledger_sequence)
            &&& releasable_amount(after.unwrap(), env.ledger_sequence) == 0
        }),
{
    let before = env.storage.schedule(beneficiary, schedule_id).unwrap();
    lemma_vested_within_total(before, env.ledger_sequence);
    let amount = env.release_vested_check(beneficiary, schedule_id).unwrap();
    let after = VestingSchedule {
        released_amount: (before.released_amount + amount) as i128,
        ..before
    };
    assert(vested_amount(after, env.ledger_sequence) == vested_amount(
        before,
        env.ledger_sequence,
    ));
}

/// A transfer moves exactly `amount` from one principal to the other
/// and leaves every third principal's balance as it was.
pub proof fn lemma_transfer_moves_amount(
    env: EnvView,
    from: Address,
    to: Address,
    amount: i128,
    other: Address,
)
    requires
        env.transfer_check(from, to, amount) is Ok,
    ensures
        ({
            let after = env.transfer_effect(from, to, amount).storage;
            &&& from != to ==> after.balance(from) == env.storage.balance(from) - amount
            &&& from != to ==> after.balance(to) == env.storage.balance(to) + amount
            &&& from == to ==> after == env.storage
            &&& other != from && other != to ==> after.balance(other) == env.storage.balance(
                other,
            )
        }),
{
}

/// A successful transfer counts towards the day's volume of the payer,
/// which stays within the payer's daily cap.
pub proof fn lemma_transfer_respects_daily_cap(
    env: EnvView,
    from: Address,
    to: Address,
    amount: i128,
)
    requires
        env.transfer_check(from, to, amount) is Ok,
        from != to,
    ensures
        ({
            let after = env.transfer_effect(from, to, amount);
            &&& after.daily_volume(from) == env.daily_volume(from) + amount
            &&& after.daily_volume(from) <= env.daily_limit(from)
            &&& after.daily_limit(from) == env.daily_limit(from)
        }),
{
}

/// A transfer on an allowance lowers that allowance by exactly `amount`,
/// which it never exceeds.
pub proof fn lemma_transfer_from_draws_allowance(
    env: EnvView,
    spender: Address,
    from: Address,
    to: Address,
    amount: i128,
)
    requires
        env.transfer_from_check(spender, from, to, amount) is Ok,
    ensures
        amount <= env.storage.allowance(from, spender),
        env.transfer_from_effect(spender, from, to, amount).storage.allowance(from, spender)
            == env.storage.allowance(from, spender) - amount,
{
}

/// A principal on the blacklist can neither pay nor be paid: every
/// transfer that involves it, that the payer authorized, that finds the
/// ledger neither busy nor paused and that moves a positive amount, fails
/// with `Blacklisted`.
pub proof fn lemma_blacklisted_cannot_transfer(
    env: EnvView,
    from: Address,
    to: Address,
    amount: i128,
)
    requires
        env.storage.blacklisted(from) || (env.storage.blacklisted(to) && env.payer_check(
            from,
            amount,
        ) is Ok),
        !env.storage.reentrancy_locked,
        env.authorized.contains(from),
        !env.storage.paused,
        amount > 0,
    ensures
        env.transfer_check(from, to, amount) == Err::<(), BrazaError>(BrazaError::Blacklisted),
{
}

/// A risk score of 80 or more, once set, puts the principal on the
/// blacklist.
pub proof fn lemma_high_risk_blacklists(env: EnvView, user: Address, score: u32)
    requires
        score >= crate::compliance::AUTO_BLACKLIST_RISK,
    ensures
        env.put_risk_score(user, score).storage.blacklisted(user),
        env.put_risk_score(user, score).risk_score(user) == score,
{
}

/// Writing one schedule moves what the schedules hold back by the
/// difference to what the schedule under that key held before.
pub proof fn lemma_schedule_written(
    schedules: Map<u128, VestingSchedule>,
    key: u128,
    schedule: VestingSchedule,
)
    requires
        schedules.dom().finite(),
    ensures
        schedules.insert(key, schedule).dom().finite(),
        outstanding_grants(schedules.insert(key, schedule)) == outstanding_grants(schedules) - (
        if schedules.dom().contains(key) {
            held_amount(schedules[key])
        } else {
            0
        }) + held_amount(schedule),
{
    assert(held_amounts(schedules).dom() =~= schedules.dom());
    lemma_sum_values_insert(held_amounts(schedules), key, held_amount(schedule));
    assert(held_amounts(schedules).insert(key, held_amount(schedule)) =~= held_amounts(
        schedules.insert(key, schedule),
    ));
}

/// Among valid schedules, none holds back more than all of them together,
/// and none holds back a negative amount.
pub proof fn lemma_held_within_outstanding(schedules: Map<u128, VestingSchedule>, key: u128)
    requires
        schedules.dom().finite(),
        forall|k: u128| #[trigger] schedules.dom().contains(k) ==> schedule_valid(schedules[k]),
    ensures
        0 <= outstanding_grants(schedules),
        schedules.dom().contains(key) ==> 0 <= held_amount(schedules[key]) <= outstanding_grants(
            schedules,
        ),
{
    assert(held_amounts(schedules).dom() =~= schedules.dom());
    assert(values_non_negative(held_amounts(schedules)));
    lemma_sum_values_bounds(held_amounts(schedules), key);
}

/// A grant no larger than the largest supply vests without its product
/// with the duration leaving the range of an amount.
pub proof fn lemma_grant_product_fits(s: VestingSchedule)
    requires
        0 <= s.total_amount <= MAX_SUPPLY,
    ensures
        s.total_amount * s.duration_ledgers <= i128::MAX,
{
    let t = s.total_amount as int;
    let d = s.duration_ledgers as int;
    assert(t * d <= 2_100_000_000_000_000 * 0xffff_ffff) by (nonlinear_arith)
        requires
            0 <= t <= 2_100_000_000_000_000,
            0 <= d <= 0xffff_ffff,
    ;
}

impl EnvView {
    /// The grants are funded: the state is well-formed, the total supply
    /// is within the largest supply, the locked balance covers what the
    /// stored schedules together still hold back, no grant exceeds the
    /// largest supply, and of no schedule more was released than has
    /// vested at the current tick.
    pub open spec fn grants_funded(self) -> bool {
        &&& self.storage.wf()
        &&& self.storage.total_supply <= MAX_SUPPLY
        &&& self.storage.vestings.dom().finite()
        &&& outstanding_grants(self.storage.vestings) <= self.storage.locked_balance
        &&& forall|k: u128| #[trigger]
            self.storage.vestings.dom().contains(k) ==> {
                &&& self.storage.vestings[k].total_amount <= MAX_SUPPLY
                &&& self.storage.vestings[k].released_amount <= vested_amount(
                    self.storage.vestings[k],
                    self.ledger_sequence,
                )
            }
    }
}

/// Whether the ticks of `calls` never fall, starting from `start`.
pub open spec fn ticks_ordered(start: u32, calls: Seq<Call>) -> bool {
    &&& forall|i: int| 0 <= i < calls.len() ==> start <= (#[trigger] calls[i]).now
    &&& forall|i: int, j: int|
        0 <= i <= j < calls.len() ==> (#[trigger] calls[i]).now <= (#[trigger] calls[j]).now
}

/// Initialization of an empty ledger funds the grants: there are none.
pub proof fn lemma_initialize_funds_grants(env: EnvView, admin: Address, metadata: TokenMetadata)
    requires
        env.storage == StorageView::empty(),
    ensures
        env.initialized(admin, metadata).grants_funded(),
{
    lemma_initialize_well_formed(env, admin, metadata);
    assert(held_amounts(Map::<u128, VestingSchedule>::empty()).dom() =~= Set::<u128>::empty());
}

/// The passing of time keeps the grants funded: what has vested never
/// falls, so nothing that was released turns out not to have vested.
pub proof fn lemma_time_keeps_grants_funded(env: EnvView, later: EnvView)
    requires
        env.grants_funded(),
        later.storage == env.storage,
        later.ledger_sequence >= env.ledger_sequence,
    ensures
        later.grants_funded(),
{
    assert forall|k: u128| #[trigger] later.storage.vestings.dom().contains(k) implies {
        &&& later.storage.vestings[k].total_amount <= MAX_SUPPLY
        &&& later.storage.vestings[k].released_amount <= vested_amount(
            later.storage.vestings[k],
            later.ledger_sequence,
        )
    } by {
        let s = env.storage.vestings[k];
        if !s.revoked {
            lemma_grant_product_fits(s);
            lemma_vested_monotonic(s, env.ledger_sequence, later.ledger_sequence);
        }
    }
}

/// Creating a grant keeps the grants funded: what is taken from the
/// administrator is locked for the new schedule.
pub proof fn lemma_create_vesting_keeps_grants_funded(
    env: EnvView,
    beneficiary: Address,
    total_amount: i128,
    cliff_ledgers: u32,
    duration_ledgers: u32,
    revocable: bool,
)
    requires
        env.grants_funded(),
        env.create_vesting_check(beneficiary, total_amount, cliff_ledgers, duration_ledgers)
            is Ok,
    ensures
        env.create_vesting_effect(
            beneficiary,
            total_amount,
            cliff_ledgers,
            duration_ledgers,
            revocable,
        ).grants_funded(),
{
    let after = env.create_vesting_effect(
        beneficiary,
        total_amount,
        cliff_ledgers,
        duration_ledgers,
        revocable,
    );
    lemma_create_vesting_conserves(
        env,
        beneficiary,
        total_amount,
        cliff_ledgers,
        duration_ledgers,
        revocable,
    );
    let admin = env.storage.admin.unwrap();
    lemma_no_negative_holdings(env.storage, admin, admin);
    let id = (env.storage.vesting_count(beneficiary) + 1) as u32;
    let key = vesting_key(beneficiary, id);
    let created = VestingSchedule {
        beneficiary,
        total_amount,
        released_amount: 0,
        start_ledger: env.ledger_sequence,
        cliff_ledgers,
        duration_ledgers,
        revocable,
        revoked: false,
    };
    assert(after.storage.vestings == env.storage.vestings.insert(key, created));
    lemma_schedule_written(env.storage.vestings, key, created);
    lemma_held_within_outstanding(env.storage.vestings, key);
    lemma_vested_within_total(created, env.ledger_sequence);
}

/// A release keeps the grants funded: what leaves the locked balance is
/// what the schedule no longer holds back.
pub proof fn lemma_release_keeps_grants_funded(
    env: EnvView,
    beneficiary: Address,
    schedule_id: u32,
)
    requires
        env.grants_funded(),
        env.release_vested_check(beneficiary, schedule_id) is Ok,
    ensures
        env.release_vested_effect(
            beneficiary,
            schedule_id,
            env.release_vested_check(beneficiary, schedule_id).unwrap(),
        ).grants_funded(),
{
    let amount = env.release_vested_check(beneficiary, schedule_id).unwrap();
    let after = env.release_vested_effect(beneficiary, schedule_id, amount);
    lemma_release_conserves(env, beneficiary, schedule_id);
    let key = vesting_key(beneficiary, schedule_id);
    let before = env.storage.vestings[key];
    assert(env.storage.vestings.dom().contains(key));
    lemma_vested_within_total(before, env.ledger_sequence);
    let released = VestingSchedule {
        released_amount: (before.released_amount + amount) as i128,
        ..before
    };
    assert(after.storage.vestings == env.storage.vestings.insert(key, released));
    lemma_schedule_written(env.storage.vestings, key, released);
    assert(vested_amount(released, env.ledger_sequence) == vested_amount(
        before,
        env.ledger_sequence,
    ));
}

/// A revocation keeps the grants funded: the schedule holds nothing back
/// any more, and no more leaves the locked balance than it held.
pub proof fn lemma_revoke_keeps_grants_funded(
    env: EnvView,
    beneficiary: Address,
    schedule_id: u32,
)
    requires
        env.grants_funded(),
        env.revoke_vesting_check(beneficiary, schedule_id) is Ok,
    ensures
        env.revoke_vesting_effect(
            beneficiary,
            schedule_id,
            env.revoke_vesting_check(beneficiary, schedule_id).unwrap(),
        ).grants_funded(),
{
    let unvested = env.revoke_vesting_check(beneficiary, schedule_id).unwrap();
    let after = env.revoke_vesting_effect(beneficiary, schedule_id, unvested);
    lemma_revoke_conserves(env, beneficiary, schedule_id);
    let key = vesting_key(beneficiary, schedule_id);
    let before = env.storage.vestings[key];
    assert(env.storage.vestings.dom().contains(key));
    lemma_vested_within_total(before, env.ledger_sequence);
    let revoked = VestingSchedule { revoked: true, ..before };
    assert(after.storage.vestings == env.storage.vestings.insert(key, revoked));
    lemma_schedule_written(env.storage.vestings, key, revoked);
}

/// One operation, whether it succeeds or fails, keeps the grants funded.
pub proof fn lemma_operation_keeps_grants_funded(env: EnvView, operation: Operation)
    requires
        env.grants_funded(),
    ensures
        env.perform(operation).grants_funded(),
{
    lemma_operation_conserves(env, operation);
    match operation {
        Operation::CreateVesting {
            beneficiary,
            total_amount,
            cliff_ledgers,
            duration_ledgers,
            revocable,
        } => {
            if env.create_vesting_check(beneficiary, total_amount, cliff_ledgers, duration_ledgers)
                is Ok {
                lemma_create_vesting_keeps_grants_funded(
                    env,
                    beneficiary,
                    total_amount,
                    cliff_ledgers,
                    duration_ledgers,
                    revocable,
                );
            }
        },
        Operation::ReleaseVested { beneficiary, schedule_id } => {
            if env.release_vested_check(beneficiary, schedule_id) is Ok {
                lemma_release_keeps_grants_funded(env, beneficiary, schedule_id);
            }
        },
        Operation::RevokeVesting { beneficiary, schedule_id } => {
            if env.revoke_vesting_check(beneficiary, schedule_id) is Ok {
                lemma_revoke_keeps_grants_funded(env, beneficiary, schedule_id);
            }
        },
        _ => {
            let after = env.perform(operation);
            assert(after.storage.vestings == env.storage.vestings);
            assert(after.storage.locked_balance == env.storage.locked_balance);
            assert(after.ledger_sequence == env.ledger_sequence);
            assert(after.storage.total_supply <= MAX_SUPPLY);
        },
    }
}

/// Over any sequence of calls whose ticks never fall, the grants stay
/// funded: the locked balance always covers what the schedules still hold
/// back.
pub proof fn lemma_run_keeps_grants_funded(env: EnvView, calls: Seq<Call>)
    requires
        env.grants_funded(),
        ticks_ordered(env.ledger_sequence, calls),
    ensures
        env.run(calls).grants_funded(),
        env.run(calls).ledger_sequence == (if calls.len() == 0 {
            env.ledger_sequence
        } else {
            calls.last().now
        }),
        outstanding_grants(env.run(calls).storage.vestings) <= env.run(
            calls,
        ).storage.locked_balance,
    decreases calls.len(),
{
    if calls.len() > 0 {
        let earlier = calls.drop_last();
        assert forall|i: int| 0 <= i < earlier.len() implies env.ledger_sequence <= (
        #[trigger] earlier[i]).now by {
            assert(earlier[i] == calls[i]);
        }
        assert forall|i: int, j: int| 0 <= i <= j < earlier.len() implies (
        #[trigger] earlier[i]).now <= (#[trigger] earlier[j]).now by {
            assert(earlier[i] == calls[i]);
            assert(earlier[j] == calls[j]);
        }
        lemma_run_keeps_grants_funded(env, earlier);
        let before = env.run(earlier);
        let call = calls.last();
        let entered = EnvView {
            ledger_sequence: call.now,
            authorized: call.authorized,
            ..before
        };
        if earlier.len() > 0 {
            assert(earlier.last() == calls[calls.len() - 2]);
            assert(call == calls[calls.len() - 1]);
        } else {
            assert(call == calls[0]);
        }
        lemma_time_keeps_grants_funded(before, entered);
        lemma_operation_keeps_grants_funded(entered, call.operation);
        lemma_tick_is_kept(entered, call.operation);
    }
}

/// No operation moves the clock.
pub proof fn lemma_tick_is_kept(env: EnvView, operation: Operation)
    ensures
        env.perform(operation).ledger_sequence == env.ledger_sequence,
{
}

/// On a ledger whose grants are funded, a release of what has vested
/// cannot fail: where the beneficiary authorized the call, the ledger is
/// neither busy nor paused and something can be released, exactly that
/// is paid out of the locked balance.
pub proof fn lemma_release_succeeds(env: EnvView, beneficiary: Address, schedule_id: u32)
    requires
        env.grants_funded(),
        !env.storage.reentrancy_locked,
        !env.storage.paused,
        env.authorized.contains(beneficiary),
        env.storage.schedule(beneficiary, schedule_id) is Some,
        releasable_amount(
            env.storage.schedule(beneficiary, schedule_id).unwrap(),
            env.ledger_sequence,
        ) > 0,
    ensures
        ({
            let s = env.storage.schedule(beneficiary, schedule_id).unwrap();
            let amount = vested_amount(s, env.ledger_sequence) - s.released_amount;
            let after = env.release_vested_effect(beneficiary, schedule_id, amount as i128).storage;
            &&& env.release_vested_check(beneficiary, schedule_id) == Ok::<i128, BrazaError>(
                amount as i128,
            )
            &&& after.balance(beneficiary) == env.storage.balance(beneficiary) + amount
            &&& after.locked_balance == env.storage.locked_balance - amount
            &&& after.total_supply == env.storage.total_supply
        }),
{
    let key = vesting_key(beneficiary, schedule_id);
    let s = env.storage.vestings[key];
    assert(env.storage.vestings.dom().contains(key));
    lemma_vested_within_total(s, env.ledger_sequence);
    lemma_held_within_outstanding(env.storage.vestings, key);
    lemma_no_negative_holdings(env.storage, beneficiary, beneficiary);
    lemma_release_conserves(env, beneficiary, schedule_id);
}

/// On a ledger whose grants are funded, a revocation cannot fail for want
/// of funds: where the administrator authorized the call, the ledger is
/// neither busy nor paused and the schedule is revocable and not yet
/// revoked, the total less what has vested goes from the locked balance
/// to the administrator, and the total supply and every other balance
/// stay as they were.
pub proof fn lemma_revoke_succeeds(
    env: EnvView,
    beneficiary: Address,
    schedule_id: u32,
    other: Address,
)
    requires
        env.grants_funded(),
        !env.storage.reentrancy_locked,
        !env.storage.paused,
        env.admin_authorized(),
        env.storage.schedule(beneficiary, schedule_id) is Some,
        env.storage.schedule(beneficiary, schedule_id).unwrap().revocable,
        !env.storage.schedule(beneficiary, schedule_id).unwrap().revoked,
    ensures
        ({
            let s = env.storage.schedule(beneficiary, schedule_id).unwrap();
            let admin = env.storage.admin.unwrap();
            let unvested = s.total_amount - vested_amount(s, env.ledger_sequence);
            let after = env.revoke_vesting_effect(
                beneficiary,
                schedule_id,
                unvested as i128,
            ).storage;
            &&& 0 <= unvested <= s.total_amount - s.released_amount
            &&& env.revoke_vesting_check(beneficiary, schedule_id) == Ok::<i128, BrazaError>(
                unvested as i128,
            )
            &&& after.balance(admin) == env.storage.balance(admin) + unvested
            &&& other != admin ==> after.balance(other) == env.storage.balance(other)
            &&& after.locked_balance == env.storage.locked_balance - unvested
            &&& after.total_supply == env.storage.total_supply
            &&& after.circulating_supply() + after.locked_balance == after.total_supply
            &&& after.schedule(beneficiary, schedule_id) == Some(
                VestingSchedule { revoked: true, ..s },
            )
        }),
{
    let key = vesting_key(beneficiary, schedule_id);
    let s = env.storage.vestings[key];
    let admin = env.storage.admin.unwrap();
    assert(env.storage.vestings.dom().contains(key));
    lemma_vested_within_total(s, env.ledger_sequence);
    lemma_held_within_outstanding(env.storage.vestings, key);
    lemma_no_negative_holdings(env.storage, admin, admin);
    lemma_revoke_conserves(env, beneficiary, schedule_id);
}

/// A forced transfer never overdraws: of more than the payer holds it
/// moves nothing, and where the administrator authorized the call, the
/// ledger is not busy, the amount is positive and both principals meet
/// the policy, it fails with `InsufficientBalance`.
pub proof fn lemma_forced_transfer_never_overdraws(
    env: EnvView,
    from: Address,
    to: Address,
    amount: i128,
)
    requires
        amount > env.storage.balance(from),
    ensures
        env.force_transfer_rules(from, to, amount) is Err,
        env.perform(Operation::ForceTransfer { from, to, amount }) == env,
        env.admin_authorized() && amount > 0 && env.party_check(from) is Ok && env.party_check(
            to,
        ) is Ok ==> env.force_transfer_rules(from, to, amount) == Err::<(), BrazaError>(
            BrazaError::InsufficientBalance,
        ),
{
}

/// After a destruction, every further destruction that the administrator
/// authorizes before the timelock has run out fails with
/// `TimelockNotExpired`, whoever holds the funds and whatever the amount,
/// and leaves the durable state as it was; an issuance is not held back
/// by it.
pub proof fn lemma_second_burn_rejected(
    env: EnvView,
    from: Address,
    amount: i128,
    next: EnvView,
    next_from: Address,
    next_amount: i128,
)
    requires
        env.burn_check(from, amount) is Ok,
        next.storage == env.burn_outcome(from, amount).storage,
        next.admin_authorized(),
        next.ledger_sequence - env.ledger_sequence < BURN_TIMELOCK_TICKS,
    ensures
        next.burn_check(next_from, next_amount) == Err::<(), BrazaError>(
            BrazaError::TimelockNotExpired,
        ),
        next.burn_outcome(next_from, next_amount).storage == next.storage,
        next.storage.last_burn_time == Some(env.ledger_sequence),
        next.storage.total_supply == env.storage.total_supply - amount,
        next.storage.last_mint_time == env.storage.last_mint_time,
        next.mint_check(next_from, next_amount) != Err::<(), BrazaError>(
            BrazaError::TimelockNotExpired,
        ) || timelock_closed(
            env.storage.last_mint_time,
            next.ledger_sequence,
            MINT_TIMELOCK_TICKS,
        ),
{
}

/// Creating a grant succeeds wherever its rules are met: the
/// administrator authorized the call and holds the total, the ledger is
/// neither busy nor paused, the parameters are valid, the locked balance
/// has room, the beneficiary's cooldown has passed and neither cap of
/// schedules is reached. The new schedule gets the id after the
/// beneficiary's count, and the total is locked.
pub proof fn lemma_create_vesting_succeeds(
    env: EnvView,
    beneficiary: Address,
    total_amount: i128,
    cliff_ledgers: u32,
    duration_ledgers: u32,
    revocable: bool,
)
    requires
        !env.storage.reentrancy_locked,
        !env.storage.paused,
        env.admin_authorized(),
        total_amount >= crate::storage::MIN_VESTING_AMOUNT,
        0 < duration_ledgers,
        cliff_ledgers <= duration_ledgers,
        env.storage.balance(env.storage.admin.unwrap()) >= total_amount,
        env.storage.locked_balance + total_amount <= i128::MAX,
        env.vesting_cooldown_expired(beneficiary),
        env.storage.vesting_count(beneficiary) < crate::storage::MAX_VESTING_SCHEDULES,
        env.storage.global_vesting_count < crate::storage::MAX_GLOBAL_VESTING_SCHEDULES,
    ensures
        ({
            let id = (env.storage.vesting_count(beneficiary) + 1) as u32;
            let after = env.create_vesting_effect(
                beneficiary,
                total_amount,
                cliff_ledgers,
                duration_ledgers,
                revocable,
            ).storage;
            &&& env.create_vesting_check(
                beneficiary,
                total_amount,
                cliff_ledgers,
                duration_ledgers,
            ) == Ok::<u32, BrazaError>(id)
            &&& after.schedule(beneficiary, id) == Some(
                VestingSchedule {
                    beneficiary,
                    total_amount,
                    released_amount: 0,
                    start_ledger: env.ledger_sequence,
                    cliff_ledgers,
                    duration_ledgers,
                    revocable,
                    revoked: false,
                },
            )
            &&& after.locked_balance == env.storage.locked_balance + total_amount
            &&& after.total_supply == env.storage.total_supply
        }),
{
}

} // verus!
