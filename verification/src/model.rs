//! What each entry point of the ledger decides and does, as functions on
//! the model of the world.
//!
//! For every entry point there is a function that gives the result (the
//! first rule that is broken decides the error) and one that gives the
//! world after the call. A call whose checks fail leaves the durable state
//! as it was.

use vstd::prelude::*;
use crate::compliance::{TRANSFER_MAX_RISK, TRANSFER_MIN_KYC};
use crate::env::EnvView;
use crate::storage::{
    elapsed_since, StorageView, BURN_TIMELOCK_TICKS, INITIAL_SUPPLY, MAX_PER_TX,
    MINT_TIMELOCK_TICKS,
};
use crate::types::{Address, BrazaError, Event, TokenMetadata};
use crate::validation::vesting_params_check;

verus! {

/// The first of two results that is an error, else the second.
pub open spec fn both<T>(first: Result<(), BrazaError>, second: Result<T, BrazaError>) -> Result<
    T,
    BrazaError,
> {
    match first {
        Err(e) => Err(e),
        Ok(_) => second,
    }
}

/// Whether a timelock of `ticks` that was last reset at `last` is still
/// closed at `now`.
pub open spec fn timelock_closed(last: Option<u32>, now: u32, ticks: u32) -> bool {
    match last {
        Some(l) => elapsed_since(now, l) < ticks,
        None => false,
    }
}

impl EnvView {
    /// The policy for a principal that takes part in a movement of funds.
    pub open spec fn party_check(self, user: Address) -> Result<(), BrazaError> {
        self.evaluate(user, None, TRANSFER_MIN_KYC, TRANSFER_MAX_RISK)
    }

    /// The policy for the principal whose funds move.
    pub open spec fn payer_check(self, user: Address, amount: i128) -> Result<(), BrazaError> {
        self.evaluate(user, Some(amount), TRANSFER_MIN_KYC, TRANSFER_MAX_RISK)
    }

    /// The administrator must exist and must have authorized the call.
    pub open spec fn admin_authorized(self) -> bool {
        self.storage.admin is Some && self.authorized.contains(self.storage.admin.unwrap())
    }

    /// `amount` taken from `from` and given to `to`; nothing changes
    /// where both are the same principal.
    pub open spec fn move_balance(self, from: Address, to: Address, amount: i128) -> EnvView {
        if from == to {
            self
        } else {
            self.set_balance(from, (self.storage.balance(from) - amount) as i128).set_balance(
                to,
                (self.storage.balance(to) + amount) as i128,
            )
        }
    }

    // ---------------------------------------------------------------
    // initialize

    /// What `initialize` answers.
    pub open spec fn initialize_check(self) -> Result<(), BrazaError> {
        if self.storage.reentrancy_locked {
            Err(BrazaError::Unauthorized)
        } else if self.storage.admin is Some {
            Err(BrazaError::AlreadyInitialized)
        } else {
            Ok(())
        }
    }

    /// The administrator holds the initial supply and is on file with the
    /// highest tier and no risk; a country code is not on file yet.
    pub open spec fn initialized(self, admin: Address, metadata: TokenMetadata) -> EnvView {
        self.with_storage(
            StorageView {
                admin: Some(admin),
                paused: false,
                total_supply: INITIAL_SUPPLY,
                metadata: Some(metadata),
                balances: self.storage.balances.insert(admin, INITIAL_SUPPLY),
                kyc_levels: self.storage.kyc_levels.insert(admin, 3),
                risk_scores: self.storage.risk_scores.insert(admin, 0),
                ..self.storage
            },
        ).emit(Event::Mint { to: admin, amount: INITIAL_SUPPLY })
    }

    // ---------------------------------------------------------------
    // transfer

    /// The checks of `transfer` once the guard is passed.
    pub open spec fn transfer_rules(self, from: Address, to: Address, amount: i128) -> Result<
        (),
        BrazaError,
    > {
        if !self.authorized.contains(from) {
            Err(BrazaError::Unauthorized)
        } else if self.storage.paused {
            Err(BrazaError::Paused)
        } else if amount <= 0 {
            Err(BrazaError::InvalidAmount)
        } else if self.payer_check(from, amount) is Err {
            self.payer_check(from, amount)
        } else if self.party_check(to) is Err {
            self.party_check(to)
        } else if self.storage.balance(from) < amount {
            Err(BrazaError::InsufficientBalance)
        } else if from != to && self.storage.balance(to) + amount > i128::MAX {
            Err(BrazaError::InvalidAmount)
        } else {
            Ok(())
        }
    }

    /// What `transfer` answers.
    pub open spec fn transfer_check(self, from: Address, to: Address, amount: i128) -> Result<
        (),
        BrazaError,
    > {
        if self.storage.reentrancy_locked {
            Err(BrazaError::Unauthorized)
        } else {
            self.transfer_rules(from, to, amount)
        }
    }

    /// The funds moved and counted towards the day's volume of `from`;
    /// a transfer to oneself changes no state. Either way the transfer is
    /// notified.
    pub open spec fn transfer_effect(self, from: Address, to: Address, amount: i128) -> EnvView {
        let moved = if from == to {
            self
        } else {
            self.move_balance(from, to, amount).put_daily_volume(
                from,
                (self.daily_volume(from) + amount) as i128,
            )
        };
        moved.emit(Event::Transfer { from, to, amount })
    }

    // ---------------------------------------------------------------
    // transfer_from

    /// The checks of `transfer_from` once the guard is passed.
    pub open spec fn transfer_from_rules(
        self,
        spender: Address,
        from: Address,
        to: Address,
        amount: i128,
    ) -> Result<(), BrazaError> {
        if !self.authorized.contains(spender) {
            Err(BrazaError::Unauthorized)
        } else if self.storage.paused {
            Err(BrazaError::Paused)
        } else if amount <= 0 {
            Err(BrazaError::InvalidAmount)
        } else if self.party_check(spender) is Err {
            self.party_check(spender)
        } else if self.payer_check(from, amount) is Err {
            self.payer_check(from, amount)
        } else if self.party_check(to) is Err {
            self.party_check(to)
        } else if self.storage.balance(from) < amount {
            Err(BrazaError::InsufficientBalance)
        } else if self.storage.allowance(from, spender) < amount {
            Err(BrazaError::InsufficientAllowance)
        } else if from != to && self.storage.balance(to) + amount > i128::MAX {
            Err(BrazaError::InvalidAmount)
        } else {
            Ok(())
        }
    }

    /// What `transfer_from` answers.
    pub open spec fn transfer_from_check(
        self,
        spender: Address,
        from: Address,
        to: Address,
        amount: i128,
    ) -> Result<(), BrazaError> {
        if self.storage.reentrancy_locked {
            Err(BrazaError::Unauthorized)
        } else {
            self.transfer_from_rules(spender, from, to, amount)
        }
    }

    /// The allowance lowered by `amount`, then the transfer, then a note
    /// of what is left of the allowance.
    pub open spec fn transfer_from_effect(
        self,
        spender: Address,
        from: Address,
        to: Address,
        amount: i128,
    ) -> EnvView {
        let remaining = (self.storage.allowance(from, spender) - amount) as i128;
        self.set_allowance(from, spender, remaining).transfer_effect(from, to, amount).emit(
            Event::AllowanceUsed { spender, owner: from, amount, remaining },
        )
    }

    // ---------------------------------------------------------------
    // allowances

    /// The rules common to every change of an allowance, once the guard
    /// is passed.
    pub open spec fn allowance_rules(self, from: Address, spender: Address) -> Result<
        (),
        BrazaError,
    > {
        if !self.authorized.contains(from) {
            Err(BrazaError::Unauthorized)
        } else if self.storage.paused {
            Err(BrazaError::Paused)
        } else if self.storage.blacklisted(from) || self.storage.blacklisted(spender) {
            Err(BrazaError::Blacklisted)
        } else {
            Ok(())
        }
    }

    /// What `approve` answers.
    pub open spec fn approve_check(self, from: Address, spender: Address, amount: i128) -> Result<
        (),
        BrazaError,
    > {
        self.guarded(self.approve_rules(from, spender, amount))
    }

    /// The checks of `approve` once the guard is passed.
    pub open spec fn approve_rules(self, from: Address, spender: Address, amount: i128) -> Result<
        (),
        BrazaError,
    > {
        both(
            self.allowance_rules(from, spender),
            if amount < 0 {
                Err(BrazaError::InvalidAmount)
            } else {
                Ok(())
            },
        )
    }

    /// The allowance replaced; where a non-zero allowance gives way to
    /// another non-zero one, a warning comes first.
    pub open spec fn approve_effect(self, from: Address, spender: Address, amount: i128)
        -> EnvView {
        let current = self.storage.allowance(from, spender);
        let warned = if current != 0 && amount != 0 {
            self.emit(Event::AllowanceRace { owner: from, spender, current, requested: amount })
        } else {
            self
        };
        warned.set_allowance(from, spender, amount).emit(
            Event::Approval { owner: from, spender, amount },
        )
    }

    /// What `increase_allowance` answers.
    pub open spec fn increase_allowance_check(
        self,
        from: Address,
        spender: Address,
        delta: i128,
    ) -> Result<(), BrazaError> {
        self.guarded(self.increase_allowance_rules(from, spender, delta))
    }

    /// The checks of `increase_allowance` once the guard is passed.
    pub open spec fn increase_allowance_rules(
        self,
        from: Address,
        spender: Address,
        delta: i128,
    ) -> Result<(), BrazaError> {
        both(
            self.allowance_rules(from, spender),
            if delta <= 0 {
                Err(BrazaError::InvalidAmount)
            } else if self.storage.allowance(from, spender) + delta > i128::MAX {
                Err(BrazaError::InvalidAmount)
            } else {
                Ok(())
            },
        )
    }

    /// What `decrease_allowance` answers.
    pub open spec fn decrease_allowance_check(
        self,
        from: Address,
        spender: Address,
        delta: i128,
    ) -> Result<(), BrazaError> {
        self.guarded(self.decrease_allowance_rules(from, spender, delta))
    }

    /// The checks of `decrease_allowance` once the guard is passed.
    pub open spec fn decrease_allowance_rules(
        self,
        from: Address,
        spender: Address,
        delta: i128,
    ) -> Result<(), BrazaError> {
        both(
            self.allowance_rules(from, spender),
            if delta <= 0 {
                Err(BrazaError::InvalidAmount)
            } else if self.storage.allowance(from, spender) < delta {
                Err(BrazaError::InsufficientAllowance)
            } else {
                Ok(())
            },
        )
    }

    /// The allowance set to `amount` and notified.
    pub open spec fn allowance_changed(self, from: Address, spender: Address, amount: i128)
        -> EnvView {
        self.set_allowance(from, spender, amount).emit(
            Event::Approval { owner: from, spender, amount },
        )
    }

    // ---------------------------------------------------------------
    // mint

    /// The checks of `mint` once the guard is passed.
    pub open spec fn mint_rules(self, to: Address, amount: i128) -> Result<(), BrazaError> {
        if !self.admin_authorized() {
            Err(BrazaError::Unauthorized)
        } else if timelock_closed(
            self.storage.last_mint_time,
            self.ledger_sequence,
            MINT_TIMELOCK_TICKS,
        ) {
            Err(BrazaError::TimelockNotExpired)
        } else if self.storage.paused {
            Err(BrazaError::Paused)
        } else if amount <= 0 || amount > MAX_PER_TX {
            Err(BrazaError::InvalidAmount)
        } else if self.max_supply_check(amount) is Err {
            Err(BrazaError::MaxSupplyExceeded)
        } else if self.party_check(to) is Err {
            self.party_check(to)
        } else if self.storage.balance(to) + amount > i128::MAX {
            Err(BrazaError::OverflowError)
        } else {
            Ok(())
        }
    }

    /// What `mint` answers.
    pub open spec fn mint_check(self, to: Address, amount: i128) -> Result<(), BrazaError> {
        if self.storage.reentrancy_locked {
            Err(BrazaError::Unauthorized)
        } else {
            self.mint_rules(to, amount)
        }
    }

    /// The amount credited and added to the total supply, the timelock of
    /// issuance reset to the current tick, the issuance notified.
    pub open spec fn mint_effect(self, to: Address, amount: i128) -> EnvView {
        self.set_balance(to, (self.storage.balance(to) + amount) as i128).set_total_supply(
            (self.storage.total_supply + amount) as i128,
        ).set_last_mint_time(self.ledger_sequence).emit(Event::Mint { to, amount })
    }

    /// The world after a call of `mint`: the effect where the checks
    /// pass, a warning where the timelock is closed, no change otherwise.
    pub open spec fn mint_outcome(self, to: Address, amount: i128) -> EnvView {
        match self.mint_check(to, amount) {
            Ok(_) => self.mint_effect(to, amount),
            Err(BrazaError::TimelockNotExpired) => self.emit(
                Event::MintBlocked {
                    now: self.ledger_sequence,
                    last: self.storage.last_mint_time.unwrap(),
                },
            ),
            Err(_) => self,
        }
    }

    // ---------------------------------------------------------------
    // burn

    /// The checks of `burn` once the guard is passed.
    pub open spec fn burn_rules(self, from: Address, amount: i128) -> Result<(), BrazaError> {
        if !self.admin_authorized() {
            Err(BrazaError::Unauthorized)
        } else if timelock_closed(
            self.storage.last_burn_time,
            self.ledger_sequence,
            BURN_TIMELOCK_TICKS,
        ) {
            Err(BrazaError::TimelockNotExpired)
        } else if self.storage.paused {
            Err(BrazaError::Paused)
        } else if amount <= 0 || amount > MAX_PER_TX {
            Err(BrazaError::InvalidAmount)
        } else if self.storage.blacklisted(from) {
            Err(BrazaError::Blacklisted)
        } else if self.storage.balance(from) < amount {
            Err(BrazaError::InsufficientBalance)
        } else if amount > self.storage.circulating_supply() {
            Err(BrazaError::InsufficientBalance)
        } else if self.storage.total_supply - amount < i128::MIN {
            Err(BrazaError::InvalidAmount)
        } else {
            Ok(())
        }
    }

    /// What `burn` answers.
    pub open spec fn burn_check(self, from: Address, amount: i128) -> Result<(), BrazaError> {
        if self.storage.reentrancy_locked {
            Err(BrazaError::Unauthorized)
        } else {
            self.burn_rules(from, amount)
        }
    }

    /// The amount debited and taken off the total supply, the timelock of
    /// destruction reset to the current tick, the destruction notified.
    pub open spec fn burn_effect(self, from: Address, amount: i128) -> EnvView {
        self.set_balance(from, (self.storage.balance(from) - amount) as i128).set_total_supply(
            (self.storage.total_supply - amount) as i128,
        ).set_last_burn_time(self.ledger_sequence).emit(Event::Burn { from, amount })
    }

    /// The world after a call of `burn`: the effect where the checks
    /// pass, a warning where the timelock is closed, no change otherwise.
    pub open spec fn burn_outcome(self, from: Address, amount: i128) -> EnvView {
        match self.burn_check(from, amount) {
            Ok(_) => self.burn_effect(from, amount),
            Err(BrazaError::TimelockNotExpired) => self.emit(
                Event::BurnBlocked {
                    now: self.ledger_sequence,
                    last: self.storage.last_burn_time.unwrap(),
                },
            ),
            Err(_) => self,
        }
    }

    // ---------------------------------------------------------------
    // vesting

    /// The checks of `create_vesting` once the guard is passed; the answer is
    /// the id of the new schedule.
    pub open spec fn create_vesting_rules(
        self,
        beneficiary: Address,
        total_amount: i128,
        cliff_ledgers: u32,
        duration_ledgers: u32,
    ) -> Result<u32, BrazaError> {
        if !self.admin_authorized() {
            Err(BrazaError::Unauthorized)
        } else if self.storage.paused {
            Err(BrazaError::Paused)
        } else if vesting_params_check(total_amount, cliff_ledgers, duration_ledgers) is Err {
            both(
                vesting_params_check(total_amount, cliff_ledgers, duration_ledgers),
                Ok::<u32, BrazaError>(0),
            )
        } else if self.storage.balance(self.storage.admin.unwrap()) < total_amount {
            Err(BrazaError::InsufficientBalance)
        } else if self.storage.locked_balance + total_amount > i128::MAX {
            Err(BrazaError::InvalidAmount)
        } else {
            self.schedule_creation_check(beneficiary)
        }
    }

    /// What `create_vesting` answers.
    pub open spec fn create_vesting_check(
        self,
        beneficiary: Address,
        total_amount: i128,
        cliff_ledgers: u32,
        duration_ledgers: u32,
    ) -> Result<u32, BrazaError> {
        if self.storage.reentrancy_locked {
            Err(BrazaError::Unauthorized)
        } else {
            self.create_vesting_rules(beneficiary, total_amount, cliff_ledgers, duration_ledgers)
        }
    }

    /// The grant taken from the administrator and locked, the schedule
    /// stored, the creation notified.
    pub open spec fn create_vesting_effect(
        self,
        beneficiary: Address,
        total_amount: i128,
        cliff_ledgers: u32,
        duration_ledgers: u32,
        revocable: bool,
    ) -> EnvView {
        let admin = self.storage.admin.unwrap();
        self.set_balance(
            admin,
            (self.storage.balance(admin) - total_amount) as i128,
        ).set_locked_balance((self.storage.locked_balance + total_amount) as i128).schedule_created(
            beneficiary,
            total_amount,
            cliff_ledgers,
            duration_ledgers,
            revocable,
        ).emit(
            Event::VestingCreated {
                beneficiary,
                schedule_id: (self.storage.vesting_count(beneficiary) + 1) as u32,
                amount: total_amount,
            },
        )
    }

    /// The checks of `release_vested` once the guard is passed; the answer is
    /// the amount released.
    pub open spec fn release_vested_rules(self, beneficiary: Address, schedule_id: u32) -> Result<
        i128,
        BrazaError,
    > {
        if !self.authorized.contains(beneficiary) {
            Err(BrazaError::Unauthorized)
        } else if self.storage.paused {
            Err(BrazaError::Paused)
        } else {
            match self.release_check(beneficiary, schedule_id) {
                Err(e) => Err(e),
                Ok(amount) => if self.storage.balance(beneficiary) + amount > i128::MAX {
                    Err(BrazaError::InvalidAmount)
                } else if self.storage.locked_balance < amount {
                    Err(BrazaError::InsufficientBalance)
                } else {
                    Ok(amount)
                },
            }
        }
    }

    /// What `release_vested` answers.
    pub open spec fn release_vested_check(self, beneficiary: Address, schedule_id: u32) -> Result<
        i128,
        BrazaError,
    > {
        if self.storage.reentrancy_locked {
            Err(BrazaError::Unauthorized)
        } else {
            self.release_vested_rules(beneficiary, schedule_id)
        }
    }

    /// The amount marked as released, credited to the beneficiary and
    /// taken off the locked balance; the release notified.
    pub open spec fn release_vested_effect(
        self,
        beneficiary: Address,
        schedule_id: u32,
        amount: i128,
    ) -> EnvView {
        self.schedule_released(beneficiary, schedule_id, amount).set_balance(
            beneficiary,
            (self.storage.balance(beneficiary) + amount) as i128,
        ).set_locked_balance((self.storage.locked_balance - amount) as i128).emit(
            Event::VestingReleased { beneficiary, schedule_id, amount },
        )
    }

    /// The checks of `revoke_vesting` once the guard is passed; the answer is
    /// the amount that goes back to the administrator.
    pub open spec fn revoke_vesting_rules(self, beneficiary: Address, schedule_id: u32) -> Result<
        i128,
        BrazaError,
    > {
        if !self.admin_authorized() {
            Err(BrazaError::Unauthorized)
        } else if self.storage.paused {
            Err(BrazaError::Paused)
        } else {
            match self.revoke_check(beneficiary, schedule_id) {
                Err(e) => Err(e),
                Ok(unvested) => if unvested < 0 {
                    Err(BrazaError::InvalidAmount)
                } else if self.storage.balance(self.storage.admin.unwrap()) + unvested
                    > i128::MAX {
                    Err(BrazaError::InvalidAmount)
                } else if self.storage.locked_balance < unvested {
                    Err(BrazaError::InsufficientBalance)
                } else {
                    Ok(unvested)
                },
            }
        }
    }

    /// What `revoke_vesting` answers.
    pub open spec fn revoke_vesting_check(self, beneficiary: Address, schedule_id: u32) -> Result<
        i128,
        BrazaError,
    > {
        if self.storage.reentrancy_locked {
            Err(BrazaError::Unauthorized)
        } else {
            self.revoke_vesting_rules(beneficiary, schedule_id)
        }
    }

    /// The schedule marked as revoked, what had not vested given back to
    /// the administrator and taken off the locked balance; the revocation
    /// notified.
    pub open spec fn revoke_vesting_effect(
        self,
        beneficiary: Address,
        schedule_id: u32,
        unvested: i128,
    ) -> EnvView {
        let admin = self.storage.admin.unwrap();
        self.schedule_revoked(beneficiary, schedule_id).set_balance(
            admin,
            (self.storage.balance(admin) + unvested) as i128,
        ).set_locked_balance((self.storage.locked_balance - unvested) as i128).emit(
            Event::VestingRevoked { beneficiary, schedule_id },
        )
    }

    // ---------------------------------------------------------------
    // administration

    /// The rule of every operation that only the administrator may call.
    pub open spec fn admin_only_check(self) -> Result<(), BrazaError> {
        if self.storage.reentrancy_locked || !self.admin_authorized() {
            Err(BrazaError::Unauthorized)
        } else {
            Ok(())
        }
    }

    /// What `batch_blacklist` answers.
    pub open spec fn batch_blacklist_check(self, addrs: Seq<Address>) -> Result<(), BrazaError> {
        self.guarded(self.batch_blacklist_rules(addrs))
    }

    /// The checks of `batch_blacklist` once the guard is passed.
    pub open spec fn batch_blacklist_rules(self, addrs: Seq<Address>) -> Result<(), BrazaError> {
        if !self.admin_authorized() {
            Err(BrazaError::Unauthorized)
        } else if addrs.len() > crate::token::MAX_BATCH_SIZE {
            Err(BrazaError::InvalidAmount)
        } else {
            Ok(())
        }
    }

    /// Every principal of `addrs` put on the blacklist or taken off it,
    /// first to last, each with its notification.
    pub open spec fn blacklisted_all(self, addrs: Seq<Address>, blacklisted: bool) -> EnvView
        decreases addrs.len(),
    {
        if addrs.len() == 0 {
            self
        } else {
            self.blacklisted_all(addrs.drop_last(), blacklisted).set_blacklisted(
                addrs.last(),
                blacklisted,
            ).emit(Event::Blacklist { addr: addrs.last(), blacklisted })
        }
    }

    /// The change of administrator notified, then made.
    pub open spec fn ownership_transferred(self, new_admin: Address) -> EnvView {
        self.emit(
            Event::AdminChanged { previous: self.storage.admin.unwrap(), successor: new_admin },
        ).set_admin(new_admin)
    }

    /// The checks of `force_transfer` once the guard is passed.
    pub open spec fn force_transfer_rules(self, from: Address, to: Address, amount: i128)
        -> Result<(), BrazaError> {
        if !self.admin_authorized() {
            Err(BrazaError::Unauthorized)
        } else if amount <= 0 {
            Err(BrazaError::InvalidAmount)
        } else if self.party_check(from) is Err {
            self.party_check(from)
        } else if self.party_check(to) is Err {
            self.party_check(to)
        } else if self.storage.balance(from) < amount {
            Err(BrazaError::InsufficientBalance)
        } else if from != to && self.storage.balance(to) + amount > i128::MAX {
            Err(BrazaError::InvalidAmount)
        } else {
            Ok(())
        }
    }

    /// The funds moved and the forced transfer notified.
    pub open spec fn force_transfer_effect(self, from: Address, to: Address, amount: i128)
        -> EnvView {
        self.move_balance(from, to, amount).emit(Event::ForcedTransfer { from, to, amount })
    }

    /// The checks of `force_burn` once the guard is passed.
    pub open spec fn force_burn_rules(self, from: Address, amount: i128) -> Result<
        (),
        BrazaError,
    > {
        if !self.admin_authorized() {
            Err(BrazaError::Unauthorized)
        } else if amount <= 0 {
            Err(BrazaError::InvalidAmount)
        } else if self.party_check(from) is Err {
            self.party_check(from)
        } else if self.storage.balance(from) < amount {
            Err(BrazaError::InsufficientBalance)
        } else if self.storage.total_supply - amount < i128::MIN {
            Err(BrazaError::InvalidAmount)
        } else {
            Ok(())
        }
    }

    /// The amount debited and taken off the total supply, the forced
    /// destruction notified.
    pub open spec fn force_burn_effect(self, from: Address, amount: i128) -> EnvView {
        self.set_balance(from, (self.storage.balance(from) - amount) as i128).set_total_supply(
            (self.storage.total_supply - amount) as i128,
        ).emit(Event::ForcedBurn { from, amount })
    }

    /// The result of an operation that runs under the guard: `Unauthorized`
    /// while another call is in progress, else what the operation answers.
    pub open spec fn guarded<T>(self, inner: Result<T, BrazaError>) -> Result<T, BrazaError> {
        if self.storage.reentrancy_locked {
            Err(BrazaError::Unauthorized)
        } else {
            inner
        }
    }
}

} // verus!
