//! The compliance gate: the profile that is kept for each principal, the
//! administrative operations that write it, and the policy that every
//! balance-changing operation consults.

use vstd::prelude::*;
use vstd::std_specs::hash::*;
use crate::env::{require_auth, Env, EnvView};
use crate::storage;
use crate::storage::{code_set, StorageView};
use crate::types::{Address, BrazaError, Event};
use crate::validation;

verus! {

broadcast use group_hash_axioms;

/// The identity-verification tiers.
#[derive(Clone, Copy, Debug, PartialEq, Eq, Structural)]
pub enum KYCLevel {
    Unverified,
    Basic,
    Intermediate,
    Advanced,
}

impl KYCLevel {
    /// The number under which the tier is stored.
    pub open spec fn spec_level(self) -> u32 {
        match self {
            KYCLevel::Unverified => 0,
            KYCLevel::Basic => 1,
            KYCLevel::Intermediate => 2,
            KYCLevel::Advanced => 3,
        }
    }

    /// The number under which the tier is stored.
    #[verifier::when_used_as_spec(spec_level)]
    pub fn level(self) -> (l: u32)
        ensures
            l == self.spec_level(),
    {
        match self {
            KYCLevel::Unverified => 0,
            KYCLevel::Basic => 1,
            KYCLevel::Intermediate => 2,
            KYCLevel::Advanced => 3,
        }
    }
}

/// The ticks that make up one day of the daily spending cap.
pub const LEDGERS_PER_DAY: u32 = 17_280;

/// The lowest tier that may move funds.
pub const TRANSFER_MIN_KYC: u32 = 2;

/// The highest risk score that may move funds.
pub const TRANSFER_MAX_RISK: u32 = 50;

/// The risk score from which a principal is blacklisted at once.
pub const AUTO_BLACKLIST_RISK: u32 = 80;

impl EnvView {
    /// The tier on file for `user`; zero where none is.
    pub open spec fn kyc_level(self, user: Address) -> u32 {
        if self.storage.kyc_levels.dom().contains(user) {
            self.storage.kyc_levels[user]
        } else {
            0
        }
    }

    /// The risk score on file for `user`; zero where none is.
    pub open spec fn risk_score(self, user: Address) -> u32 {
        if self.storage.risk_scores.dom().contains(user) {
            self.storage.risk_scores[user]
        } else {
            0
        }
    }

    /// The country code on file for `user`.
    pub open spec fn country(self, user: Address) -> Option<Seq<char>> {
        if self.storage.countries.dom().contains(user) {
            Some(self.storage.countries[user])
        } else {
            None
        }
    }

    /// Whether `investor` is marked as accredited.
    pub open spec fn accredited(self, investor: Address) -> bool {
        self.storage.accredited.dom().contains(investor) && self.storage.accredited[investor]
    }

    /// What `user` may move in one day; unbounded where no cap is set.
    pub open spec fn daily_limit(self, user: Address) -> i128 {
        if self.storage.daily_limits.dom().contains(user) {
            self.storage.daily_limits[user]
        } else {
            i128::MAX
        }
    }

    /// The index of the current day.
    pub open spec fn today(self) -> u32 {
        self.ledger_sequence / LEDGERS_PER_DAY
    }

    /// What `user` has moved during the current day.
    pub open spec fn daily_volume(self, user: Address) -> i128 {
        let last_day: u32 = if self.storage.volume_days.dom().contains(user) {
            self.storage.volume_days[user]
        } else {
            0
        };
        if last_day == self.today() && self.storage.volume_amounts.dom().contains(user) {
            self.storage.volume_amounts[user]
        } else {
            0
        }
    }

    /// A country code must be on file, must not be empty and must not be
    /// blocked.
    pub open spec fn country_check(self, user: Address) -> Result<(), BrazaError> {
        match self.country(user) {
            Some(code) => if code.len() == 0 || self.storage.blocked_countries.contains(code) {
                Err(BrazaError::Unauthorized)
            } else {
                Ok(())
            },
            None => Err(BrazaError::Unauthorized),
        }
    }

    /// The tier of `user` must be at least `min`.
    pub open spec fn kyc_check(self, user: Address, min: u32) -> Result<(), BrazaError> {
        if self.kyc_level(user) < min {
            Err(BrazaError::Unauthorized)
        } else {
            Ok(())
        }
    }

    /// The risk score of `user` must be at most `max`.
    pub open spec fn risk_check(self, user: Address, max: u32) -> Result<(), BrazaError> {
        if self.risk_score(user) > max {
            Err(BrazaError::Unauthorized)
        } else {
            Ok(())
        }
    }

    /// What the current day's volume of `user` and `amount` come to must fit
    /// an amount and must not exceed the daily cap of `user`.
    pub open spec fn daily_limit_check(self, user: Address, amount: i128) -> Result<
        (),
        BrazaError,
    > {
        let volume = self.daily_volume(user) + amount;
        if volume > i128::MAX || volume < i128::MIN {
            Err(BrazaError::OverflowError)
        } else if volume > self.daily_limit(user) {
            Err(BrazaError::InvalidAmount)
        } else {
            Ok(())
        }
    }

    /// The policy: not blacklisted, country allowed, tier at least
    /// `min_kyc`, risk at most `max_risk` and, where an amount is given,
    /// the daily cap; the first rule that is broken decides the error.
    pub open spec fn evaluate(
        self,
        user: Address,
        amount: Option<i128>,
        min_kyc: u32,
        max_risk: u32,
    ) -> Result<(), BrazaError> {
        if self.storage.blacklisted(user) {
            Err(BrazaError::Blacklisted)
        } else if self.country_check(user) is Err {
            Err(BrazaError::Unauthorized)
        } else if self.kyc_level(user) < min_kyc {
            Err(BrazaError::Unauthorized)
        } else if self.risk_score(user) > max_risk {
            Err(BrazaError::Unauthorized)
        } else {
            match amount {
                Some(a) => self.daily_limit_check(user, a),
                None => Ok(()),
            }
        }
    }

    /// `admin` must have authorized the call and must be the
    /// administrator.
    pub open spec fn admin_check(self, admin: Address) -> Result<(), BrazaError> {
        if !self.authorized.contains(admin) || self.storage.admin != Some(admin) {
            Err(BrazaError::Unauthorized)
        } else {
            Ok(())
        }
    }

    /// What [`set_kyc_level`] answers.
    pub open spec fn kyc_update_check(self, admin: Address, level: u32) -> Result<(), BrazaError> {
        if self.admin_check(admin) is Err {
            Err(BrazaError::Unauthorized)
        } else if level == 0 || level > 3 {
            Err(BrazaError::InvalidAmount)
        } else {
            Ok(())
        }
    }

    /// What [`set_country_code`] and [`add_blocked_country`] answer.
    pub open spec fn country_update_check(self, admin: Address, code: Seq<char>) -> Result<
        (),
        BrazaError,
    > {
        if self.admin_check(admin) is Err {
            Err(BrazaError::Unauthorized)
        } else if code.len() == 0 {
            Err(BrazaError::InvalidAmount)
        } else {
            Ok(())
        }
    }

    /// What [`set_risk_score`] answers.
    pub open spec fn risk_update_check(self, admin: Address, score: u32) -> Result<
        (),
        BrazaError,
    > {
        if self.admin_check(admin) is Err {
            Err(BrazaError::Unauthorized)
        } else if score > 100 {
            Err(BrazaError::InvalidAmount)
        } else {
            Ok(())
        }
    }

    /// What [`set_daily_limit`] answers.
    pub open spec fn limit_update_check(self, admin: Address, limit: i128) -> Result<
        (),
        BrazaError,
    > {
        if self.admin_check(admin) is Err {
            Err(BrazaError::Unauthorized)
        } else if limit <= 0 {
            Err(BrazaError::InvalidAmount)
        } else {
            Ok(())
        }
    }

    /// The world in which `level` is the tier on file for `user`, put
    /// there at the current tick.
    pub open spec fn put_kyc_level(self, user: Address, level: u32) -> EnvView {
        self.with_storage(
            StorageView {
                kyc_levels: self.storage.kyc_levels.insert(user, level),
                kyc_timestamps: self.storage.kyc_timestamps.insert(user, self.ledger_sequence),
                ..self.storage
            },
        )
    }

    /// The world in which `investor` is marked as accredited or not, at
    /// the current tick.
    pub open spec fn put_accredited(self, investor: Address, accredited: bool) -> EnvView {
        self.with_storage(
            StorageView {
                accredited: self.storage.accredited.insert(investor, accredited),
                accredited_timestamps: self.storage.accredited_timestamps.insert(
                    investor,
                    self.ledger_sequence,
                ),
                ..self.storage
            },
        )
    }

    /// The world in which `code` is the country code on file for `user`.
    pub open spec fn put_country(self, user: Address, code: Seq<char>) -> EnvView {
        self.with_storage(
            StorageView { countries: self.storage.countries.insert(user, code), ..self.storage },
        )
    }

    /// The world in which `code` is a blocked country.
    pub open spec fn block_country(self, code: Seq<char>) -> EnvView {
        self.with_storage(
            StorageView {
                blocked_countries: self.storage.blocked_countries.insert(code),
                ..self.storage
            },
        )
    }

    /// The world in which `code` is not a blocked country.
    pub open spec fn unblock_country(self, code: Seq<char>) -> EnvView {
        self.with_storage(
            StorageView {
                blocked_countries: self.storage.blocked_countries.remove(code),
                ..self.storage
            },
        )
    }

    /// The score on file, put there at the current tick, and, from
    /// [`AUTO_BLACKLIST_RISK`] on, `user` on the blacklist.
    pub open spec fn put_risk_score(self, user: Address, score: u32) -> EnvView {
        let blacklist = if score >= AUTO_BLACKLIST_RISK {
            self.storage.blacklist.insert(user, true)
        } else {
            self.storage.blacklist
        };
        self.with_storage(
            StorageView {
                risk_scores: self.storage.risk_scores.insert(user, score),
                risk_timestamps: self.storage.risk_timestamps.insert(user, self.ledger_sequence),
                blacklist,
                ..self.storage
            },
        )
    }

    /// The world in which `limit` is what `user` may move in one day.
    pub open spec fn put_daily_limit(self, user: Address, limit: i128) -> EnvView {
        self.with_storage(
            StorageView {
                daily_limits: self.storage.daily_limits.insert(user, limit),
                ..self.storage
            },
        )
    }

    /// The current day's volume of `user` set to `volume`.
    pub open spec fn put_daily_volume(self, user: Address, volume: i128) -> EnvView {
        self.with_storage(
            StorageView {
                volume_days: self.storage.volume_days.insert(user, self.today()),
                volume_amounts: self.storage.volume_amounts.insert(user, volume),
                ..self.storage
            },
        )
    }

    /// What [`check_and_update_daily_volume`] answers.
    pub open spec fn volume_update_check(self, user: Address, amount: i128) -> Result<
        (),
        BrazaError,
    > {
        if amount <= 0 {
            Err(BrazaError::InvalidAmount)
        } else if self.daily_volume(user) + amount > i128::MAX {
            Err(BrazaError::InvalidAmount)
        } else if self.daily_volume(user) + amount > self.daily_limit(user) {
            Err(BrazaError::Unauthorized)
        } else {
            Ok(())
        }
    }

    /// What [`is_fully_compliant`] answers.
    pub open spec fn fully_compliant(self, user: Address) -> bool {
        &&& !self.storage.blacklisted(user)
        &&& self.kyc_level(user) >= 2
        &&& self.country_check(user) is Ok
        &&& self.risk_score(user) < 50
    }
}

/// Succeeds exactly when `admin` has authorized the call and is the
/// administrator.
pub fn require_admin_auth(env: &Env, admin: Address) -> (r: Result<(), BrazaError>)
    ensures
        r == env@.admin_check(admin),
{
    require_auth(env, admin)?;
    validation::require_admin(env, admin)?;
    Ok(())
}

/// Puts the tier of `user` on file, with the current tick as the time of
/// the update. Fails with `Unauthorized` unless
/// `admin` authorized the call and is the administrator, and with
/// `InvalidAmount` unless `level` is one, two or three.
pub fn set_kyc_level(env: &mut Env, admin: Address, user: Address, level: u32) -> (r: Result<
    (),
    BrazaError,
>)
    ensures
        r == old(env)@.kyc_update_check(admin, level),
        final(env)@ == (if r is Ok {
            old(env)@.put_kyc_level(user, level).emit(Event::KycSet { user, level })
        } else {
            old(env)@
        }),
{
    require_admin_auth(env, admin)?;
    validation::validate_kyc_level_value(level)?;
    let now = env.ledger_sequence;
    env.storage.kyc_levels.insert(user, level);
    env.storage.kyc_timestamps.insert(user, now);
    env.events.push(Event::KycSet { user, level });
    Ok(())
}

/// The tier on file for `user`; zero where none is.
pub fn get_kyc_level(env: &Env, user: Address) -> (l: u32)
    ensures
        l == env@.kyc_level(user),
{
    match env.storage.kyc_levels.get(&user) {
        Some(v) => *v,
        None => 0,
    }
}

/// Fails with `Unauthorized` exactly when the tier of `user` is below
/// `min`.
pub fn require_kyc_level(env: &Env, user: Address, min: u32) -> (r: Result<(), BrazaError>)
    ensures
        r == env@.kyc_check(user, min),
{
    let lvl = get_kyc_level(env, user);
    if lvl < min {
        return Err(BrazaError::Unauthorized);
    }
    Ok(())
}

/// Marks `investor` as accredited or not, with the current tick as the
/// time of the update. Fails with `Unauthorized` unless
/// `admin` authorized the call and is the administrator; to be marked
/// accredited, `investor` must also be of the highest tier and of an
/// allowed country.
pub fn set_accredited_investor(
    env: &mut Env,
    admin: Address,
    investor: Address,
    accredited: bool,
) -> (r: Result<(), BrazaError>)
    ensures
        r == (if old(env)@.admin_check(admin) is Err {
            Err::<(), BrazaError>(BrazaError::Unauthorized)
        } else if accredited && (old(env)@.kyc_level(investor) < 3 || old(env)@.country_check(
            investor,
        ) is Err) {
            Err(BrazaError::Unauthorized)
        } else {
            Ok(())
        }),
        final(env)@ == (if r is Ok {
            old(env)@.put_accredited(investor, accredited).emit(
                Event::AccreditedSet { investor, accredited },
            )
        } else {
            old(env)@
        }),
{
    require_admin_auth(env, admin)?;
    if accredited {
        require_kyc_level(env, investor, 3)?;
        require_country_allowed(env, investor)?;
    }
    let now = env.ledger_sequence;
    env.storage.accredited.insert(investor, accredited);
    env.storage.accredited_timestamps.insert(investor, now);
    env.events.push(Event::AccreditedSet { investor, accredited });
    Ok(())
}

/// Whether `addr` is marked as accredited.
pub fn is_accredited_investor(env: &Env, addr: Address) -> (b: bool)
    ensures
        b == env@.accredited(addr),
{
    match env.storage.accredited.get(&addr) {
        Some(v) => *v,
        None => false,
    }
}

/// Puts the country code of `user` on file. Fails with `Unauthorized`
/// unless `admin` authorized the call and is the administrator, and with
/// `InvalidAmount` where `code` is empty.
pub fn set_country_code(env: &mut Env, admin: Address, user: Address, code: String) -> (r: Result<
    (),
    BrazaError,
>)
    ensures
        r == old(env)@.country_update_check(admin, code@),
        final(env)@ == (if r is Ok {
            old(env)@.put_country(user, code@).emit(Event::CountrySet { user, code })
        } else {
            old(env)@
        }),
{
    require_admin_auth(env, admin)?;
    if code.as_str().is_empty() {
        return Err(BrazaError::InvalidAmount);
    }
    let stored = code.clone();
    env.storage.countries.insert(user, stored);
    env.events.push(Event::CountrySet { user, code });
    proof {
        assert(env@.storage.countries =~= old(env)@.storage.countries.insert(user, code@));
    }
    Ok(())
}

/// The country code on file for `user`.
pub fn get_country_code(env: &Env, user: Address) -> (c: Option<String>)
    ensures
        match c {
            Some(code) => env@.country(user) == Some(code@),
            None => env@.country(user) is None,
        },
{
    match env.storage.countries.get(&user) {
        Some(code) => Some(code.clone()),
        None => None,
    }
}

/// Puts `code` on the list of blocked countries. Fails with
/// `Unauthorized` unless `admin` authorized the call and is the
/// administrator, and with `InvalidAmount` where `code` is empty.
pub fn add_blocked_country(env: &mut Env, admin: Address, code: String) -> (r: Result<
    (),
    BrazaError,
>)
    ensures
        r == old(env)@.country_update_check(admin, code@),
        final(env)@ == (if r is Ok {
            old(env)@.block_country(code@).emit(Event::CountryBlocked { code })
        } else {
            old(env)@
        }),
{
    require_admin_auth(env, admin)?;
    if code.as_str().is_empty() {
        return Err(BrazaError::InvalidAmount);
    }
    let stored = code.clone();
    env.storage.blocked_countries.push(stored);
    env.events.push(Event::CountryBlocked { code });
    proof {
        let before = old(env).storage.blocked_countries@;
        let after = env.storage.blocked_countries@;
        assert forall|c: Seq<char>| code_set(after).contains(c) <==> code_set(before).insert(
            code@,
        ).contains(c) by {
            if code_set(after).contains(c) {
                let i = choose|i: int| 0 <= i < after.len() && #[trigger] after[i]@ == c;
                if i < before.len() {
                    assert(before[i]@ == c);
                }
            }
            if code_set(before).contains(c) {
                let i = choose|i: int| 0 <= i < before.len() && #[trigger] before[i]@ == c;
                assert(after[i]@ == c);
            }
            if c == code@ {
                assert(after[before.len() as int]@ == c);
            }
        }
        assert(code_set(after) =~= code_set(before).insert(code@));
    }
    Ok(())
}

/// The entries of `codes` that differ from `code`, in their order.
fn without_code(codes: &Vec<String>, code: &String) -> (kept: Vec<String>)
    ensures
        code_set(kept@) == code_set(codes@).remove(code@),
{
    let mut kept: Vec<String> = Vec::new();
    let mut i: usize = 0;
    while i < codes.len()
        invariant
            0 <= i <= codes@.len(),
            forall|c: Seq<char>|
                code_set(kept@).contains(c) <==> (c != code@ && exists|j: int|
                    0 <= j < i && #[trigger] codes@[j]@ == c),
        decreases codes@.len() - i,
    {
        let ghost before = kept@;
        if codes[i] != *code {
            kept.push(codes[i].clone());
        }
        proof {
            let entry = codes@[i as int]@;
            assert forall|c: Seq<char>|
                code_set(kept@).contains(c) <==> (c != code@ && exists|j: int|
                    0 <= j < i + 1 && #[trigger] codes@[j]@ == c) by {
                if code_set(kept@).contains(c) {
                    let k = choose|k: int| 0 <= k < kept@.len() && #[trigger] kept@[k]@ == c;
                    if k < before.len() {
                        assert(before[k]@ == c);
                        assert(code_set(before).contains(c));
                        let j = choose|j: int| 0 <= j < i && #[trigger] codes@[j]@ == c;
                        assert(0 <= j < i + 1 && codes@[j]@ == c);
                    } else {
                        assert(codes@[i as int]@ == c);
                    }
                }
                if c != code@ && exists|j: int| 0 <= j < i + 1 && #[trigger] codes@[j]@ == c {
                    let j = choose|j: int| 0 <= j < i + 1 && #[trigger] codes@[j]@ == c;
                    if j < i {
                        assert(code_set(before).contains(c));
                        let k = choose|k: int|
                            0 <= k < before.len() && #[trigger] before[k]@ == c;
                        assert(kept@[k]@ == c);
                    } else {
                        assert(entry == c);
                        assert(kept@[before.len() as int]@ == c);
                    }
                }
            }
        }
        i += 1;
    }
    proof {
        assert forall|c: Seq<char>| code_set(kept@).contains(c) <==> code_set(codes@).remove(
            code@,
        ).contains(c) by {
            if code_set(codes@).contains(c) {
                let j = choose|j: int| 0 <= j < codes@.len() && #[trigger] codes@[j]@ == c;
                assert(0 <= j < i && codes@[j]@ == c);
            }
        }
        assert(code_set(kept@) =~= code_set(codes@).remove(code@));
    }
    kept
}

/// Takes `code` off the list of blocked countries. Fails with
/// `Unauthorized` unless `admin` authorized the call and is the
/// administrator.
pub fn remove_blocked_country(env: &mut Env, admin: Address, code: String) -> (r: Result<
    (),
    BrazaError,
>)
    ensures
        r == old(env)@.admin_check(admin),
        final(env)@ == (if r is Ok {
            old(env)@.unblock_country(code@).emit(Event::CountryUnblocked { code })
        } else {
            old(env)@
        }),
{
    require_admin_auth(env, admin)?;
    let kept = without_code(&env.storage.blocked_countries, &code);
    env.storage.blocked_countries = kept;
    env.events.push(Event::CountryUnblocked { code });
    Ok(())
}

/// Whether `code` is on the list of blocked countries.
pub fn is_country_blocked(env: &Env, code: String) -> (b: bool)
    ensures
        b == env@.storage.blocked_countries.contains(code@),
{
    let mut i: usize = 0;
    while i < env.storage.blocked_countries.len()
        invariant
            0 <= i <= env.storage.blocked_countries@.len(),
            forall|j: int| 0 <= j < i ==> #[trigger] env.storage.blocked_countries@[j]@ != code@,
        decreases env.storage.blocked_countries@.len() - i,
    {
        if env.storage.blocked_countries[i] == code {
            assert(env.storage.blocked_countries@[i as int]@ == code@);
            return true;
        }
        i += 1;
    }
    false
}

/// Succeeds exactly when a country code is on file for `user` that is
/// neither empty nor blocked; fails with `Unauthorized` otherwise.
pub fn require_country_allowed(env: &Env, user: Address) -> (r: Result<(), BrazaError>)
    ensures
        r == env@.country_check(user),
{
    match get_country_code(env, user) {
        Some(code) => {
            if code.as_str().is_empty() {
                return Err(BrazaError::Unauthorized);
            }
            if is_country_blocked(env, code) {
                return Err(BrazaError::Unauthorized);
            }
            Ok(())
        },
        None => Err(BrazaError::Unauthorized),
    }
}

/// Puts the risk score of `user` on file, with the current tick as the
/// time of the update; a score of
/// [`AUTO_BLACKLIST_RISK`] or more also puts `user` on the blacklist.
/// Fails with `Unauthorized` unless `admin` authorized the call and is
/// the administrator, and with `InvalidAmount` where `score` exceeds 100.
pub fn set_risk_score(env: &mut Env, admin: Address, user: Address, score: u32) -> (r: Result<
    (),
    BrazaError,
>)
    ensures
        r == old(env)@.risk_update_check(admin, score),
        final(env)@ == (if r is Ok {
            old(env)@.put_risk_score(user, score).emit(Event::RiskSet { user, score })
        } else {
            old(env)@
        }),
{
    require_admin_auth(env, admin)?;
    if score > 100 {
        return Err(BrazaError::InvalidAmount);
    }
    let now = env.ledger_sequence;
    env.storage.risk_scores.insert(user, score);
    env.storage.risk_timestamps.insert(user, now);
    if score >= AUTO_BLACKLIST_RISK {
        storage::set_blacklisted(env, user, true);
    }
    env.events.push(Event::RiskSet { user, score });
    Ok(())
}

/// The risk score on file for `user`; zero where none is.
pub fn get_risk_score(env: &Env, user: Address) -> (s: u32)
    ensures
        s == env@.risk_score(user),
{
    match env.storage.risk_scores.get(&user) {
        Some(v) => *v,
        None => 0,
    }
}

/// Fails with `Unauthorized` exactly when the risk score of `user`
/// exceeds `max`.
pub fn require_acceptable_risk(env: &Env, user: Address, max: u32) -> (r: Result<(), BrazaError>)
    ensures
        r == env@.risk_check(user, max),
{
    let score = get_risk_score(env, user);
    if score > max {
        return Err(BrazaError::Unauthorized);
    }
    Ok(())
}

/// Sets what `user` may move in one day. Fails with `Unauthorized` unless
/// `admin` authorized the call and is the administrator, and with
/// `InvalidAmount` unless `limit` is positive.
pub fn set_daily_limit(env: &mut Env, admin: Address, user: Address, limit: i128) -> (r: Result<
    (),
    BrazaError,
>)
    ensures
        r == old(env)@.limit_update_check(admin, limit),
        final(env)@ == (if r is Ok {
            old(env)@.put_daily_limit(user, limit).emit(Event::DailyLimitSet { user, limit })
        } else {
            old(env)@
        }),
{
    require_admin_auth(env, admin)?;
    if limit <= 0 {
        return Err(BrazaError::InvalidAmount);
    }
    env.storage.daily_limits.insert(user, limit);
    env.events.push(Event::DailyLimitSet { user, limit });
    Ok(())
}

/// What `user` may move in one day; unbounded where no cap is set.
pub fn get_daily_limit(env: &Env, user: Address) -> (l: i128)
    ensures
        l == env@.daily_limit(user),
{
    match env.storage.daily_limits.get(&user) {
        Some(v) => *v,
        None => i128::MAX,
    }
}

/// Adds `amount` to what `user` has moved during the current day; a new
/// day starts from `amount` alone. Fails with `InvalidAmount` unless
/// `amount` is positive and the new volume fits an amount, and with
/// `Unauthorized` where the new volume exceeds the daily cap.
pub fn check_and_update_daily_volume(env: &mut Env, user: Address, amount: i128) -> (r: Result<
    (),
    BrazaError,
>)
    ensures
        r == old(env)@.volume_update_check(user, amount),
        final(env)@ == (if r is Ok {
            old(env)@.put_daily_volume(user, (old(env)@.daily_volume(user) + amount) as i128)
        } else {
            old(env)@
        }),
{
    validation::require_positive_amount(amount)?;
    let now = env.ledger_sequence;
    let today = now / LEDGERS_PER_DAY;
    let current = get_daily_volume(env, user);
    let volume = match current.checked_add(amount) {
        Some(v) => v,
        None => {
            return Err(BrazaError::InvalidAmount);
        },
    };
    let limit = get_daily_limit(env, user);
    if volume > limit {
        return Err(BrazaError::Unauthorized);
    }
    env.storage.volume_days.insert(user, today);
    env.storage.volume_amounts.insert(user, volume);
    Ok(())
}

/// What `user` has moved during the current day.
pub fn get_daily_volume(env: &Env, user: Address) -> (v: i128)
    ensures
        v == env@.daily_volume(user),
{
    let now = env.ledger_sequence;
    let today = now / LEDGERS_PER_DAY;
    let last_day: u32 = match env.storage.volume_days.get(&user) {
        Some(d) => *d,
        None => 0,
    };
    if last_day == today {
        match env.storage.volume_amounts.get(&user) {
            Some(v) => *v,
            None => 0,
        }
    } else {
        0
    }
}

/// Whether `user` is not blacklisted, of the second tier at least, of an
/// allowed country and of a risk score below 50.
pub fn is_fully_compliant(env: &Env, user: Address) -> (b: bool)
    ensures
        b == env@.fully_compliant(user),
{
    if storage::is_blacklisted(env, user) {
        return false;
    }
    if get_kyc_level(env, user) < 2 {
        return false;
    }
    if require_country_allowed(env, user).is_err() {
        return false;
    }
    if get_risk_score(env, user) >= 50 {
        return false;
    }
    true
}

/// Holds `user` to the policy: not blacklisted (else `Blacklisted`),
/// country allowed, tier at least `min_kyc`, risk at most `max_risk` (else
/// `Unauthorized`) and, where an amount is given, the daily cap.
pub fn evaluate(env: &Env, user: Address, amount: Option<i128>, min_kyc: u32, max_risk: u32) -> (r:
    Result<(), BrazaError>)
    ensures
        r == env@.evaluate(user, amount, min_kyc, max_risk),
{
    validation::require_not_blacklisted(env, user)?;
    require_country_allowed(env, user)?;
    require_kyc_level(env, user, min_kyc)?;
    require_acceptable_risk(env, user, max_risk)?;
    match amount {
        Some(a) => validation::require_daily_volume_limit(env, user, a),
        None => Ok(()),
    }
}

} // verus!
