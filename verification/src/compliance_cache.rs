//! A snapshot of one principal's compliance profile, and the policy held
//! against such a snapshot.

use vstd::prelude::*;
use crate::compliance::{get_country_code, get_kyc_level, get_risk_score, is_country_blocked};
use crate::env::{Env, EnvView};
use crate::storage;
use crate::types::{Address, BrazaError};

verus! {

/// What is on file for one principal at one tick.
#[derive(Clone, Debug, PartialEq, Eq)]
pub struct ComplianceCache {
    pub kyc_level: u32,
    pub risk_score: u32,
    pub is_blacklisted: bool,
    pub country_code: Option<String>,
    pub cached_at_ledger: u32,
}

impl ComplianceCache {
    /// The text of the country code, where one is on file.
    pub open spec fn country(self) -> Option<Seq<char>> {
        match self.country_code {
            Some(code) => Some(code@),
            None => None,
        }
    }

    /// Whether the snapshot holds what is on file for `user` in `env`.
    pub open spec fn reflects(self, env: EnvView, user: Address) -> bool {
        &&& self.kyc_level == env.kyc_level(user)
        &&& self.risk_score == env.risk_score(user)
        &&& self.is_blacklisted == env.storage.blacklisted(user)
        &&& self.country() == env.country(user)
        &&& self.cached_at_ledger == env.ledger_sequence
    }

    /// The policy on a snapshot: not blacklisted (else `Blacklisted`), a
    /// country code that is neither empty nor in `blocked`, a tier of at
    /// least `min_kyc` and a risk of at most `max_risk` (else
    /// `Unauthorized`).
    pub open spec fn verdict(self, blocked: Set<Seq<char>>, min_kyc: u32, max_risk: u32) -> Result<
        (),
        BrazaError,
    > {
        if self.is_blacklisted {
            Err(BrazaError::Blacklisted)
        } else if self.country() is None || self.country().unwrap().len() == 0 || blocked.contains(
            self.country().unwrap(),
        ) {
            Err(BrazaError::Unauthorized)
        } else if self.kyc_level < min_kyc {
            Err(BrazaError::Unauthorized)
        } else if self.risk_score > max_risk {
            Err(BrazaError::Unauthorized)
        } else {
            Ok(())
        }
    }
}

/// Reads what is on file for `user` at the current tick.
pub fn read_profile(env: &Env, user: Address) -> (cache: ComplianceCache)
    ensures
        cache.reflects(env@, user),
{
    ComplianceCache {
        kyc_level: get_kyc_level(env, user),
        risk_score: get_risk_score(env, user),
        is_blacklisted: storage::is_blacklisted(env, user),
        country_code: get_country_code(env, user),
        cached_at_ledger: env.ledger_sequence,
    }
}

/// Holds a snapshot to the policy, against the countries blocked in
/// `env`.
pub fn validate_cached_values(
    env: &Env,
    cache: &ComplianceCache,
    min_kyc: u32,
    max_risk: u32,
) -> (r: Result<(), BrazaError>)
    ensures
        r == cache.verdict(env@.storage.blocked_countries, min_kyc, max_risk),
{
    if cache.is_blacklisted {
        return Err(BrazaError::Blacklisted);
    }
    match &cache.country_code {
        Some(code) => {
            if code.as_str().is_empty() {
                return Err(BrazaError::Unauthorized);
            }
            if is_country_blocked(env, code.clone()) {
                return Err(BrazaError::Unauthorized);
            }
        },
        None => {
            return Err(BrazaError::Unauthorized);
        },
    }
    if cache.kyc_level < min_kyc {
        return Err(BrazaError::Unauthorized);
    }
    if cache.risk_score > max_risk {
        return Err(BrazaError::Unauthorized);
    }
    Ok(())
}

/// Holds `user` to the policy on what is on file at the current tick;
/// the answer is that of the policy without an amount.
pub fn validate_with_cache(env: &Env, user: Address, min_kyc: u32, max_risk: u32) -> (r: Result<
    (),
    BrazaError,
>)
    ensures
        r == env@.evaluate(user, None, min_kyc, max_risk),
{
    let cache = read_profile(env, user);
    validate_cached_values(env, &cache, min_kyc, max_risk)
}

} // verus!
