use braza_token::env::Env;
use braza_token::token::BrazaToken;
use braza_token::types::Address;

#[allow(dead_code)]
struct TestEnv {
    env: Env,
    admin: Address,
    next: Address,
}

#[allow(dead_code)]
impl TestEnv {
    fn new() -> Self {
        let mut env = Env::new();
        let admin: Address = 1;
        env.authorize(admin);
        BrazaToken::initialize(
            &mut env,
            admin,
            String::from("Braza Token"),
            String::from("BRZ"),
        )
        .unwrap();
        TestEnv {
            env,
            admin,
            next: 2,
        }
    }

    fn generate(&mut self) -> Address {
        let who = self.next;
        self.next += 1;
        self.env.authorize(who);
        who
    }

    fn create_compliant_user(&mut self) -> Address {
        let user = self.generate();
        let admin = self.admin;
        BrazaToken::set_country_code(&mut self.env, admin, user, String::from("BR")).unwrap();
        BrazaToken::set_kyc_level(&mut self.env, admin, user, 2).unwrap();
        BrazaToken::set_risk_score(&mut self.env, admin, user, 0).unwrap();
        user
    }

    fn mock_no_auths(&mut self) {
        self.env.clear_authorizations();
    }

    fn mock_all_auths(&mut self) {
        for who in 1..self.next {
            self.env.authorize(who);
        }
    }

    fn advance_ledger(&mut self, ledgers: u32) {
        let now = self.env.ledger_sequence;
        self.env.set_sequence(now + ledgers);
    }
}
use braza_token::compliance::{self, KYCLevel};
use braza_token::compliance_cache::{read_profile, validate_cached_values, validate_with_cache};
use braza_token::env::{is_authorized, require_auth};
use braza_token::storage::{self, Flag};
use braza_token::types::{BrazaError, Event, TokenMetadata, VestingSchedule};
use braza_token::validation;
use braza_token::vesting;
use braza_token::admin;

fn schedule(total: i128, released: i128, start: u32, cliff: u32, duration: u32) -> VestingSchedule {
    VestingSchedule {
        beneficiary: 5,
        total_amount: total,
        released_amount: released,
        start_ledger: start,
        cliff_ledgers: cliff,
        duration_ledgers: duration,
        revocable: true,
        revoked: false,
    }
}

fn vested_at(s: &VestingSchedule, now: u32) -> i128 {
    let mut env = Env::new();
    env.set_sequence(now);
    vesting::calculate_vested_amount(&env, s)
}

fn releasable_at(s: &VestingSchedule, now: u32) -> i128 {
    let mut env = Env::new();
    env.set_sequence(now);
    vesting::calculate_releasable_amount(&env, s)
}

#[test]
fn vested_amount_values() {
    let s = schedule(1000, 0, 10, 100, 1000);
    assert_eq!(vested_at(&s, 0), 0);
    assert_eq!(vested_at(&s, 10), 0);
    assert_eq!(vested_at(&s, 109), 0);
    assert_eq!(vested_at(&s, 110), 100);
    assert_eq!(vested_at(&s, 510), 500);
    assert_eq!(vested_at(&s, 1009), 999);
    assert_eq!(vested_at(&s, 1010), 1000);
    assert_eq!(vested_at(&s, u32::MAX), 1000);

    // Rounded down.
    let thirds = schedule(1000, 0, 0, 0, 3);
    assert_eq!(vested_at(&thirds, 0), 0);
    assert_eq!(vested_at(&thirds, 1), 333);
    assert_eq!(vested_at(&thirds, 2), 666);
    assert_eq!(vested_at(&thirds, 3), 1000);
    let owed = schedule(-10, 0, 0, 0, 3);
    assert_eq!(vested_at(&owed, 1), -4);
    assert_eq!(vested_at(&owed, 2), -7);
    let one_short = schedule(-9, 0, 0, 0, 3);
    assert_eq!(vested_at(&one_short, 1), -3);

    // A product that does not fit counts as nothing.
    let huge = schedule(i128::MAX, 0, 0, 0, 10);
    assert_eq!(vested_at(&huge, 1), i128::MAX / 10);
    assert_eq!(vested_at(&huge, 2), 0);
    assert_eq!(vested_at(&huge, 10), i128::MAX);
}

#[test]
fn vested_amount_is_monotonic_on_samples() {
    let s = schedule(123_456_789, 0, 7, 30, 977);
    let mut last = 0;
    for now in 0..1100 {
        let v = vested_at(&s, now);
        assert!(v >= last);
        assert!(v <= s.total_amount);
        if now < 37 {
            assert_eq!(v, 0);
        }
        if now >= 7 + 977 {
            assert_eq!(v, s.total_amount);
        }
        last = v;
    }
}

#[test]
fn releasable_amount_values() {
    let mut s = schedule(1000, 200, 0, 100, 1000);
    assert_eq!(releasable_at(&s, 50), 0);
    assert_eq!(releasable_at(&s, 150), 0);
    assert_eq!(releasable_at(&s, 200), 0);
    assert_eq!(releasable_at(&s, 500), 300);
    assert_eq!(releasable_at(&s, 2000), 800);
    s.revoked = true;
    assert_eq!(vested_at(&s, 2000), 200);
    assert_eq!(releasable_at(&s, 500), 0);
    assert_eq!(releasable_at(&s, 2000), 0);
    // Differences that do not fit are held at the nearest amount.
    let odd = schedule(i128::MAX, -10, 0, 0, 1);
    assert_eq!(releasable_at(&odd, 5), i128::MAX);
}

#[test]
fn vesting_state_changes() {
    let mut env = Env::new();
    env.set_sequence(20);
    assert_eq!(
        vesting::create_vesting_schedule(&mut env, 5, 1000, 10, 100, true),
        Ok(1)
    );
    assert_eq!(storage::get_vesting_count(&env, 5), 1);
    assert_eq!(storage::get_last_vesting_creation_time(&env, 5), Some(20));
    assert_eq!(
        storage::get_vesting_schedule(&env, 5, 1),
        Some(schedule(1000, 0, 20, 10, 100))
    );
    assert_eq!(storage::get_vesting_schedule(&env, 5, 0), None);
    assert_eq!(
        vesting::create_vesting_schedule(&mut env, 5, 1000, 10, 100, true),
        Err(BrazaError::VestingCooldownActive)
    );
    assert_eq!(
        vesting::release_vested_tokens(&mut env, 5, 1),
        Err(BrazaError::NoTokensToRelease)
    );
    assert_eq!(
        vesting::release_vested_tokens(&mut env, 5, 2),
        Err(BrazaError::VestingNotFound)
    );
    env.set_sequence(70);
    assert_eq!(vesting::release_vested_tokens(&mut env, 5, 1), Ok(500));
    assert_eq!(
        storage::get_vesting_schedule(&env, 5, 1).unwrap().released_amount,
        500
    );
    env.set_sequence(80);
    assert_eq!(vesting::revoke_vesting_schedule(&mut env, 5, 1), Ok(400));
    assert!(storage::get_vesting_schedule(&env, 5, 1).unwrap().revoked);
    assert_eq!(
        vesting::revoke_vesting_schedule(&mut env, 5, 1),
        Err(BrazaError::VestingNotFound)
    );
    assert_eq!(
        vesting::release_vested_tokens(&mut env, 5, 1),
        Err(BrazaError::NoTokensToRelease)
    );
    // The balances were not touched: the caller moves the funds.
    assert_eq!(storage::get_balance(&env, 5), 0);
    assert_eq!(storage::get_locked_balance(&env), 0);
}

#[test]
fn schedules_are_listed_by_rising_id() {
    let mut env = Env::new();
    assert!(storage::get_all_vesting_schedules(&env, 5).is_empty());
    assert_eq!(storage::create_test_vesting(&mut env, 5, 10, 0, 1, 2), Ok(0));
    assert_eq!(storage::create_test_vesting(&mut env, 5, 20, 0, 1, 2), Ok(1));
    assert_eq!(storage::create_test_vesting(&mut env, 6, 30, 0, 1, 2), Ok(0));
    let listed = storage::get_all_vesting_schedules(&env, 5);
    assert_eq!(listed.len(), 2);
    assert_eq!(listed[0].total_amount, 10);
    assert_eq!(listed[1].total_amount, 20);
    assert!(!listed[0].revocable);
    assert_eq!(storage::get_global_vesting_count(&env), 3);

    storage::remove_vesting_schedule(&mut env, 5, 0);
    assert_eq!(storage::get_all_vesting_schedules(&env, 5).len(), 1);
    storage::set_vesting_schedule(&mut env, 5, 2, &schedule(40, 0, 0, 0, 1));
    assert_eq!(storage::get_all_vesting_schedules(&env, 5).len(), 2);

    storage::clear_all_vestings(&mut env, 5);
    assert!(storage::get_all_vesting_schedules(&env, 5).is_empty());
    assert_eq!(storage::get_vesting_schedule(&env, 5, 2), None);
    assert_eq!(storage::get_vesting_count(&env, 5), 0);
    assert_eq!(storage::get_all_vesting_schedules(&env, 6).len(), 1);

    storage::cleanup_vesting_user(&mut env, 6);
    assert!(storage::get_all_vesting_schedules(&env, 6).is_empty());
    assert_eq!(storage::get_vesting_count(&env, 6), 0);

    storage::decrement_global_vesting_count(&mut env);
    assert_eq!(storage::get_global_vesting_count(&env), 2);
    storage::reset_global_state(&mut env);
    assert_eq!(storage::get_global_vesting_count(&env), 0);
    storage::decrement_global_vesting_count(&mut env);
    assert_eq!(storage::get_global_vesting_count(&env), 0);
}

#[test]
fn keys_keep_pairs_apart() {
    assert_ne!(
        storage::make_allowance_key(1, 2),
        storage::make_allowance_key(2, 1)
    );
    assert_eq!(storage::make_allowance_key(0, 7), 7);
    assert_eq!(storage::make_allowance_key(1, 0), 1u128 << 64);
    assert_eq!(
        storage::make_allowance_key(u64::MAX, u64::MAX),
        u128::MAX
    );
    assert_eq!(storage::make_vesting_key(1, 0), 1u128 << 32);
    assert_eq!(storage::make_vesting_key(0, u32::MAX), u32::MAX as u128);
    assert_ne!(
        storage::make_vesting_key(1, 0),
        storage::make_vesting_key(0, u32::MAX)
    );
}

#[test]
fn balances_and_pools() {
    let mut env = Env::new();
    assert_eq!(storage::add_balance(&mut env, 3, 40), Ok(()));
    assert_eq!(storage::add_balance(&mut env, 3, 2), Ok(()));
    assert_eq!(storage::get_balance(&env, 3), 42);
    assert_eq!(
        storage::add_balance(&mut env, 3, i128::MAX),
        Err(BrazaError::OverflowError)
    );
    assert_eq!(
        storage::sub_balance(&mut env, 3, 43),
        Err(BrazaError::InsufficientBalance)
    );
    assert_eq!(storage::sub_balance(&mut env, 3, 42), Ok(()));
    assert_eq!(storage::get_balance(&env, 3), 0);
    assert_eq!(
        storage::sub_balance(&mut env, 3, i128::MIN),
        Err(BrazaError::OverflowError)
    );
    storage::set_balance(&mut env, 3, 9);
    storage::cleanup_balance(&mut env, 3);
    assert_eq!(storage::get_balance(&env, 3), 0);

    storage::add_to_storage_fee_pool(&mut env, storage::VESTING_STORAGE_FEE);
    assert_eq!(storage::get_storage_fee_pool(&env), 1_000_000);
    storage::add_to_storage_fee_pool(&mut env, i128::MAX);
    assert_eq!(storage::get_storage_fee_pool(&env), 1_000_000);
    assert_eq!(
        storage::withdraw_from_storage_fee_pool(&mut env, 1_000_001),
        Err(BrazaError::InsufficientBalance)
    );
    assert_eq!(storage::withdraw_from_storage_fee_pool(&mut env, 400_000), Ok(()));
    assert_eq!(storage::get_storage_fee_pool(&env), 600_000);

    assert_eq!(storage::increment_locked_balance(&mut env, 70), Ok(70));
    assert_eq!(storage::decrement_locked_balance(&mut env, 30), Ok(40));
    assert_eq!(
        storage::decrement_locked_balance(&mut env, 41),
        Err(BrazaError::InsufficientBalance)
    );
    storage::set_total_supply(&mut env, i128::MAX);
    storage::set_locked_balance(&mut env, -1);
    assert_eq!(storage::get_circulating_supply(&env), i128::MAX);
    storage::set_total_supply(&mut env, i128::MIN);
    storage::set_locked_balance(&mut env, 1);
    assert_eq!(storage::get_circulating_supply(&env), i128::MIN);
}

#[test]
fn flags_admin_and_metadata() {
    let mut env = Env::new();
    assert!(!storage::has_admin(&env));
    assert_eq!(storage::ensure_admin(&env, 1), Err(BrazaError::Unauthorized));
    storage::set_admin(&mut env, 1);
    assert!(storage::has_admin(&env));
    assert_eq!(storage::get_admin(&env), 1);
    assert_eq!(storage::ensure_admin(&env, 1), Ok(()));
    assert_eq!(storage::ensure_admin(&env, 2), Err(BrazaError::Unauthorized));
    assert_eq!(validation::require_admin(&env, 2), Err(BrazaError::Unauthorized));
    assert_eq!(validation::require_admin(&env, 1), Ok(()));

    assert!(!storage::get_bool(&env, Flag::Paused));
    storage::set_bool(&mut env, Flag::Paused, true);
    assert!(storage::is_paused(&env));
    assert!(!storage::is_reentrancy_locked(&env));
    assert_eq!(storage::assert_not_paused(&env), Err(BrazaError::Paused));
    assert_eq!(validation::require_not_paused(&env), Err(BrazaError::Paused));
    storage::set_paused(&mut env, false);
    assert_eq!(storage::assert_not_paused(&env), Ok(()));
    storage::set_bool(&mut env, Flag::ReentrancyLock, true);
    assert!(storage::get_bool(&env, Flag::ReentrancyLock));
    assert!(!storage::get_bool(&env, Flag::Paused));

    let meta = TokenMetadata {
        name: String::from("N"),
        symbol: String::from("S"),
        decimals: 7,
    };
    storage::set_metadata(&mut env, meta.clone());
    assert_eq!(storage::get_metadata(&env), meta);

    env.set_sequence(77);
    assert_eq!(storage::ledger_seq(&env), 77);
    storage::emit_balance_event(&mut env, 4, -3);
    storage::emit_admin_event(&mut env, 1);
    assert_eq!(
        env.events,
        vec![
            Event::BalanceChanged { user: 4, amount: -3 },
            Event::AdminSet { admin: 1 }
        ]
    );
}

#[test]
fn authorization() {
    let mut env = Env::new();
    assert!(!is_authorized(&env, 1));
    assert_eq!(require_auth(&env, 1), Err(BrazaError::Unauthorized));
    env.authorize(1);
    env.authorize(3);
    assert!(is_authorized(&env, 1));
    assert!(!is_authorized(&env, 2));
    assert_eq!(require_auth(&env, 3), Ok(()));
    env.clear_authorizations();
    assert!(!is_authorized(&env, 3));

    assert_eq!(
        admin::require_admin_authorized(&env),
        Err(BrazaError::Unauthorized)
    );
    storage::set_admin(&mut env, 3);
    assert_eq!(
        admin::require_admin_authorized(&env),
        Err(BrazaError::Unauthorized)
    );
    env.authorize(3);
    assert_eq!(admin::require_admin_authorized(&env), Ok(3));
    assert_eq!(compliance::require_admin_auth(&env, 3), Ok(()));
    env.authorize(4);
    assert_eq!(
        compliance::require_admin_auth(&env, 4),
        Err(BrazaError::Unauthorized)
    );
}

#[test]
fn validation_values() {
    assert_eq!(validation::require_positive_amount(1), Ok(()));
    assert_eq!(
        validation::require_positive_amount(0),
        Err(BrazaError::InvalidAmount)
    );
    assert_eq!(
        validation::require_positive_amount(-1),
        Err(BrazaError::InvalidAmount)
    );
    for level in [1, 2, 3] {
        assert_eq!(validation::validate_kyc_level_value(level), Ok(()));
    }
    for level in [0, 4, u32::MAX] {
        assert_eq!(
            validation::validate_kyc_level_value(level),
            Err(BrazaError::InvalidAmount)
        );
    }
    assert_eq!(validation::require_valid_vesting_params(1_000, 5, 5), Ok(()));
    assert_eq!(storage::MIN_VESTING_AMOUNT, 1_000);
    assert_eq!(
        validation::require_valid_vesting_params(-1, 6, 5),
        Err(BrazaError::InvalidAmount)
    );
    assert_eq!(
        validation::require_valid_vesting_params(1, 0, 0),
        Err(BrazaError::InvalidVestingParams)
    );
    assert_eq!(
        validation::require_valid_vesting_params(1, 6, 5),
        Err(BrazaError::InvalidVestingParams)
    );
    assert_eq!(
        validation::require_valid_vesting_params(999, 5, 5),
        Err(BrazaError::VestingAmountTooLow)
    );

    let mut env = Env::new();
    storage::set_total_supply(&mut env, storage::MAX_SUPPLY - 5);
    assert_eq!(validation::require_max_supply_not_exceeded(&env, 5), Ok(()));
    assert_eq!(
        validation::require_max_supply_not_exceeded(&env, 6),
        Err(BrazaError::MaxSupplyExceeded)
    );
    assert_eq!(
        validation::require_max_supply_not_exceeded(&env, i128::MAX),
        Err(BrazaError::MaxSupplyExceeded)
    );
    storage::set_balance(&mut env, 2, 10);
    assert_eq!(validation::require_sufficient_balance(&env, 2, 10), Ok(()));
    assert_eq!(
        validation::require_sufficient_balance(&env, 2, 11),
        Err(BrazaError::InsufficientBalance)
    );
    storage::set_blacklisted(&mut env, 2, true);
    assert_eq!(
        validation::require_not_blacklisted(&env, 2),
        Err(BrazaError::Blacklisted)
    );
    assert_eq!(validation::require_not_blacklisted(&env, 3), Ok(()));
}

#[test]
fn compliance_setters_and_policy() {
    let mut t = TestEnv::new();
    let admin = t.admin;
    let user = t.generate();
    t.env.take_events();

    assert_eq!(KYCLevel::Unverified.level(), 0);
    assert_eq!(KYCLevel::Basic.level(), 1);
    assert_eq!(KYCLevel::Intermediate.level(), 2);
    assert_eq!(KYCLevel::Advanced.level(), 3);

    // Only the administrator, and only with its authorization.
    assert_eq!(
        compliance::set_kyc_level(&mut t.env, user, user, 2),
        Err(BrazaError::Unauthorized)
    );
    assert_eq!(
        compliance::set_risk_score(&mut t.env, user, user, 2),
        Err(BrazaError::Unauthorized)
    );
    assert_eq!(
        compliance::set_daily_limit(&mut t.env, user, user, 2),
        Err(BrazaError::Unauthorized)
    );
    assert_eq!(
        compliance::set_country_code(&mut t.env, user, user, String::from("BR")),
        Err(BrazaError::Unauthorized)
    );
    assert_eq!(
        compliance::add_blocked_country(&mut t.env, user, String::from("BR")),
        Err(BrazaError::Unauthorized)
    );
    assert_eq!(
        compliance::remove_blocked_country(&mut t.env, user, String::from("BR")),
        Err(BrazaError::Unauthorized)
    );
    assert_eq!(
        compliance::set_accredited_investor(&mut t.env, user, user, false),
        Err(BrazaError::Unauthorized)
    );
    assert!(t.env.events.is_empty());

    // The policy, rule by rule, in its order.
    assert_eq!(
        compliance::evaluate(&t.env, user, None, 2, 50),
        Err(BrazaError::Unauthorized)
    );
    assert_eq!(
        compliance::require_country_allowed(&t.env, user),
        Err(BrazaError::Unauthorized)
    );
    compliance::set_country_code(&mut t.env, admin, user, String::from("AR")).unwrap();
    assert_eq!(
        compliance::get_country_code(&t.env, user),
        Some(String::from("AR"))
    );
    assert_eq!(compliance::require_country_allowed(&t.env, user), Ok(()));
    assert_eq!(validation::require_country_allowed(&t.env, user), Ok(()));
    assert_eq!(
        compliance::evaluate(&t.env, user, None, 2, 50),
        Err(BrazaError::Unauthorized)
    );
    assert_eq!(compliance::evaluate(&t.env, user, None, 0, 50), Ok(()));
    compliance::set_kyc_level(&mut t.env, admin, user, 2).unwrap();
    assert_eq!(compliance::get_kyc_level(&t.env, user), 2);
    assert_eq!(compliance::require_kyc_level(&t.env, user, 2), Ok(()));
    assert_eq!(
        validation::require_kyc_level(&t.env, user, 3),
        Err(BrazaError::Unauthorized)
    );
    assert_eq!(compliance::evaluate(&t.env, user, None, 2, 50), Ok(()));
    assert!(compliance::is_fully_compliant(&t.env, user));

    compliance::set_risk_score(&mut t.env, admin, user, 50).unwrap();
    assert_eq!(compliance::get_risk_score(&t.env, user), 50);
    assert_eq!(compliance::evaluate(&t.env, user, None, 2, 50), Ok(()));
    assert_eq!(validate_with_cache(&t.env, user, 2, 50), Ok(()));
    assert!(!compliance::is_fully_compliant(&t.env, user));
    assert_eq!(
        compliance::evaluate(&t.env, user, None, 2, 49),
        Err(BrazaError::Unauthorized)
    );
    assert_eq!(
        validation::require_acceptable_risk(&t.env, user, 49),
        Err(BrazaError::Unauthorized)
    );
    assert_eq!(compliance::require_acceptable_risk(&t.env, user, 50), Ok(()));

    compliance::add_blocked_country(&mut t.env, admin, String::from("AR")).unwrap();
    compliance::add_blocked_country(&mut t.env, admin, String::from("XX")).unwrap();
    compliance::add_blocked_country(&mut t.env, admin, String::from("AR")).unwrap();
    assert!(compliance::is_country_blocked(&t.env, String::from("AR")));
    assert!(!compliance::is_country_blocked(&t.env, String::from("ar")));
    assert_eq!(
        compliance::evaluate(&t.env, user, None, 2, 50),
        Err(BrazaError::Unauthorized)
    );
    assert_eq!(
        validate_with_cache(&t.env, user, 2, 50),
        Err(BrazaError::Unauthorized)
    );
    compliance::remove_blocked_country(&mut t.env, admin, String::from("AR")).unwrap();
    assert!(!compliance::is_country_blocked(&t.env, String::from("AR")));
    assert!(compliance::is_country_blocked(&t.env, String::from("XX")));
    assert_eq!(compliance::evaluate(&t.env, user, None, 2, 50), Ok(()));

    // The blacklist comes first.
    storage::set_blacklisted(&mut t.env, user, true);
    compliance::set_kyc_level(&mut t.env, admin, user, 1).unwrap();
    assert_eq!(
        compliance::evaluate(&t.env, user, None, 2, 50),
        Err(BrazaError::Blacklisted)
    );
    assert_eq!(
        validate_with_cache(&t.env, user, 2, 50),
        Err(BrazaError::Blacklisted)
    );
    assert!(!compliance::is_fully_compliant(&t.env, user));
}

#[test]
fn profile_snapshot() {
    let mut t = TestEnv::new();
    let admin = t.admin;
    let user = t.create_compliant_user();
    compliance::set_risk_score(&mut t.env, admin, user, 12).unwrap();
    t.env.set_sequence(9);
    let mut cache = read_profile(&t.env, user);
    assert_eq!(cache.kyc_level, 2);
    assert_eq!(cache.risk_score, 12);
    assert!(!cache.is_blacklisted);
    assert_eq!(cache.country_code, Some(String::from("BR")));
    assert_eq!(cache.cached_at_ledger, 9);
    assert_eq!(validate_cached_values(&t.env, &cache, 2, 12), Ok(()));
    assert_eq!(
        validate_cached_values(&t.env, &cache, 3, 12),
        Err(BrazaError::Unauthorized)
    );
    assert_eq!(
        validate_cached_values(&t.env, &cache, 2, 11),
        Err(BrazaError::Unauthorized)
    );
    cache.country_code = Some(String::new());
    assert_eq!(
        validate_cached_values(&t.env, &cache, 2, 12),
        Err(BrazaError::Unauthorized)
    );
    cache.country_code = None;
    assert_eq!(
        validate_cached_values(&t.env, &cache, 2, 12),
        Err(BrazaError::Unauthorized)
    );
    cache.is_blacklisted = true;
    assert_eq!(
        validate_cached_values(&t.env, &cache, 2, 12),
        Err(BrazaError::Blacklisted)
    );
}

#[test]
fn accredited_investors() {
    let mut t = TestEnv::new();
    let admin = t.admin;
    let user = t.create_compliant_user();
    assert!(!compliance::is_accredited_investor(&t.env, user));
    assert_eq!(
        compliance::set_accredited_investor(&mut t.env, admin, user, true),
        Err(BrazaError::Unauthorized)
    );
    compliance::set_kyc_level(&mut t.env, admin, user, 3).unwrap();
    assert_eq!(
        compliance::set_accredited_investor(&mut t.env, admin, user, true),
        Ok(())
    );
    assert!(compliance::is_accredited_investor(&t.env, user));
    let plain = t.generate();
    assert_eq!(
        compliance::set_accredited_investor(&mut t.env, admin, plain, false),
        Ok(())
    );
    assert!(!compliance::is_accredited_investor(&t.env, plain));
    assert_eq!(
        t.env.events.last(),
        Some(&Event::AccreditedSet { investor: plain, accredited: false })
    );
}

#[test]
fn daily_volume_bookkeeping() {
    let mut t = TestEnv::new();
    let admin = t.admin;
    let user = t.generate();
    assert_eq!(
        compliance::check_and_update_daily_volume(&mut t.env, user, 0),
        Err(BrazaError::InvalidAmount)
    );
    assert_eq!(
        compliance::check_and_update_daily_volume(&mut t.env, user, 5),
        Ok(())
    );
    assert_eq!(
        compliance::check_and_update_daily_volume(&mut t.env, user, i128::MAX),
        Err(BrazaError::InvalidAmount)
    );
    assert_eq!(compliance::get_daily_volume(&t.env, user), 5);
    compliance::set_daily_limit(&mut t.env, admin, user, 8).unwrap();
    assert_eq!(compliance::get_daily_limit(&t.env, user), 8);
    assert_eq!(
        compliance::check_and_update_daily_volume(&mut t.env, user, 4),
        Err(BrazaError::Unauthorized)
    );
    assert_eq!(
        validation::require_daily_volume_limit(&t.env, user, 4),
        Err(BrazaError::InvalidAmount)
    );
    assert_eq!(validation::require_daily_volume_limit(&t.env, user, 3), Ok(()));
    assert_eq!(
        validation::require_daily_volume_limit(&t.env, user, i128::MAX),
        Err(BrazaError::OverflowError)
    );
    assert_eq!(
        compliance::check_and_update_daily_volume(&mut t.env, user, 3),
        Ok(())
    );
    assert_eq!(compliance::get_daily_volume(&t.env, user), 8);
    t.env.set_sequence(compliance::LEDGERS_PER_DAY * 3 + 1);
    assert_eq!(compliance::get_daily_volume(&t.env, user), 0);
    assert_eq!(
        compliance::check_and_update_daily_volume(&mut t.env, user, 8),
        Ok(())
    );
    assert_eq!(compliance::get_daily_volume(&t.env, user), 8);
}

#[test]
fn forced_operations_without_the_guard() {
    let mut t = TestEnv::new();
    let a = t.create_compliant_user();
    let b = t.create_compliant_user();
    storage::set_balance(&mut t.env, a, 10);
    storage::set_balance(&mut t.env, b, i128::MAX);
    assert_eq!(
        admin::force_transfer(&mut t.env, a, b, 1),
        Err(BrazaError::InvalidAmount)
    );
    storage::set_balance(&mut t.env, b, 1);
    assert_eq!(admin::force_transfer(&mut t.env, a, b, 4), Ok(()));
    assert_eq!(storage::get_balance(&t.env, a), 6);
    assert_eq!(storage::get_balance(&t.env, b), 5);
    assert_eq!(admin::force_burn(&mut t.env, a, 6), Ok(()));
    assert_eq!(storage::get_balance(&t.env, a), 0);
    assert_eq!(
        storage::get_total_supply(&t.env),
        storage::INITIAL_SUPPLY - 6
    );
}

#[test]
fn profile_updates_are_timestamped() {
    let mut t = TestEnv::new();
    let admin = t.admin;
    let user = t.generate();
    // Initialization puts the administrator's tier and score on file
    // without a time of update.
    assert_eq!(t.env.storage.kyc_timestamps.get(&admin), None);
    assert_eq!(t.env.storage.risk_timestamps.get(&admin), None);

    t.env.set_sequence(11);
    compliance::set_kyc_level(&mut t.env, admin, user, 3).unwrap();
    t.env.set_sequence(12);
    compliance::set_risk_score(&mut t.env, admin, user, 5).unwrap();
    compliance::set_country_code(&mut t.env, admin, user, String::from("BR")).unwrap();
    t.env.set_sequence(13);
    compliance::set_accredited_investor(&mut t.env, admin, user, true).unwrap();
    assert_eq!(t.env.storage.kyc_timestamps.get(&user), Some(&11));
    assert_eq!(t.env.storage.risk_timestamps.get(&user), Some(&12));
    assert_eq!(t.env.storage.accredited_timestamps.get(&user), Some(&13));

    // A rejected update leaves the time of the last one.
    t.env.set_sequence(20);
    assert!(compliance::set_kyc_level(&mut t.env, admin, user, 4).is_err());
    assert!(compliance::set_risk_score(&mut t.env, admin, user, 101).is_err());
    assert_eq!(t.env.storage.kyc_timestamps.get(&user), Some(&11));
    assert_eq!(t.env.storage.risk_timestamps.get(&user), Some(&12));
    BrazaToken::set_risk_score(&mut t.env, admin, user, 6).unwrap();
    assert_eq!(t.env.storage.risk_timestamps.get(&user), Some(&20));
}
