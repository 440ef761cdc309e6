use braza_token::env::Env;
use braza_token::token::BrazaToken;
use braza_token::types::Address;

#[allow(dead_code)]
struct TestEnv {
    env: Env,
    admin: Address,
    next: Address,
}

#[allow(dead_code)]
impl TestEnv {
    fn new() -> Self {
        let mut env = Env::new();
        let admin: Address = 1;
        env.authorize(admin);
        BrazaToken::initialize(
            &mut env,
            admin,
            String::from("Braza Token"),
            String::from("BRZ"),
        )
        .unwrap();
        TestEnv {
            env,
            admin,
            next: 2,
        }
    }

    fn generate(&mut self) -> Address {
        let who = self.next;
        self.next += 1;
        self.env.authorize(who);
        who
    }

    fn create_compliant_user(&mut self) -> Address {
        let user = self.generate();
        let admin = self.admin;
        BrazaToken::set_country_code(&mut self.env, admin, user, String::from("BR")).unwrap();
        BrazaToken::set_kyc_level(&mut self.env, admin, user, 2).unwrap();
        BrazaToken::set_risk_score(&mut self.env, admin, user, 0).unwrap();
        user
    }

    fn mock_no_auths(&mut self) {
        self.env.clear_authorizations();
    }

    fn mock_all_auths(&mut self) {
        for who in 1..self.next {
            self.env.authorize(who);
        }
    }

    fn advance_ledger(&mut self, ledgers: u32) {
        let now = self.env.ledger_sequence;
        self.env.set_sequence(now + ledgers);
    }
}
use braza_token::types::BrazaError;

#[test]
fn test_metadata_and_stats() {
    let t = TestEnv::new();

    let name = BrazaToken::name(&t.env);
    let symbol = BrazaToken::symbol(&t.env);
    let decimals = BrazaToken::decimals(&t.env);

    assert_eq!(name, String::from("Braza Token"));
    assert_eq!(symbol, String::from("BRZ"));
    assert_eq!(decimals, 7);

    let total = BrazaToken::total_supply(&t.env);
    let locked = BrazaToken::get_locked_balance(&t.env);
    let circulating = BrazaToken::get_circulating_supply(&t.env);
    let (s_total, s_locked, s_circ, s_max) = BrazaToken::get_supply_stats(&t.env);

    assert_eq!(total, s_total);
    assert_eq!(locked, s_locked);
    assert_eq!(circulating, s_circ);
    assert!(s_max > 0);
    assert_eq!(s_total, s_circ + s_locked);
}

#[test]
fn test_pause_unpause_logic() {
    let mut t = TestEnv::new();
    t.mock_all_auths();
    let admin = t.admin;

    BrazaToken::set_country_code(&mut t.env, admin, admin, String::from("BR")).unwrap();
    BrazaToken::set_kyc_level(&mut t.env, admin, admin, 2).unwrap();
    BrazaToken::set_risk_score(&mut t.env, admin, admin, 0).unwrap();

    assert_eq!(BrazaToken::is_paused(&t.env), false);

    BrazaToken::pause(&mut t.env).unwrap();
    assert_eq!(BrazaToken::is_paused(&t.env), true);

    let user = t.create_compliant_user();
    let res = BrazaToken::transfer(&mut t.env, admin, user, 1000);
    assert!(res.is_err(), "Transferência deveria falhar quando pausado");
    assert_eq!(res, Err(BrazaError::Paused));

    BrazaToken::unpause(&mut t.env).unwrap();
    assert_eq!(BrazaToken::is_paused(&t.env), false);

    let res_ok = BrazaToken::transfer(&mut t.env, admin, user, 1000);
    assert!(res_ok.is_ok(), "Falhou com erro: {:?}", res_ok.err());
}

#[test]
fn test_blacklist_logic() {
    let mut t = TestEnv::new();
    t.mock_all_auths();
    let admin = t.admin;

    let user = t.create_compliant_user();

    assert_eq!(BrazaToken::is_blacklisted(&t.env, user), false);

    BrazaToken::set_blacklisted(&mut t.env, user, true).unwrap();
    assert_eq!(BrazaToken::is_blacklisted(&t.env, user), true);

    let res_send = BrazaToken::transfer(&mut t.env, admin, user, 1000);
    assert!(res_send.is_err());

    let res_from = BrazaToken::transfer(&mut t.env, user, admin, 1000);
    assert!(res_from.is_err());

    BrazaToken::set_blacklisted(&mut t.env, user, false).unwrap();
    assert_eq!(BrazaToken::is_blacklisted(&t.env, user), false);
}

#[test]
fn test_admin_ownership_cycle() {
    let mut t = TestEnv::new();
    t.mock_all_auths();
    let admin = t.admin;

    let old_admin = BrazaToken::get_admin(&t.env);
    assert_eq!(old_admin, t.admin);

    BrazaToken::transfer_ownership(&mut t.env, admin).unwrap();
    assert_eq!(BrazaToken::get_admin(&t.env), t.admin);

    let new_admin = t.generate();
    BrazaToken::transfer_ownership(&mut t.env, new_admin).unwrap();

    assert_eq!(BrazaToken::get_admin(&t.env), new_admin);
    assert_ne!(BrazaToken::get_admin(&t.env), old_admin);
}

#[test]
fn test_compliance_updates() {
    let mut t = TestEnv::new();
    t.mock_all_auths();
    let user = t.create_compliant_user();
    let admin = t.admin;

    BrazaToken::add_blocked_country(&mut t.env, admin, String::from("NK")).unwrap();
    BrazaToken::add_blocked_country(&mut t.env, admin, String::from("NK")).unwrap();

    BrazaToken::set_kyc_level(&mut t.env, admin, user, 2).unwrap();
    BrazaToken::set_daily_limit(&mut t.env, admin, user, 1_000_000).unwrap();
}

#[test]
fn test_burn_zero_and_invalid() {
    let mut t = TestEnv::new();
    t.mock_all_auths();
    let user = t.create_compliant_user();

    let res_zero = BrazaToken::burn(&mut t.env, user, 0);
    assert!(res_zero.is_err());

    let res_neg = BrazaToken::burn(&mut t.env, user, -100);
    assert!(res_neg.is_err());
}

#[test]
fn test_storage_vesting_operations() {
    let mut t = TestEnv::new();
    t.mock_all_auths();
    let user = t.create_compliant_user();

    let all_schedules = BrazaToken::get_all_vesting_schedules(&t.env, user);
    assert_eq!(all_schedules.len(), 0);

    let locked = BrazaToken::get_locked_balance(&t.env);
    assert!(locked >= 0);
}

#[test]
fn test_storage_balance_operations() {
    let mut t = TestEnv::new();
    t.mock_all_auths();
    let user = t.create_compliant_user();

    let initial_balance = BrazaToken::balance(&t.env, user);
    assert_eq!(initial_balance, 0);

    BrazaToken::mint(&mut t.env, user, 1000).unwrap();
    let balance = BrazaToken::balance(&t.env, user);
    assert_eq!(balance, 1000);
}

#[test]
fn test_storage_locked_balance() {
    let mut t = TestEnv::new();
    t.mock_all_auths();

    let locked = BrazaToken::get_locked_balance(&t.env);
    assert_eq!(locked, 0);
}

#[test]
fn test_compliance_country_blocking() {
    let mut t = TestEnv::new();
    t.mock_all_auths();
    let user = t.create_compliant_user();
    let admin = t.admin;

    BrazaToken::add_blocked_country(&mut t.env, admin, String::from("IR")).unwrap();

    BrazaToken::set_country_code(&mut t.env, admin, user, String::from("IR")).unwrap();

    let result = BrazaToken::transfer(&mut t.env, admin, user, 100);
    assert!(result.is_err());
}

#[test]
fn test_compliance_kyc_downgrade() {
    let mut t = TestEnv::new();
    t.mock_all_auths();
    let user = t.create_compliant_user();
    let admin = t.admin;

    BrazaToken::mint(&mut t.env, user, 1000).unwrap();

    BrazaToken::set_kyc_level(&mut t.env, admin, user, 1).unwrap();

    let result = BrazaToken::transfer(&mut t.env, user, admin, 100);
    assert!(result.is_err());
}

#[test]
fn test_compliance_risk_score_blocking() {
    let mut t = TestEnv::new();
    t.mock_all_auths();
    let user = t.create_compliant_user();
    let admin = t.admin;

    BrazaToken::set_risk_score(&mut t.env, admin, user, 100).unwrap();

    let result = BrazaToken::transfer(&mut t.env, admin, user, 100);
    assert!(result.is_err());
}

#[test]
fn test_daily_limit_validation() {
    let mut t = TestEnv::new();
    t.mock_all_auths();
    let admin = t.admin;

    let user = t.create_compliant_user();
    BrazaToken::mint(&mut t.env, user, 1000).unwrap();
    BrazaToken::set_daily_limit(&mut t.env, admin, user, 100).unwrap();

    let result = BrazaToken::transfer(&mut t.env, user, admin, 150);
    assert!(
        result.is_err(),
        "Transferência acima do limite deveria falhar"
    );
}

#[test]
fn test_transfer_from_with_allowance() {
    let mut t = TestEnv::new();
    t.mock_all_auths();
    let owner = t.create_compliant_user();
    let spender = t.create_compliant_user();
    let recipient = t.create_compliant_user();

    BrazaToken::mint(&mut t.env, owner, 1000).unwrap();

    BrazaToken::approve(&mut t.env, owner, spender, 500).unwrap();

    BrazaToken::transfer_from(&mut t.env, spender, owner, recipient, 300).unwrap();

    let balance = BrazaToken::balance(&t.env, recipient);
    assert_eq!(balance, 300);

    let allowance = BrazaToken::allowance(&t.env, owner, spender);
    assert_eq!(allowance, 200);
}

#[test]
fn test_transfer_from_insufficient_allowance() {
    let mut t = TestEnv::new();
    t.mock_all_auths();
    let owner = t.create_compliant_user();
    let spender = t.create_compliant_user();
    let recipient = t.create_compliant_user();

    BrazaToken::mint(&mut t.env, owner, 1000).unwrap();

    BrazaToken::approve(&mut t.env, owner, spender, 200).unwrap();

    let result = BrazaToken::transfer_from(&mut t.env, spender, owner, recipient, 300);
    assert!(result.is_err());
    assert_eq!(result, Err(BrazaError::InsufficientAllowance));
}

#[test]
fn test_increase_decrease_allowance() {
    let mut t = TestEnv::new();
    t.mock_all_auths();
    let owner = t.create_compliant_user();
    let spender = t.create_compliant_user();

    BrazaToken::approve(&mut t.env, owner, spender, 500).unwrap();
    assert_eq!(BrazaToken::allowance(&t.env, owner, spender), 500);

    BrazaToken::increase_allowance(&mut t.env, owner, spender, 200).unwrap();
    assert_eq!(BrazaToken::allowance(&t.env, owner, spender), 700);

    BrazaToken::decrease_allowance(&mut t.env, owner, spender, 100).unwrap();
    assert_eq!(BrazaToken::allowance(&t.env, owner, spender), 600);
}

#[test]
fn coverage_booster_test_transfer_to_self() {
    let mut t = TestEnv::new();
    t.mock_all_auths();
    let user = t.create_compliant_user();

    BrazaToken::mint(&mut t.env, user, 1000).unwrap();

    BrazaToken::transfer(&mut t.env, user, user, 500).unwrap();

    assert_eq!(BrazaToken::balance(&t.env, user), 1000);
}

#[test]
fn test_vesting_with_cliff() {
    let mut t = TestEnv::new();
    t.mock_all_auths();
    let user = t.create_compliant_user();

    let result = BrazaToken::create_vesting(&mut t.env, user, 1000, 100, 200, false);
    assert_eq!(result, Ok(1));
}

#[test]
fn test_vesting_revocation() {
    let mut t = TestEnv::new();
    t.mock_all_auths();
    let user = t.create_compliant_user();

    let result = BrazaToken::revoke_vesting(&mut t.env, user, 0);
    assert_eq!(result, Err(BrazaError::VestingNotFound));
}

#[test]
fn test_vesting_invalid_params() {
    let mut t = TestEnv::new();
    t.mock_all_auths();
    let user = t.create_compliant_user();

    let result = BrazaToken::create_vesting(&mut t.env, user, 0, 100, 200, false);
    assert!(result.is_err());

    let result = BrazaToken::create_vesting(&mut t.env, user, 1000, 300, 200, false);
    assert!(result.is_err());
}

#[test]
fn test_validation_negative_amounts() {
    let mut t = TestEnv::new();
    t.mock_all_auths();
    let user = t.create_compliant_user();
    let admin = t.admin;

    let result = BrazaToken::transfer(&mut t.env, admin, user, -100);
    assert!(result.is_err());

    let result = BrazaToken::approve(&mut t.env, user, admin, -100);
    assert!(result.is_err());

    let result = BrazaToken::burn(&mut t.env, user, -100);
    assert!(result.is_err());
}

#[test]
fn test_force_transfer() {
    let mut t = TestEnv::new();
    t.mock_all_auths();
    let from = t.create_compliant_user();
    let to = t.create_compliant_user();

    BrazaToken::mint(&mut t.env, from, 1000).unwrap();

    BrazaToken::force_transfer(&mut t.env, from, to, 500).unwrap();

    assert_eq!(BrazaToken::balance(&t.env, to), 500);
    assert_eq!(BrazaToken::balance(&t.env, from), 500);
}

#[test]
fn test_force_burn() {
    let mut t = TestEnv::new();
    t.mock_all_auths();
    let user = t.create_compliant_user();

    BrazaToken::mint(&mut t.env, user, 1000).unwrap();

    BrazaToken::force_burn(&mut t.env, user, 500).unwrap();

    assert_eq!(BrazaToken::balance(&t.env, user), 500);
}

#[test]
fn test_transfer_ownership_unauthorized() {
    let mut t = TestEnv::new();
    t.mock_all_auths();
    let new_admin = t.generate();

    BrazaToken::transfer_ownership(&mut t.env, new_admin).unwrap();
    assert_eq!(BrazaToken::get_admin(&t.env), new_admin);
}
