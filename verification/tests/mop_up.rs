use braza_token::env::Env;
use braza_token::token::BrazaToken;
use braza_token::types::Address;

#[allow(dead_code)]
struct TestEnv {
    env: Env,
    admin: Address,
    next: Address,
}

#[allow(dead_code)]
impl TestEnv {
    fn new() -> Self {
        let mut env = Env::new();
        let admin: Address = 1;
        env.authorize(admin);
        BrazaToken::initialize(
            &mut env,
            admin,
            String::from("Braza Token"),
            String::from("BRZ"),
        )
        .unwrap();
        TestEnv {
            env,
            admin,
            next: 2,
        }
    }

    fn generate(&mut self) -> Address {
        let who = self.next;
        self.next += 1;
        self.env.authorize(who);
        who
    }

    fn create_compliant_user(&mut self) -> Address {
        let user = self.generate();
        let admin = self.admin;
        BrazaToken::set_country_code(&mut self.env, admin, user, String::from("BR")).unwrap();
        BrazaToken::set_kyc_level(&mut self.env, admin, user, 2).unwrap();
        BrazaToken::set_risk_score(&mut self.env, admin, user, 0).unwrap();
        user
    }

    fn mock_no_auths(&mut self) {
        self.env.clear_authorizations();
    }

    fn mock_all_auths(&mut self) {
        for who in 1..self.next {
            self.env.authorize(who);
        }
    }

    fn advance_ledger(&mut self, ledgers: u32) {
        let now = self.env.ledger_sequence;
        self.env.set_sequence(now + ledgers);
    }
}

#[test]
fn test_allowance_modifications() {
    let mut t = TestEnv::new();
    t.mock_all_auths();
    let spender = t.generate();
    let admin = t.admin;

    BrazaToken::increase_allowance(&mut t.env, admin, spender, 1000).unwrap();
    assert_eq!(BrazaToken::allowance(&t.env, admin, spender), 1000);

    BrazaToken::increase_allowance(&mut t.env, admin, spender, 500).unwrap();
    assert_eq!(BrazaToken::allowance(&t.env, admin, spender), 1500);

    BrazaToken::decrease_allowance(&mut t.env, admin, spender, 200).unwrap();
    assert_eq!(BrazaToken::allowance(&t.env, admin, spender), 1300);

    let res = BrazaToken::decrease_allowance(&mut t.env, admin, spender, 2000);
    assert!(res.is_err());
}

#[test]
fn test_daily_limits_enforcement() {
    let mut t = TestEnv::new();
    t.mock_all_auths();
    let user = t.create_compliant_user();
    let admin = t.admin;

    BrazaToken::mint(&mut t.env, user, 10_000).unwrap();

    BrazaToken::set_daily_limit(&mut t.env, admin, user, 1000).unwrap();

    let receiver = t.generate();

    BrazaToken::set_country_code(&mut t.env, admin, receiver, String::from("BR")).unwrap();
    BrazaToken::set_kyc_level(&mut t.env, admin, receiver, 2).unwrap();
    BrazaToken::set_risk_score(&mut t.env, admin, receiver, 0).unwrap();

    BrazaToken::transfer(&mut t.env, user, receiver, 500).unwrap();

    let res = BrazaToken::transfer(&mut t.env, user, receiver, 600);

    assert!(res.is_err());
}

#[test]
fn test_storage_edge_cases() {
    let mut t = TestEnv::new();
    t.mock_all_auths();
    let user = t.create_compliant_user();

    BrazaToken::mint(&mut t.env, user, 1000).unwrap();

    BrazaToken::force_burn(&mut t.env, user, 500).unwrap();
    assert_eq!(BrazaToken::balance(&t.env, user), 500);

    let dest = t.create_compliant_user();
    BrazaToken::force_transfer(&mut t.env, user, dest, 500).unwrap();

    assert_eq!(BrazaToken::balance(&t.env, user), 0);
    assert_eq!(BrazaToken::balance(&t.env, dest), 500);
}

#[test]
fn test_validation_helpers() {
    let mut t = TestEnv::new();
    let admin = t.admin;

    let res = BrazaToken::transfer(&mut t.env, admin, admin, -10);
    assert!(res.is_err());
}
