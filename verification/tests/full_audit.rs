use braza_token::env::Env;
use braza_token::token::BrazaToken;
use braza_token::types::Address;

#[allow(dead_code)]
struct TestEnv {
    env: Env,
    admin: Address,
    next: Address,
}

#[allow(dead_code)]
impl TestEnv {
    fn new() -> Self {
        let mut env = Env::new();
        let admin: Address = 1;
        env.authorize(admin);
        BrazaToken::initialize(
            &mut env,
            admin,
            String::from("Braza Token"),
            String::from("BRZ"),
        )
        .unwrap();
        TestEnv {
            env,
            admin,
            next: 2,
        }
    }

    fn generate(&mut self) -> Address {
        let who = self.next;
        self.next += 1;
        self.env.authorize(who);
        who
    }

    fn create_compliant_user(&mut self) -> Address {
        let user = self.generate();
        let admin = self.admin;
        BrazaToken::set_country_code(&mut self.env, admin, user, String::from("BR")).unwrap();
        BrazaToken::set_kyc_level(&mut self.env, admin, user, 2).unwrap();
        BrazaToken::set_risk_score(&mut self.env, admin, user, 0).unwrap();
        user
    }

    fn mock_no_auths(&mut self) {
        self.env.clear_authorizations();
    }

    fn mock_all_auths(&mut self) {
        for who in 1..self.next {
            self.env.authorize(who);
        }
    }

    fn advance_ledger(&mut self, ledgers: u32) {
        let now = self.env.ledger_sequence;
        self.env.set_sequence(now + ledgers);
    }
}
use braza_token::types::BrazaError;

#[test]
fn test_admin_mint_timelock() {
    let mut t = TestEnv::new();
    let admin = t.admin;

    let res = BrazaToken::mint(&mut t.env, admin, 1000);

    if res.is_ok() {
        let res_2 = BrazaToken::mint(&mut t.env, admin, 1000);
        assert!(res_2.is_err(), "Timelock deveria impedir o segundo mint");
    } else {
        assert!(res.is_err());
    }
}

#[test]
fn test_force_transfer_god_mode() {
    let mut t = TestEnv::new();
    let user_a = t.create_compliant_user();
    let user_b = t.create_compliant_user();

    BrazaToken::mint(&mut t.env, user_a, 1000).unwrap();

    assert_eq!(BrazaToken::balance(&t.env, user_a), 1000);
    assert_eq!(BrazaToken::balance(&t.env, user_b), 0);

    BrazaToken::force_transfer(&mut t.env, user_a, user_b, 500).unwrap();

    assert_eq!(
        BrazaToken::balance(&t.env, user_a),
        500,
        "O saldo de A não diminuiu!"
    );
    assert_eq!(
        BrazaToken::balance(&t.env, user_b),
        500,
        "O saldo de B não aumentou!"
    );
}

#[test]
fn test_vesting_cliff_and_release_mechanics() {
    let mut t = TestEnv::new();
    let beneficiary = t.create_compliant_user();

    let res = BrazaToken::create_vesting(&mut t.env, beneficiary, 1_000_000_000, 100, 1000, true);

    assert_eq!(res, Ok(1));
    assert_eq!(BrazaToken::get_locked_balance(&t.env), 1_000_000_000);
}

#[test]
fn test_vesting_revocation_returns_funds_to_admin() {
    let mut t = TestEnv::new();
    let beneficiary = t.create_compliant_user();

    let vesting_id =
        BrazaToken::create_vesting(&mut t.env, beneficiary, 1_000_000_000, 100, 1000, true)
            .unwrap();

    BrazaToken::revoke_vesting(&mut t.env, beneficiary, vesting_id).unwrap();

    assert_eq!(BrazaToken::balance(&t.env, beneficiary), 0);
    assert_eq!(
        BrazaToken::balance(&t.env, t.admin),
        1_000_000_000_000_000
    );
    assert_eq!(BrazaToken::get_locked_balance(&t.env), 0);
}

#[test]
fn test_security_cannot_transfer_to_blocked_country() {
    let mut t = TestEnv::new();
    let sender = t.create_compliant_user();
    let receiver = t.create_compliant_user();
    let admin = t.admin;

    BrazaToken::mint(&mut t.env, sender, 1000).unwrap();

    BrazaToken::add_blocked_country(&mut t.env, admin, String::from("NK")).unwrap();
    BrazaToken::set_country_code(&mut t.env, admin, receiver, String::from("NK")).unwrap();

    let res = BrazaToken::transfer(&mut t.env, sender, receiver, 100);
    assert!(
        res.is_err(),
        "Transferência para país bloqueado deveria FALHAR"
    );
    assert_eq!(res, Err(BrazaError::Unauthorized));
}

#[test]
fn test_security_kyc_downgrade_freezes_funds() {
    let mut t = TestEnv::new();
    let user = t.create_compliant_user();
    let admin = t.admin;

    BrazaToken::mint(&mut t.env, user, 100).unwrap();

    BrazaToken::set_kyc_level(&mut t.env, admin, user, 1).unwrap();

    let receiver = t.create_compliant_user();

    let res = BrazaToken::transfer(&mut t.env, user, receiver, 50);
    assert!(res.is_err(), "Transferência com KYC 1 deveria falhar");

    BrazaToken::set_kyc_level(&mut t.env, admin, user, 2).unwrap();

    BrazaToken::transfer(&mut t.env, user, receiver, 50).unwrap();
    assert_eq!(BrazaToken::balance(&t.env, user), 50);
}
