use braza_token::compliance::{get_daily_limit, get_daily_volume, is_fully_compliant};
use braza_token::env::Env;

#[test]
fn test_get_daily_limit() {
    let env = Env::new();
    let user = 2;

    let limit = get_daily_limit(&env, user);
    assert_eq!(limit, i128::MAX);
}

#[test]
fn test_get_daily_volume() {
    let env = Env::new();
    let user = 2;

    let volume = get_daily_volume(&env, user);
    assert_eq!(volume, 0);
}

#[test]
fn test_is_fully_compliant_default() {
    let env = Env::new();
    let user = 2;

    let compliant = is_fully_compliant(&env, user);
    assert!(!compliant);
}
