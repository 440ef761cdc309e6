use braza_token::env::Env;
use braza_token::events::{
    emit_approval, emit_blacklist, emit_burn, emit_mint, emit_pause, emit_transfer, emit_unpause,
    emit_vesting_created, emit_vesting_released, emit_vesting_revoked,
};
use braza_token::types::Event;

#[test]
fn test_emit_transfer() {
    let mut env = Env::new();
    let a = 1;
    let b = 2;
    emit_transfer(&mut env, a, b, 1000);

    assert_eq!(env.events.len(), 1);
    assert_eq!(
        env.events[0],
        Event::Transfer {
            from: a,
            to: b,
            amount: 1000
        }
    );
}

#[test]
fn test_approval() {
    let mut env = Env::new();
    let o = 1;
    let s = 2;
    emit_approval(&mut env, o, s, 50);

    assert_eq!(env.events.len(), 1);
    assert_eq!(
        env.events[0],
        Event::Approval {
            owner: o,
            spender: s,
            amount: 50
        }
    );
}

#[test]
fn test_burn() {
    let mut env = Env::new();
    let a = 1;
    emit_burn(&mut env, a, 33);

    assert_eq!(env.events.len(), 1);
    assert_eq!(env.events[0], Event::Burn { from: a, amount: 33 });
}

#[test]
fn events_test_pause_unpause() {
    let mut env = Env::new();
    emit_pause(&mut env);
    emit_unpause(&mut env);

    assert_eq!(env.events.len(), 2);
    assert_eq!(env.events, vec![Event::Pause, Event::Unpause]);
}

#[test]
fn test_blacklist() {
    let mut env = Env::new();
    let a = 1;
    emit_blacklist(&mut env, a, true);
    emit_blacklist(&mut env, a, false);

    assert_eq!(env.events.len(), 2);
}

#[test]
fn test_vesting() {
    let mut env = Env::new();
    let b = 1;

    emit_vesting_created(&mut env, b, 1, 1000);
    emit_vesting_released(&mut env, b, 1, 500);
    emit_vesting_revoked(&mut env, b, 1);

    assert_eq!(env.events.len(), 3);
    assert_eq!(
        env.events[1],
        Event::VestingReleased {
            beneficiary: b,
            schedule_id: 1,
            amount: 500
        }
    );
}

#[test]
fn test_emit_mint_and_take_events() {
    let mut env = Env::new();
    emit_mint(&mut env, 4, 9);
    let taken = env.take_events();
    assert_eq!(taken, vec![Event::Mint { to: 4, amount: 9 }]);
    assert!(env.events.is_empty());
}
