use braza_token::storage;

#[test]
fn test_contract_constants_match_spec() {
    let env_max_supply = 2_100_000_000_000_000;
    let env_initial_supply = 1_000_000_000_000_000;

    assert_eq!(
        storage::MAX_SUPPLY,
        env_max_supply,
        "unexpected largest supply"
    );
    assert_eq!(
        storage::INITIAL_SUPPLY,
        env_initial_supply,
        "unexpected initial supply"
    );
}
