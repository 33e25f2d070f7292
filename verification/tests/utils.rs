use pump::utils::get_token_data::get_token_data;
use pump::utils::mint_token::validate_mint_amount;
use pump::ErrorCode;

#[test]
fn token_data_from_valid_inputs() {
    let d = get_token_data("Alice", "ALICE", "https://a.example/meta.json", "a token").unwrap();
    assert_eq!(d.name, "Alice");
    assert_eq!(d.symbol, "ALICE");
    assert_eq!(d.uri, "https://a.example/meta.json");
    assert_eq!(d.seller_fee_basis_points, 0);
    assert_eq!(d.description, "a token");
    assert!(get_token_data("A", "B", "C", "").is_ok());
}

#[test]
fn token_data_refuses_empty_inputs() {
    assert_eq!(get_token_data("", "B", "C", "d").err(), Some(ErrorCode::InvalidInputs));
    assert_eq!(get_token_data("A", "", "C", "d").err(), Some(ErrorCode::InvalidInputs));
    assert_eq!(get_token_data("A", "B", "", "d").err(), Some(ErrorCode::InvalidInputs));
}

#[test]
fn mint_amount_must_be_positive() {
    assert_eq!(validate_mint_amount(0), Err(ErrorCode::InvalidTokenAmount));
    assert_eq!(validate_mint_amount(1), Ok(()));
    assert_eq!(validate_mint_amount(pump::constants::INITIAL_MINT_AMOUNT), Ok(()));
}
