pub mod get_token_data;
pub mod mint_token;
