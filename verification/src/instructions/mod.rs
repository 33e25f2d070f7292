pub mod create_token;
pub mod sell_token;
