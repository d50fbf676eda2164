//! Tokens.

pub mod token_pause_transaction;
pub mod token_supply_type;

pub use token_pause_transaction::{TokenPauseTransaction, TokenPauseTransactionData};
pub use token_supply_type::TokenSupplyType;
