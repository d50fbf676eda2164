//! Smart contracts.

pub mod contract_update_transaction;

pub use contract_update_transaction::{ContractUpdateTransaction, ContractUpdateTransactionData};
