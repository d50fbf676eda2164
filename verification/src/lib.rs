//! Client-side delivery of signed operations to a distributed ledger: identifiers,
//! the assembly of transactions, and the retry engine that carries them to the nodes.

pub mod backoff;
pub mod checksum;
pub mod client;
pub mod contract;
pub mod decimal;
pub mod duration;
pub mod entity_id;
pub mod error;
pub mod execute;
pub mod hbar;
pub mod hex;
pub mod key;
pub mod nft_id;
pub mod query;
pub mod staked_id;
pub mod status;
pub mod text;
pub mod token;
pub mod transaction;
pub mod transaction_id;
pub mod transfer_transaction;
pub mod wire;

pub use client::Client;
pub use contract::{ContractUpdateTransaction, ContractUpdateTransactionData};
pub use duration::{Duration, Timestamp};
pub use entity_id::{AccountId, ContractId, EntityId, TokenId};
pub use error::Error;
pub use hbar::Hbar;
pub use key::{Key, PrivateKey, PublicKey};
pub use nft_id::NftId;
pub use query::{Query, QueryCost};
pub use staked_id::StakedId;
pub use token::{TokenPauseTransaction, TokenPauseTransactionData, TokenSupplyType};
pub use transaction::{Transaction, TransactionResponse};
pub use transaction_id::TransactionId;
pub use transfer_transaction::{TransferTransaction, TransferTransactionData};
