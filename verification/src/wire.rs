//! The messages that travel to and from a node, as plain values.
//!
//! Each type here has the fields of the wire message of the same name. Turning them
//! into bytes, and bytes into them, is the business of whoever owns the channel.

use vstd::prelude::*;
use crate::entity_id::EntityId;

verus! {

#[derive(Debug, Clone, Copy, PartialEq, Eq, Structural)]
pub struct AccountId {
    pub shard_num: i64,
    pub realm_num: i64,
    pub account_num: i64,
}

#[derive(Debug, Clone, Copy, PartialEq, Eq, Structural)]
pub struct TokenId {
    pub shard_num: i64,
    pub realm_num: i64,
    pub token_num: i64,
}

#[derive(Debug, Clone, Copy, PartialEq, Eq, Structural)]
pub struct ContractId {
    pub shard_num: i64,
    pub realm_num: i64,
    pub contract_num: i64,
}

#[derive(Debug, Clone, Copy, PartialEq, Eq, Structural)]
pub struct Timestamp {
    pub seconds: i64,
    pub nanos: i32,
}

#[derive(Debug, Clone, Copy, PartialEq, Eq, Structural)]
pub struct Duration {
    pub seconds: i64,
}

#[derive(Debug, Clone, Copy, PartialEq, Eq, Structural)]
pub struct TransactionId {
    pub transaction_valid_start: Option<Timestamp>,
    pub account_id: Option<AccountId>,
    pub scheduled: bool,
    pub nonce: i32,
}

#[derive(Debug, Clone, Copy, PartialEq, Eq, Structural)]
pub struct AccountAmount {
    pub account_id: Option<AccountId>,
    pub amount: i64,
    pub is_approval: bool,
}

#[derive(Debug, Clone, Copy, PartialEq, Eq, Structural)]
pub struct NftTransfer {
    pub sender_account_id: Option<AccountId>,
    pub receiver_account_id: Option<AccountId>,
    pub serial_number: i64,
    pub is_approval: bool,
}

#[derive(Debug, Clone, PartialEq, Eq)]
pub struct TokenTransferList {
    pub token: Option<TokenId>,
    pub transfers: Vec<AccountAmount>,
    pub nft_transfers: Vec<NftTransfer>,
    pub expected_decimals: Option<u32>,
}

pub struct TokenTransferListView {
    pub token: Option<TokenId>,
    pub transfers: Seq<AccountAmount>,
    pub nft_transfers: Seq<NftTransfer>,
    pub expected_decimals: Option<u32>,
}

impl View for TokenTransferList {
    type V = TokenTransferListView;

    open spec fn view(&self) -> TokenTransferListView {
        TokenTransferListView {
            token: self.token,
            transfers: self.transfers@,
            nft_transfers: self.nft_transfers@,
            expected_decimals: self.expected_decimals,
        }
    }
}

#[derive(Debug, Clone, PartialEq, Eq)]
pub struct TransferList {
    pub account_amounts: Vec<AccountAmount>,
}

#[derive(Debug, Clone, PartialEq, Eq)]
pub struct CryptoTransferTransactionBody {
    pub transfers: Option<TransferList>,
    pub token_transfers: Vec<TokenTransferList>,
}

pub struct CryptoTransferTransactionBodyView {
    pub transfers: Option<Seq<AccountAmount>>,
    pub token_transfers: Seq<TokenTransferListView>,
}

impl View for CryptoTransferTransactionBody {
    type V = CryptoTransferTransactionBodyView;

    open spec fn view(&self) -> CryptoTransferTransactionBodyView {
        CryptoTransferTransactionBodyView {
            transfers: match self.transfers {
                Some(list) => Some(list.account_amounts@),
                None => None,
            },
            token_transfers: Seq::new(
                self.token_transfers@.len(),
                |i: int| self.token_transfers@[i]@,
            ),
        }
    }
}

#[derive(Debug, Clone, Copy, PartialEq, Eq, Structural)]
pub struct TokenPauseTransactionBody {
    pub token: Option<TokenId>,
}

#[derive(Debug, Clone, PartialEq, Eq)]
pub struct Key {
    pub bytes: Vec<u8>,
}

impl View for Key {
    type V = Seq<u8>;

    open spec fn view(&self) -> Seq<u8> {
        self.bytes@
    }
}

#[derive(Debug, Clone, Copy, PartialEq, Eq, Structural)]
pub enum StakedId {
    StakedAccountId(AccountId),
    StakedNodeId(i64),
}

#[derive(Debug, Clone, PartialEq, Eq)]
pub enum MemoField {
    Memo(String),
    MemoWrapper(String),
}

#[derive(Debug, Clone, PartialEq, Eq)]
pub struct ContractUpdateTransactionBody {
    pub contract_id: Option<ContractId>,
    pub expiration_time: Option<Timestamp>,
    pub admin_key: Option<Key>,
    pub proxy_account_id: Option<AccountId>,
    pub auto_renew_period: Option<Duration>,
    pub max_automatic_token_associations: Option<i32>,
    pub auto_renew_account_id: Option<AccountId>,
    pub decline_reward: Option<bool>,
    pub staked_id: Option<StakedId>,
    pub memo_field: Option<MemoField>,
}

pub enum MemoFieldView {
    Memo(Seq<char>),
    MemoWrapper(Seq<char>),
}

impl View for MemoField {
    type V = MemoFieldView;

    open spec fn view(&self) -> MemoFieldView {
        match self {
            MemoField::Memo(memo) => MemoFieldView::Memo(memo@),
            MemoField::MemoWrapper(memo) => MemoFieldView::MemoWrapper(memo@),
        }
    }
}

pub struct ContractUpdateTransactionBodyView {
    pub contract_id: Option<ContractId>,
    pub expiration_time: Option<Timestamp>,
    pub admin_key: Option<Seq<u8>>,
    pub proxy_account_id: Option<AccountId>,
    pub auto_renew_period: Option<Duration>,
    pub max_automatic_token_associations: Option<i32>,
    pub auto_renew_account_id: Option<AccountId>,
    pub decline_reward: Option<bool>,
    pub staked_id: Option<StakedId>,
    pub memo_field: Option<MemoFieldView>,
}

impl View for ContractUpdateTransactionBody {
    type V = ContractUpdateTransactionBodyView;

    open spec fn view(&self) -> ContractUpdateTransactionBodyView {
        ContractUpdateTransactionBodyView {
            contract_id: self.contract_id,
            expiration_time: self.expiration_time,
            admin_key: match self.admin_key {
                Some(key) => Some(key@),
                None => None,
            },
            proxy_account_id: self.proxy_account_id,
            auto_renew_period: self.auto_renew_period,
            max_automatic_token_associations: self.max_automatic_token_associations,
            auto_renew_account_id: self.auto_renew_account_id,
            decline_reward: self.decline_reward,
            staked_id: self.staked_id,
            memo_field: match self.memo_field {
                Some(memo) => Some(memo@),
                None => None,
            },
        }
    }
}

/// The payload of a transaction body.
#[derive(Debug, Clone, PartialEq, Eq)]
pub enum TransactionData {
    CryptoTransfer(CryptoTransferTransactionBody),
    ContractUpdateInstance(ContractUpdateTransactionBody),
    TokenPause(TokenPauseTransactionBody),
}

pub enum TransactionDataView {
    CryptoTransfer(CryptoTransferTransactionBodyView),
    ContractUpdateInstance(ContractUpdateTransactionBodyView),
    TokenPause(TokenPauseTransactionBody),
}

impl View for TransactionData {
    type V = TransactionDataView;

    open spec fn view(&self) -> TransactionDataView {
        match self {
            TransactionData::CryptoTransfer(body) => TransactionDataView::CryptoTransfer(body@),
            TransactionData::ContractUpdateInstance(body) => TransactionDataView::ContractUpdateInstance(
                body@,
            ),
            TransactionData::TokenPause(body) => TransactionDataView::TokenPause(*body),
        }
    }
}

/// The payload of a transaction body that is to be scheduled.
#[derive(Debug, Clone, PartialEq, Eq)]
pub enum SchedulableTransactionData {
    ContractUpdateInstance(ContractUpdateTransactionBody),
    TokenPause(TokenPauseTransactionBody),
}

pub enum SchedulableTransactionDataView {
    ContractUpdateInstance(ContractUpdateTransactionBodyView),
    TokenPause(TokenPauseTransactionBody),
}

impl View for SchedulableTransactionData {
    type V = SchedulableTransactionDataView;

    open spec fn view(&self) -> SchedulableTransactionDataView {
        match self {
            SchedulableTransactionData::ContractUpdateInstance(body) => {
                SchedulableTransactionDataView::ContractUpdateInstance(body@)
            },
            SchedulableTransactionData::TokenPause(body) => SchedulableTransactionDataView::TokenPause(
                *body,
            ),
        }
    }
}

/// The body of a transaction: what is signed, for one node.
#[derive(Debug, Clone, PartialEq, Eq)]
pub struct TransactionBody {
    pub transaction_id: Option<TransactionId>,
    pub node_account_id: Option<AccountId>,
    pub transaction_fee: u64,
    pub transaction_valid_duration: Option<Duration>,
    pub memo: String,
    pub data: Option<TransactionData>,
}

pub struct TransactionBodyView {
    pub transaction_id: Option<TransactionId>,
    pub node_account_id: Option<AccountId>,
    pub transaction_fee: u64,
    pub transaction_valid_duration: Option<Duration>,
    pub memo: Seq<char>,
    pub data: Option<TransactionDataView>,
}

impl View for TransactionBody {
    type V = TransactionBodyView;

    open spec fn view(&self) -> TransactionBodyView {
        TransactionBodyView {
            transaction_id: self.transaction_id,
            node_account_id: self.node_account_id,
            transaction_fee: self.transaction_fee,
            transaction_valid_duration: self.transaction_valid_duration,
            memo: self.memo@,
            data: match self.data {
                Some(data) => Some(data@),
                None => None,
            },
        }
    }
}

/// One signature of a transaction, with the key that it can be checked against.
#[derive(Debug, Clone, PartialEq, Eq)]
pub struct SignaturePair {
    pub pub_key_prefix: Vec<u8>,
    pub signature: Vec<u8>,
}

impl View for SignaturePair {
    type V = (Seq<u8>, Seq<u8>);

    open spec fn view(&self) -> (Seq<u8>, Seq<u8>) {
        (self.pub_key_prefix@, self.signature@)
    }
}

/// A transaction as it is sent to one node: its body and the signatures made for
/// that node.
#[derive(Debug, Clone, PartialEq, Eq)]
pub struct Transaction {
    pub body: TransactionBody,
    pub sig_pairs: Vec<SignaturePair>,
}

#[derive(Debug, Clone, Copy, PartialEq, Eq, Structural)]
pub enum TokenSupplyType {
    Infinite,
    Finite,
}

/// What a query asks the node to send back.
#[derive(Debug, Clone, Copy, PartialEq, Eq, Structural)]
pub enum ResponseType {
    AnswerOnly,
    AnswerStateProof,
    CostAnswer,
    CostAnswerStateProof,
}

/// The header of every query. `payment` holds the signed payment transaction.
#[derive(Debug, Clone, PartialEq, Eq)]
pub struct QueryHeader {
    pub payment: Option<Vec<u8>>,
    pub response_type: ResponseType,
}

/// The header of every response to a query.
#[derive(Debug, Clone, Copy, PartialEq, Eq, Structural)]
pub struct ResponseHeader {
    pub node_transaction_precheck_code: i32,
    pub response_type: ResponseType,
    pub cost: u64,
}

/// The answer inside a response to a query. Every kind of answer begins with the same
/// header, and the header is all that the retry decision reads.
#[derive(Debug, Clone, Copy, PartialEq, Eq, Structural)]
pub struct Answer {
    pub header: Option<ResponseHeader>,
}

/// The envelope of a response to a query.
#[derive(Debug, Clone, Copy, PartialEq, Eq, Structural)]
pub struct Response {
    pub response: Option<Answer>,
}

/// The response to the submission of a transaction.
#[derive(Debug, Clone, Copy, PartialEq, Eq, Structural)]
pub struct TransactionResponse {
    pub node_transaction_precheck_code: i32,
    pub cost: u64,
}

impl TransactionId {
    pub open spec fn spec_from_id(id: crate::transaction_id::TransactionId) -> TransactionId {
        TransactionId {
            transaction_valid_start: Some(
                Timestamp {
                    seconds: (id.valid_start / 1_000_000_000) as i64,
                    nanos: (id.valid_start % 1_000_000_000) as i32,
                },
            ),
            account_id: Some(AccountId::spec_from_id(id.account_id)),
            scheduled: id.scheduled,
            nonce: id.nonce,
        }
    }

    /// The wire form of a transaction ID, with the valid start split into seconds and
    /// nanoseconds.
    pub fn from_id(id: crate::transaction_id::TransactionId) -> (pb: TransactionId)
        ensures
            pb == Self::spec_from_id(id),
    {
        TransactionId {
            transaction_valid_start: Some(
                Timestamp {
                    seconds: (id.valid_start / 1_000_000_000) as i64,
                    nanos: (id.valid_start % 1_000_000_000) as i32,
                },
            ),
            account_id: Some(AccountId::from_id(id.account_id)),
            scheduled: id.scheduled,
            nonce: id.nonce,
        }
    }
}

impl AccountId {
    pub open spec fn spec_from_id(id: EntityId) -> AccountId {
        AccountId {
            shard_num: id.shard as i64,
            realm_num: id.realm as i64,
            account_num: id.num as i64,
        }
    }

    /// The wire form of an account ID. Each number is taken over bit for bit.
    pub fn from_id(id: EntityId) -> (pb: AccountId)
        ensures
            pb == Self::spec_from_id(id),
    {
        AccountId {
            shard_num: id.shard as i64,
            realm_num: id.realm as i64,
            account_num: id.num as i64,
        }
    }

    pub open spec fn spec_to_id(self) -> EntityId {
        EntityId {
            shard: self.shard_num as u64,
            realm: self.realm_num as u64,
            num: self.account_num as u64,
        }
    }

    pub fn to_id(self) -> (id: EntityId)
        ensures
            id == self.spec_to_id(),
    {
        EntityId {
            shard: self.shard_num as u64,
            realm: self.realm_num as u64,
            num: self.account_num as u64,
        }
    }
}

impl TokenId {
    pub open spec fn spec_from_id(id: EntityId) -> TokenId {
        TokenId { shard_num: id.shard as i64, realm_num: id.realm as i64, token_num: id.num as i64 }
    }

    /// The wire form of a token ID. Each number is taken over bit for bit.
    pub fn from_id(id: EntityId) -> (pb: TokenId)
        ensures
            pb == Self::spec_from_id(id),
    {
        TokenId { shard_num: id.shard as i64, realm_num: id.realm as i64, token_num: id.num as i64 }
    }

    pub open spec fn spec_to_id(self) -> EntityId {
        EntityId {
            shard: self.shard_num as u64,
            realm: self.realm_num as u64,
            num: self.token_num as u64,
        }
    }

    pub fn to_id(self) -> (id: EntityId)
        ensures
            id == self.spec_to_id(),
    {
        EntityId {
            shard: self.shard_num as u64,
            realm: self.realm_num as u64,
            num: self.token_num as u64,
        }
    }
}

impl ContractId {
    pub open spec fn spec_from_id(id: EntityId) -> ContractId {
        ContractId {
            shard_num: id.shard as i64,
            realm_num: id.realm as i64,
            contract_num: id.num as i64,
        }
    }

    /// The wire form of a contract ID. Each number is taken over bit for bit.
    pub fn from_id(id: EntityId) -> (pb: ContractId)
        ensures
            pb == Self::spec_from_id(id),
    {
        ContractId {
            shard_num: id.shard as i64,
            realm_num: id.realm as i64,
            contract_num: id.num as i64,
        }
    }

    pub open spec fn spec_to_id(self) -> EntityId {
        EntityId {
            shard: self.shard_num as u64,
            realm: self.realm_num as u64,
            num: self.contract_num as u64,
        }
    }

    pub fn to_id(self) -> (id: EntityId)
        ensures
            id == self.spec_to_id(),
    {
        EntityId {
            shard: self.shard_num as u64,
            realm: self.realm_num as u64,
            num: self.contract_num as u64,
        }
    }
}

} // verus!
