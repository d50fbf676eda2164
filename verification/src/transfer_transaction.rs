//! Transfers of hbar, tokens and NFTs between accounts.

use vstd::prelude::*;
use crate::entity_id::{AccountId, TokenId};
use crate::error::Error;
use crate::hbar::Hbar;
use crate::nft_id::NftId;
use crate::transaction::{ChunkInfo, ServiceMethod, Transaction, TransactionExecute, TransactionView};
use crate::wire;

verus! {

/// Transfers cryptocurrency among two or more accounts by making the desired adjustments to their
/// balances.
///
/// Each transfer list can specify up to 10 adjustments. Each negative amount is withdrawn
/// from the corresponding account (a sender), and each positive one is added to the corresponding
/// account (a receiver). The amounts list must sum to zero.
pub type TransferTransaction = Transaction<TransferTransactionData>;

#[derive(Debug, Clone)]
pub struct TransferTransactionData {
    pub transfers: Vec<Transfer>,
    pub token_transfers: Vec<TokenTransfer>,
}

/// One adjustment of an account's balance.
#[derive(Debug, Clone, Copy, PartialEq, Eq, Structural)]
pub struct Transfer {
    pub account_id: AccountId,
    pub amount: i64,
    pub is_approval: bool,
}

/// The transfers of one token: adjustments of balances, and NFTs that change hands.
#[derive(Debug, Clone)]
pub struct TokenTransfer {
    pub token_id: TokenId,
    pub transfers: Vec<Transfer>,
    pub nft_transfers: Vec<NftTransfer>,
    pub expected_decimals: Option<u32>,
}

/// One NFT that goes from one account to another.
#[derive(Debug, Clone, Copy, PartialEq, Eq, Structural)]
pub struct NftTransfer {
    pub sender_account_id: AccountId,
    pub receiver_account_id: AccountId,
    pub serial_number: u64,
    pub is_approval: bool,
}

pub struct TokenTransferView {
    pub token_id: TokenId,
    pub transfers: Seq<Transfer>,
    pub nft_transfers: Seq<NftTransfer>,
    pub expected_decimals: Option<u32>,
}

impl View for TokenTransfer {
    type V = TokenTransferView;

    open spec fn view(&self) -> TokenTransferView {
        TokenTransferView {
            token_id: self.token_id,
            transfers: self.transfers@,
            nft_transfers: self.nft_transfers@,
            expected_decimals: self.expected_decimals,
        }
    }
}

pub struct TransferTransactionDataView {
    pub transfers: Seq<Transfer>,
    pub token_transfers: Seq<TokenTransferView>,
}

impl View for TransferTransactionData {
    type V = TransferTransactionDataView;

    open spec fn view(&self) -> TransferTransactionDataView {
        TransferTransactionDataView {
            transfers: self.transfers@,
            token_transfers: Seq::new(
                self.token_transfers@.len(),
                |i: int| self.token_transfers@[i]@,
            ),
        }
    }
}

/// The index of the first entry for `token_id` at or after `from`, or the number of
/// entries if there is none.
pub open spec fn spec_find_token(entries: Seq<TokenTransferView>, token_id: TokenId, from: int) -> int
    decreases entries.len() - from,
{
    if from < 0 || from >= entries.len() {
        entries.len() as int
    } else if entries[from].token_id == token_id {
        from
    } else {
        spec_find_token(entries, token_id, from + 1)
    }
}

impl TransferTransactionDataView {
    /// The payload with one more hbar transfer at the end.
    pub open spec fn hbar_transfer(self, transfer: Transfer) -> TransferTransactionDataView {
        TransferTransactionDataView { transfers: self.transfers.push(transfer), ..self }
    }

    /// The payload with one more transfer of the token `token_id`. The transfer joins
    /// the first entry of that token, whose expected decimals it overwrites; if the
    /// token has no entry yet, it opens one at the end.
    pub open spec fn token_transfer(
        self,
        token_id: TokenId,
        transfer: Transfer,
        expected_decimals: Option<u32>,
    ) -> TransferTransactionDataView {
        let at = spec_find_token(self.token_transfers, token_id, 0);
        if at < self.token_transfers.len() {
            TransferTransactionDataView {
                token_transfers: self.token_transfers.update(
                    at,
                    TokenTransferView {
                        expected_decimals,
                        transfers: self.token_transfers[at].transfers.push(transfer),
                        ..self.token_transfers[at]
                    },
                ),
                ..self
            }
        } else {
            TransferTransactionDataView {
                token_transfers: self.token_transfers.push(
                    TokenTransferView {
                        token_id,
                        expected_decimals,
                        nft_transfers: Seq::empty(),
                        transfers: seq![transfer],
                    },
                ),
                ..self
            }
        }
    }

    /// The payload with one more NFT transfer of the token `token_id`. The transfer
    /// joins the first entry of that token; if the token has no entry yet, it opens one
    /// at the end, with no expected decimals.
    pub open spec fn nft_transfer(self, token_id: TokenId, transfer: NftTransfer)
        -> TransferTransactionDataView {
        let at = spec_find_token(self.token_transfers, token_id, 0);
        if at < self.token_transfers.len() {
            TransferTransactionDataView {
                token_transfers: self.token_transfers.update(
                    at,
                    TokenTransferView {
                        nft_transfers: self.token_transfers[at].nft_transfers.push(transfer),
                        ..self.token_transfers[at]
                    },
                ),
                ..self
            }
        } else {
            TransferTransactionDataView {
                token_transfers: self.token_transfers.push(
                    TokenTransferView {
                        token_id,
                        expected_decimals: None,
                        transfers: Seq::empty(),
                        nft_transfers: seq![transfer],
                    },
                ),
                ..self
            }
        }
    }

    /// The wire form of the payload. A payload without hbar transfers has no transfer
    /// list at all.
    pub open spec fn to_protobuf(self) -> wire::CryptoTransferTransactionBodyView {
        wire::CryptoTransferTransactionBodyView {
            transfers: if self.transfers.len() == 0 {
                None
            } else {
                Some(Seq::new(self.transfers.len(), |i: int| self.transfers[i].spec_to_protobuf()))
            },
            token_transfers: Seq::new(
                self.token_transfers.len(),
                |i: int| self.token_transfers[i].to_protobuf(),
            ),
        }
    }
}

impl TokenTransferView {
    pub open spec fn to_protobuf(self) -> wire::TokenTransferListView {
        wire::TokenTransferListView {
            token: Some(wire::TokenId::spec_from_id(self.token_id)),
            transfers: Seq::new(self.transfers.len(), |i: int| self.transfers[i].spec_to_protobuf()),
            nft_transfers: Seq::new(
                self.nft_transfers.len(),
                |i: int| self.nft_transfers[i].spec_to_protobuf(),
            ),
            expected_decimals: self.expected_decimals,
        }
    }
}

impl Transfer {
    pub open spec fn spec_to_protobuf(self) -> wire::AccountAmount {
        wire::AccountAmount {
            amount: self.amount,
            account_id: Some(wire::AccountId::spec_from_id(self.account_id)),
            is_approval: self.is_approval,
        }
    }

    pub fn to_protobuf(&self) -> (pb: wire::AccountAmount)
        ensures
            pb == self.spec_to_protobuf(),
    {
        wire::AccountAmount {
            amount: self.amount,
            account_id: Some(wire::AccountId::from_id(self.account_id)),
            is_approval: self.is_approval,
        }
    }
}

impl NftTransfer {
    pub open spec fn spec_to_protobuf(self) -> wire::NftTransfer {
        wire::NftTransfer {
            sender_account_id: Some(wire::AccountId::spec_from_id(self.sender_account_id)),
            receiver_account_id: Some(wire::AccountId::spec_from_id(self.receiver_account_id)),
            serial_number: self.serial_number as i64,
            is_approval: self.is_approval,
        }
    }

    pub fn to_protobuf(&self) -> (pb: wire::NftTransfer)
        ensures
            pb == self.spec_to_protobuf(),
    {
        wire::NftTransfer {
            sender_account_id: Some(wire::AccountId::from_id(self.sender_account_id)),
            receiver_account_id: Some(wire::AccountId::from_id(self.receiver_account_id)),
            serial_number: self.serial_number as i64,
            is_approval: self.is_approval,
        }
    }
}

/// The wire forms of a list of transfers, in order.
pub fn transfers_to_protobuf(transfers: &Vec<Transfer>) -> (pb: Vec<wire::AccountAmount>)
    ensures
        pb@ == Seq::new(transfers@.len(), |i: int| transfers@[i].spec_to_protobuf()),
{
    let mut pb: Vec<wire::AccountAmount> = Vec::new();
    let mut i: usize = 0;
    while i < transfers.len()
        invariant
            i <= transfers.len(),
            pb@ == Seq::new(i as nat, |k: int| transfers@[k].spec_to_protobuf()),
        decreases transfers.len() - i,
    {
        pb.push(transfers[i].to_protobuf());
        i = i + 1;
        assert(pb@ =~= Seq::new(i as nat, |k: int| transfers@[k].spec_to_protobuf()));
    }
    pb
}

/// The wire forms of a list of NFT transfers, in order.
pub fn nft_transfers_to_protobuf(transfers: &Vec<NftTransfer>) -> (pb: Vec<wire::NftTransfer>)
    ensures
        pb@ == Seq::new(transfers@.len(), |i: int| transfers@[i].spec_to_protobuf()),
{
    let mut pb: Vec<wire::NftTransfer> = Vec::new();
    let mut i: usize = 0;
    while i < transfers.len()
        invariant
            i <= transfers.len(),
            pb@ == Seq::new(i as nat, |k: int| transfers@[k].spec_to_protobuf()),
        decreases transfers.len() - i,
    {
        pb.push(transfers[i].to_protobuf());
        i = i + 1;
        assert(pb@ =~= Seq::new(i as nat, |k: int| transfers@[k].spec_to_protobuf()));
    }
    pb
}

impl TokenTransfer {
    pub fn to_protobuf(&self) -> (pb: wire::TokenTransferList)
        ensures
            pb@ == self@.to_protobuf(),
    {
        let transfers = transfers_to_protobuf(&self.transfers);
        let nft_transfers = nft_transfers_to_protobuf(&self.nft_transfers);
        wire::TokenTransferList {
            token: Some(wire::TokenId::from_id(self.token_id)),
            transfers,
            nft_transfers,
            expected_decimals: self.expected_decimals,
        }
    }
}

impl TransferTransactionData {
    /// A payload without any transfer.
    pub fn new() -> (data: Self)
        ensures
            data@.transfers == Seq::<Transfer>::empty(),
            data@.token_transfers == Seq::<TokenTransferView>::empty(),
    {
        let data = TransferTransactionData { transfers: Vec::new(), token_transfers: Vec::new() };
        assert(data@.token_transfers =~= Seq::empty());
        data
    }

    fn find_token(&self, token_id: TokenId) -> (at: usize)
        ensures
            at == spec_find_token(self@.token_transfers, token_id, 0),
            at <= self.token_transfers@.len(),
    {
        let mut at: usize = 0;
        while at < self.token_transfers.len() && !(self.token_transfers[at].token_id == token_id)
            invariant
                at <= self.token_transfers.len(),
                spec_find_token(self@.token_transfers, token_id, 0) == spec_find_token(
                    self@.token_transfers,
                    token_id,
                    at as int,
                ),
            decreases self.token_transfers.len() - at,
        {
            at = at + 1;
        }
        at
    }

    /// Adds an hbar transfer.
    pub fn add_hbar_transfer(&mut self, account_id: AccountId, amount: Hbar, approved: bool)
        ensures
            final(self)@ == old(self)@.hbar_transfer(
                Transfer { account_id, amount: amount.tinybars, is_approval: approved },
            ),
    {
        self.transfers.push(
            Transfer { account_id, amount: amount.to_tinybars(), is_approval: approved },
        );
        assert(final(self)@.token_transfers =~= old(self)@.token_transfers);
    }

    /// Adds a transfer of the token `token_id`.
    pub fn add_token_transfer(
        &mut self,
        token_id: TokenId,
        account_id: AccountId,
        amount: i64,
        approved: bool,
        expected_decimals: Option<u32>,
    )
        ensures
            final(self)@ == old(self)@.token_transfer(
                token_id,
                Transfer { account_id, amount, is_approval: approved },
                expected_decimals,
            ),
    {
        let transfer = Transfer { account_id, amount, is_approval: approved };
        let at = self.find_token(token_id);
        if at < self.token_transfers.len() {
            let mut entry = self.token_transfers.remove(at);
            entry.expected_decimals = expected_decimals;
            entry.transfers.push(transfer);
            self.token_transfers.insert(at, entry);
        } else {
            let mut transfers: Vec<Transfer> = Vec::new();
            transfers.push(transfer);
            self.token_transfers.push(
                TokenTransfer { token_id, expected_decimals, nft_transfers: Vec::new(), transfers },
            );
        }
        assert(final(self)@.token_transfers =~= old(self)@.token_transfer(
            token_id,
            transfer,
            expected_decimals,
        ).token_transfers);
    }

    /// Adds a transfer of the NFT `nft_id`.
    pub fn add_nft_transfer(
        &mut self,
        nft_id: NftId,
        sender_account_id: AccountId,
        receiver_account_id: AccountId,
        approved: bool,
    )
        ensures
            final(self)@ == old(self)@.nft_transfer(
                nft_id.token_id,
                NftTransfer {
                    serial_number: nft_id.serial_number,
                    sender_account_id,
                    receiver_account_id,
                    is_approval: approved,
                },
            ),
    {
        let NftId { token_id, serial_number } = nft_id;
        let transfer = NftTransfer {
            serial_number,
            sender_account_id,
            receiver_account_id,
            is_approval: approved,
        };
        let at = self.find_token(token_id);
        if at < self.token_transfers.len() {
            let mut entry = self.token_transfers.remove(at);
            entry.nft_transfers.push(transfer);
            self.token_transfers.insert(at, entry);
        } else {
            let mut nft_transfers: Vec<NftTransfer> = Vec::new();
            nft_transfers.push(transfer);
            self.token_transfers.push(
                TokenTransfer {
                    token_id,
                    expected_decimals: None,
                    transfers: Vec::new(),
                    nft_transfers,
                },
            );
        }
        assert(final(self)@.token_transfers =~= old(self)@.nft_transfer(
            token_id,
            transfer,
        ).token_transfers);
    }

    /// The wire form of the payload.
    pub fn to_protobuf(&self) -> (pb: wire::CryptoTransferTransactionBody)
        ensures
            pb@ == self@.to_protobuf(),
    {
        let transfers = if self.transfers.is_empty() {
            None
        } else {
            Some(wire::TransferList { account_amounts: transfers_to_protobuf(&self.transfers) })
        };
        let mut token_transfers: Vec<wire::TokenTransferList> = Vec::new();
        let mut i: usize = 0;
        while i < self.token_transfers.len()
            invariant
                i <= self.token_transfers.len(),
                token_transfers@.len() == i,
                forall|k: int|
                    0 <= k < i ==> (#[trigger] token_transfers@[k])@
                        == self.token_transfers@[k]@.to_protobuf(),
            decreases self.token_transfers.len() - i,
        {
            token_transfers.push(self.token_transfers[i].to_protobuf());
            i = i + 1;
        }
        let pb = wire::CryptoTransferTransactionBody { transfers, token_transfers };
        assert(pb@.token_transfers =~= self@.to_protobuf().token_transfers);
        pb
    }
}

/// What adding a transfer does to a transaction: a frozen transaction refuses and stays
/// as it is; any other has its payload changed to one that looks like `data`, and
/// nothing else.
pub open spec fn spec_added(
    before: TransactionView<TransferTransactionData>,
    after: TransactionView<TransferTransactionData>,
    data: TransferTransactionDataView,
    ok: bool,
) -> bool {
    if before.frozen {
        !ok && after == before
    } else {
        ok && after.data@ == data && after == (TransactionView { data: after.data, ..before })
    }
}

impl TransferTransaction {
    fn _token_transfer(
        &mut self,
        token_id: TokenId,
        account_id: AccountId,
        amount: i64,
        approved: bool,
        expected_decimals: Option<u32>,
    ) -> (result: Result<&mut Self, Error>)
        ensures
            result is Err ==> result->Err_0 == Error::InvalidState && spec_added(
                old(self)@,
                final(self)@,
                old(self)@.data@,
                false,
            ),
            result is Ok ==> *final(self) == *final(result->Ok_0) && spec_added(
                old(self)@,
                result->Ok_0@,
                old(self)@.data@.token_transfer(
                    token_id,
                    Transfer { account_id, amount, is_approval: approved },
                    expected_decimals,
                ),
                true,
            ),
    {
        match self.data_mut() {
            Ok(data) => {
                data.add_token_transfer(token_id, account_id, amount, approved, expected_decimals);
            },
            Err(error) => {
                return Err(error);
            },
        }
        Ok(self)
    }

    /// Add a non-approved token transfer to the transaction.
    pub fn token_transfer(&mut self, token_id: TokenId, account_id: AccountId, amount: i64) -> (result:
        Result<&mut Self, Error>)
        ensures
            result is Err ==> result->Err_0 == Error::InvalidState && spec_added(
                old(self)@,
                final(self)@,
                old(self)@.data@,
                false,
            ),
            result is Ok ==> *final(self) == *final(result->Ok_0) && spec_added(
                old(self)@,
                result->Ok_0@,
                old(self)@.data@.token_transfer(
                    token_id,
                    Transfer { account_id, amount, is_approval: false },
                    None,
                ),
                true,
            ),
    {
        self._token_transfer(token_id, account_id, amount, false, None)
    }

    /// Add an approved token transfer to the transaction.
    pub fn approved_token_transfer(&mut self, token_id: TokenId, account_id: AccountId, amount: i64)
        -> (result: Result<&mut Self, Error>)
        ensures
            result is Err ==> result->Err_0 == Error::InvalidState && spec_added(
                old(self)@,
                final(self)@,
                old(self)@.data@,
                false,
            ),
            result is Ok ==> *final(self) == *final(result->Ok_0) && spec_added(
                old(self)@,
                result->Ok_0@,
                old(self)@.data@.token_transfer(
                    token_id,
                    Transfer { account_id, amount, is_approval: true },
                    None,
                ),
                true,
            ),
    {
        self._token_transfer(token_id, account_id, amount, true, None)
    }

    /// Add a non-approved token transfer with decimals to the transaction.
    pub fn token_transfer_with_decimals(
        &mut self,
        token_id: TokenId,
        account_id: AccountId,
        amount: i64,
        expected_decimals: u32,
    ) -> (result: Result<&mut Self, Error>)
        ensures
            result is Err ==> result->Err_0 == Error::InvalidState && spec_added(
                old(self)@,
                final(self)@,
                old(self)@.data@,
                false,
            ),
            result is Ok ==> *final(self) == *final(result->Ok_0) && spec_added(
                old(self)@,
                result->Ok_0@,
                old(self)@.data@.token_transfer(
                    token_id,
                    Transfer { account_id, amount, is_approval: false },
                    Some(expected_decimals),
                ),
                true,
            ),
    {
        self._token_transfer(token_id, account_id, amount, false, Some(expected_decimals))
    }

    /// Add an approved token transfer with decimals to the transaction.
    pub fn approved_token_transfer_with_decimals(
        &mut self,
        token_id: TokenId,
        account_id: AccountId,
        amount: i64,
        expected_decimals: u32,
    ) -> (result: Result<&mut Self, Error>)
        ensures
            result is Err ==> result->Err_0 == Error::InvalidState && spec_added(
                old(self)@,
                final(self)@,
                old(self)@.data@,
                false,
            ),
            result is Ok ==> *final(self) == *final(result->Ok_0) && spec_added(
                old(self)@,
                result->Ok_0@,
                old(self)@.data@.token_transfer(
                    token_id,
                    Transfer { account_id, amount, is_approval: true },
                    Some(expected_decimals),
                ),
                true,
            ),
    {
        self._token_transfer(token_id, account_id, amount, true, Some(expected_decimals))
    }

    fn _nft_transfer(
        &mut self,
        nft_id: NftId,
        sender_account_id: AccountId,
        receiver_account_id: AccountId,
        approved: bool,
    ) -> (result: Result<&mut Self, Error>)
        ensures
            result is Err ==> result->Err_0 == Error::InvalidState && spec_added(
                old(self)@,
                final(self)@,
                old(self)@.data@,
                false,
            ),
            result is Ok ==> *final(self) == *final(result->Ok_0) && spec_added(
                old(self)@,
                result->Ok_0@,
                old(self)@.data@.nft_transfer(
                    nft_id.token_id,
                    NftTransfer {
                        serial_number: nft_id.serial_number,
                        sender_account_id,
                        receiver_account_id,
                        is_approval: approved,
                    },
                ),
                true,
            ),
    {
        match self.data_mut() {
            Ok(data) => {
                data.add_nft_transfer(nft_id, sender_account_id, receiver_account_id, approved);
            },
            Err(error) => {
                return Err(error);
            },
        }
        Ok(self)
    }

    /// Add an approved nft transfer to the transaction.
    pub fn approved_nft_transfer(
        &mut self,
        nft_id: NftId,
        sender_account_id: AccountId,
        receiver_account_id: AccountId,
    ) -> (result: Result<&mut Self, Error>)
        ensures
            result is Err ==> result->Err_0 == Error::InvalidState && spec_added(
                old(self)@,
                final(self)@,
                old(self)@.data@,
                false,
            ),
            result is Ok ==> *final(self) == *final(result->Ok_0) && spec_added(
                old(self)@,
                result->Ok_0@,
                old(self)@.data@.nft_transfer(
                    nft_id.token_id,
                    NftTransfer {
                        serial_number: nft_id.serial_number,
                        sender_account_id,
                        receiver_account_id,
                        is_approval: true,
                    },
                ),
                true,
            ),
    {
        self._nft_transfer(nft_id, sender_account_id, receiver_account_id, true)
    }

    /// Add a non-approved nft transfer to the transaction.
    pub fn nft_transfer(
        &mut self,
        nft_id: NftId,
        sender_account_id: AccountId,
        receiver_account_id: AccountId,
    ) -> (result: Result<&mut Self, Error>)
        ensures
            result is Err ==> result->Err_0 == Error::InvalidState && spec_added(
                old(self)@,
                final(self)@,
                old(self)@.data@,
                false,
            ),
            result is Ok ==> *final(self) == *final(result->Ok_0) && spec_added(
                old(self)@,
                result->Ok_0@,
                old(self)@.data@.nft_transfer(
                    nft_id.token_id,
                    NftTransfer {
                        serial_number: nft_id.serial_number,
                        sender_account_id,
                        receiver_account_id,
                        is_approval: false,
                    },
                ),
                true,
            ),
    {
        self._nft_transfer(nft_id, sender_account_id, receiver_account_id, false)
    }

    fn _hbar_transfer(&mut self, account_id: AccountId, amount: Hbar, approved: bool) -> (result:
        Result<&mut Self, Error>)
        ensures
            result is Err ==> result->Err_0 == Error::InvalidState && spec_added(
                old(self)@,
                final(self)@,
                old(self)@.data@,
                false,
            ),
            result is Ok ==> *final(self) == *final(result->Ok_0) && spec_added(
                old(self)@,
                result->Ok_0@,
                old(self)@.data@.hbar_transfer(
                    Transfer { account_id, amount: amount.tinybars, is_approval: approved },
                ),
                true,
            ),
    {
        match self.data_mut() {
            Ok(data) => {
                data.add_hbar_transfer(account_id, amount, approved);
            },
            Err(error) => {
                return Err(error);
            },
        }
        Ok(self)
    }

    /// Add a non-approved hbar transfer to the transaction.
    pub fn hbar_transfer(&mut self, account_id: AccountId, amount: Hbar) -> (result: Result<
        &mut Self,
        Error,
    >)
        ensures
            result is Err ==> result->Err_0 == Error::InvalidState && spec_added(
                old(self)@,
                final(self)@,
                old(self)@.data@,
                false,
            ),
            result is Ok ==> *final(self) == *final(result->Ok_0) && spec_added(
                old(self)@,
                result->Ok_0@,
                old(self)@.data@.hbar_transfer(
                    Transfer { account_id, amount: amount.tinybars, is_approval: false },
                ),
                true,
            ),
    {
        self._hbar_transfer(account_id, amount, false)
    }

    /// Add an approved hbar transfer to the transaction.
    pub fn approved_hbar_transfer(&mut self, account_id: AccountId, amount: Hbar) -> (result: Result<
        &mut Self,
        Error,
    >)
        ensures
            result is Err ==> result->Err_0 == Error::InvalidState && spec_added(
                old(self)@,
                final(self)@,
                old(self)@.data@,
                false,
            ),
            result is Ok ==> *final(self) == *final(result->Ok_0) && spec_added(
                old(self)@,
                result->Ok_0@,
                old(self)@.data@.hbar_transfer(
                    Transfer { account_id, amount: amount.tinybars, is_approval: true },
                ),
                true,
            ),
    {
        self._hbar_transfer(account_id, amount, true)
    }
}

impl Default for TransferTransactionData {
    fn default() -> (data: Self)
        ensures
            data@.transfers == Seq::<Transfer>::empty(),
            data@.token_transfers == Seq::<TokenTransferView>::empty(),
    {
        TransferTransactionData::new()
    }
}

impl TransactionExecute for TransferTransactionData {
    open spec fn spec_chunkable(&self) -> bool {
        false
    }

    open spec fn spec_service_method(&self) -> ServiceMethod {
        ServiceMethod::CryptoTransfer
    }

    open spec fn spec_complete(&self) -> bool {
        true
    }

    open spec fn spec_transaction_data(&self, chunk_info: ChunkInfo) -> wire::TransactionDataView {
        wire::TransactionDataView::CryptoTransfer(self@.to_protobuf())
    }

    fn chunkable(&self) -> (chunkable: bool) {
        false
    }

    fn complete(&self) -> (complete: bool) {
        true
    }

    fn service_method(&self) -> (method: ServiceMethod) {
        ServiceMethod::CryptoTransfer
    }

    fn to_transaction_data_protobuf(&self, chunk_info: &ChunkInfo) -> (data: Result<
        wire::TransactionData,
        Error,
    >) {
        if !self.complete() {
            return Err(Error::MissingRequiredField);
        }
        if chunk_info.total != 1 {
            return Err(Error::BodySizeExceeded);
        }
        Ok(wire::TransactionData::CryptoTransfer(self.to_protobuf()))
    }
}

} // verus!
