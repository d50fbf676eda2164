//! Pausing a token.

use vstd::prelude::*;
use crate::checksum::{spec_validated, validate_ids};
use crate::entity_id::{EntityId, TokenId};
use crate::error::Error;
use crate::transaction::{ChunkInfo, ServiceMethod, Transaction, TransactionExecute, TransactionView};
use crate::wire;

verus! {

/// Pauses the Token from being involved in any kind of Transaction until it is unpaused.
///
/// Must be signed with the Token's pause key.
///
/// Once executed the Token is marked as paused and will be not able to be a part of any transaction.
/// The operation is idempotent - becomes a no-op if the Token is already Paused.
///
/// - If the provided token is not found, the transaction will resolve to `INVALID_TOKEN_ID`.
/// - If the provided token has been deleted, the transaction will resolve to `TOKEN_WAS_DELETED`.
/// - If no Pause Key is defined, the transaction will resolve to `TOKEN_HAS_NO_PAUSE_KEY`.
pub type TokenPauseTransaction = Transaction<TokenPauseTransactionData>;

#[derive(Debug, Clone, Copy, PartialEq, Eq, Structural)]
pub struct TokenPauseTransactionData {
    /// The token to be paused.
    pub token_id: Option<TokenId>,
}

impl TokenPauseTransaction {
    /// Returns the token to be paused.
    pub fn get_token_id(&self) -> (token_id: Option<TokenId>)
        ensures
            token_id == self@.data.token_id,
    {
        self.data().token_id
    }

    /// Sets the token to be paused. A frozen transaction refuses and stays as it is.
    pub fn token_id(&mut self, token_id: TokenId) -> (result: Result<&mut Self, Error>)
        ensures
            old(self)@.frozen ==> result is Err && result->Err_0 == Error::InvalidState
                && final(self)@ == old(self)@,
            !old(self)@.frozen ==> result is Ok && *final(self) == *final(result->Ok_0)
                && result->Ok_0@ == (TransactionView {
                data: TokenPauseTransactionData { token_id: Some(token_id) },
                ..old(self)@
            }),
    {
        match self.data_mut() {
            Ok(data) => {
                data.token_id = Some(token_id);
            },
            Err(error) => {
                return Err(error);
            },
        }
        Ok(self)
    }
}

impl TokenPauseTransactionData {
    pub open spec fn spec_to_protobuf(self) -> wire::TokenPauseTransactionBody {
        wire::TokenPauseTransactionBody {
            token: match self.token_id {
                Some(id) => Some(wire::TokenId::spec_from_id(id)),
                None => None,
            },
        }
    }

    pub open spec fn spec_from_protobuf(pb: wire::TokenPauseTransactionBody)
        -> TokenPauseTransactionData {
        TokenPauseTransactionData {
            token_id: match pb.token {
                Some(id) => Some(id.spec_to_id()),
                None => None,
            },
        }
    }

    /// The IDs that this payload embeds, in the order in which they are checked.
    pub open spec fn spec_embedded_ids(self) -> Seq<EntityId> {
        match self.token_id {
            Some(id) => seq![id],
            None => Seq::empty(),
        }
    }

    /// A payload that names no token yet.
    pub fn new() -> (data: Self)
        ensures
            data.token_id is None,
    {
        TokenPauseTransactionData { token_id: None }
    }

    /// Checks the token ID, if one is set, with `validate`.
    pub fn validate_checksums<F: Fn(EntityId) -> Result<(), Error>>(&self, validate: &F) -> (result:
        Result<(), Error>)
        requires
            forall|id: EntityId| call_requires(*validate, (id,)),
        ensures
            spec_validated(*validate, self.spec_embedded_ids(), result),
    {
        let mut ids: Vec<EntityId> = Vec::new();
        match self.token_id {
            Some(id) => {
                ids.push(id);
            },
            None => {},
        }
        assert(ids@ =~= self.spec_embedded_ids());
        validate_ids(&ids, validate)
    }

    /// The payload that a wire form stands for.
    pub fn from_protobuf(pb: wire::TokenPauseTransactionBody) -> (result: Result<Self, Error>)
        ensures
            result == Ok::<Self, Error>(Self::spec_from_protobuf(pb)),
    {
        Ok(
            TokenPauseTransactionData {
                token_id: match pb.token {
                    Some(id) => Some(id.to_id()),
                    None => None,
                },
            },
        )
    }

    /// The wire form of the payload.
    pub fn to_protobuf(&self) -> (pb: wire::TokenPauseTransactionBody)
        ensures
            pb == self.spec_to_protobuf(),
    {
        wire::TokenPauseTransactionBody {
            token: match self.token_id {
                Some(id) => Some(wire::TokenId::from_id(id)),
                None => None,
            },
        }
    }

    /// The payload of a transaction body that is to be scheduled.
    pub fn to_schedulable_transaction_data_protobuf(&self) -> (data:
        wire::SchedulableTransactionData)
        ensures
            data@ == wire::SchedulableTransactionDataView::TokenPause(self.spec_to_protobuf()),
    {
        wire::SchedulableTransactionData::TokenPause(self.to_protobuf())
    }
}

impl Default for TokenPauseTransactionData {
    fn default() -> (data: Self)
        ensures
            data.token_id is None,
    {
        TokenPauseTransactionData::new()
    }
}

impl TransactionExecute for TokenPauseTransactionData {
    open spec fn spec_chunkable(&self) -> bool {
        false
    }

    open spec fn spec_service_method(&self) -> ServiceMethod {
        ServiceMethod::PauseToken
    }

    open spec fn spec_complete(&self) -> bool {
        self.token_id is Some
    }

    open spec fn spec_transaction_data(&self, chunk_info: ChunkInfo) -> wire::TransactionDataView {
        wire::TransactionDataView::TokenPause(self.spec_to_protobuf())
    }

    fn chunkable(&self) -> (chunkable: bool) {
        false
    }

    fn complete(&self) -> (complete: bool) {
        self.token_id.is_some()
    }

    fn service_method(&self) -> (method: ServiceMethod) {
        ServiceMethod::PauseToken
    }

    fn to_transaction_data_protobuf(&self, chunk_info: &ChunkInfo) -> (data: Result<
        wire::TransactionData,
        Error,
    >) {
        if !self.complete() {
            return Err(Error::MissingRequiredField);
        }
        if chunk_info.total != 1 {
            return Err(Error::BodySizeExceeded);
        }
        Ok(wire::TransactionData::TokenPause(self.to_protobuf()))
    }
}

} // verus!
