//! What every kind of transaction payload can do.

use vstd::prelude::*;
use crate::error::Error;
use crate::transaction::chunk::ChunkInfo;
use crate::wire;

verus! {

/// The service methods that execute the transactions of this library.
#[derive(Debug, Clone, Copy, PartialEq, Eq, Structural)]
pub enum ServiceMethod {
    /// The crypto service's transfer.
    CryptoTransfer,
    /// The smart-contract service's update.
    UpdateContract,
    /// The token service's pause.
    PauseToken,
}

/// The capability that every transaction payload has: it says which service method
/// executes it, and it writes itself as the payload of a transaction body.
pub trait TransactionExecute {
    /// Whether a payload of this kind may be spread over several chunks.
    spec fn spec_chunkable(&self) -> bool;

    /// The service method that executes a payload of this kind.
    spec fn spec_service_method(&self) -> ServiceMethod;

    /// Whether every field is set that the payload cannot do without.
    spec fn spec_complete(&self) -> bool;

    /// The payload of the body of the chunk that `chunk_info` describes.
    spec fn spec_transaction_data(&self, chunk_info: ChunkInfo) -> wire::TransactionDataView;

    fn chunkable(&self) -> (chunkable: bool)
        ensures
            chunkable == self.spec_chunkable(),
    ;

    fn complete(&self) -> (complete: bool)
        ensures
            complete == self.spec_complete(),
    ;

    /// The service method that executes this payload.
    fn service_method(&self) -> (method: ServiceMethod)
        ensures
            method == self.spec_service_method(),
    ;

    /// The payload of the body of one chunk. A payload that lacks a required field
    /// refuses to be written, and one that cannot be chunked refuses to be anything but
    /// the only chunk.
    fn to_transaction_data_protobuf(&self, chunk_info: &ChunkInfo) -> (data: Result<
        wire::TransactionData,
        Error,
    >)
        ensures
            !self.spec_complete() ==> data is Err && data->Err_0 == Error::MissingRequiredField,
            self.spec_complete() && chunk_info.total != 1 && !self.spec_chunkable() ==> data is Err
                && data->Err_0 == Error::BodySizeExceeded,
            self.spec_complete() && (chunk_info.total == 1 || self.spec_chunkable()) ==> data is Ok
                && data->Ok_0@ == self.spec_transaction_data(*chunk_info),
    ;
}

} // verus!
