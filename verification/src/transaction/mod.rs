//! Transactions: the builder, and what freezing, signing and chunking make of it.

use vstd::prelude::*;
use crate::client::{copy_ids, Client};
use crate::duration::Duration;
use crate::entity_id::AccountId;
use crate::error::Error;
use crate::execute::{DispatchState, Dispatcher};
use crate::hbar::Hbar;
use crate::key::{copy_bytes, PrivateKey, PublicKey};
use crate::transaction_id::TransactionId;
use crate::wire;
use vstd::string::StrSliceExecFns;

pub mod chunk;
pub mod execute;
pub mod signature;

pub use chunk::ChunkInfo;
pub use execute::{ServiceMethod, TransactionExecute};
pub use signature::{
    lemma_signed_once, spec_distinct_signatures, spec_has_signature, spec_nodes_to_sign,
    spec_signatures_for, spec_signed, SignaturePair, SignaturePairView,
};

verus! {

/// The seconds for which a transaction is valid when the caller sets no duration.
pub const DEFAULT_TRANSACTION_VALID_DURATION: i64 = 120;

/// The fee ceiling, in tinybars, of a transaction for which the caller sets none.
pub const DEFAULT_MAX_TRANSACTION_FEE: u64 = 200_000_000;

/// The most characters that a transaction memo may have.
pub const MAX_MEMO_LENGTH: usize = 100;

/// What the caller gets when a node has accepted the transaction: which node it was,
/// and the ID under which the network knows the transaction.
#[derive(Debug, Clone, Copy, PartialEq, Eq, Structural)]
pub struct TransactionResponse {
    pub node_account_id: AccountId,
    pub transaction_id: TransactionId,
}

/// A transaction as the contracts see it.
pub struct TransactionView<D> {
    pub data: D,
    /// The nodes that the transaction may be submitted to, if they were fixed.
    pub node_account_ids: Option<Seq<AccountId>>,
    pub transaction_valid_duration: Option<Duration>,
    pub max_transaction_fee: Option<Hbar>,
    pub transaction_memo: Seq<char>,
    pub payer_account_id: Option<AccountId>,
    pub transaction_id: Option<TransactionId>,
    /// The stored signatures, in the order in which they were made.
    pub signatures: Seq<SignaturePairView>,
    pub frozen: bool,
    pub executed: bool,
}

impl<D> TransactionView<D> {
    /// What holds of every transaction: a frozen one has its ID and its nodes, only a
    /// frozen one has signatures or was executed, and no signature is stored twice.
    pub open spec fn wf(self) -> bool {
        &&& self.frozen ==> self.transaction_id is Some && self.node_account_ids is Some
        &&& self.executed ==> self.frozen
        &&& !self.frozen ==> self.signatures.len() == 0
        &&& spec_distinct_signatures(self.signatures)
    }

    /// A transaction that was just made around `data`.
    pub open spec fn fresh(data: D) -> TransactionView<D> {
        TransactionView {
            data,
            node_account_ids: None,
            transaction_valid_duration: None,
            max_transaction_fee: None,
            transaction_memo: Seq::empty(),
            payer_account_id: None,
            transaction_id: None,
            signatures: Seq::empty(),
            frozen: false,
            executed: false,
        }
    }

    /// The account that pays: the one set on the transaction, else the operator.
    pub open spec fn payer(self, operator: Option<AccountId>) -> Option<AccountId> {
        if self.payer_account_id is Some {
            self.payer_account_id
        } else {
            operator
        }
    }

    /// What freezing makes of a transaction, for a client with this operator and these
    /// nodes, at the time `now`.
    ///
    /// A frozen transaction stays as it is. Otherwise the transaction ID, if none was
    /// set, is made from the payer and the time, and the node list, if none was set,
    /// becomes a copy of the client's. Without an ID and without a payer there is
    /// nothing to freeze.
    pub open spec fn freeze(self, operator: Option<AccountId>, now: u64, nodes: Seq<AccountId>)
        -> Result<TransactionView<D>, Error> {
        if self.frozen {
            Ok(self)
        } else if self.transaction_id is None && self.payer(operator) is None {
            Err(Error::NoPayerSet)
        } else {
            Ok(
                TransactionView {
                    transaction_id: Some(
                        match self.transaction_id {
                            Some(id) => id,
                            None => TransactionId {
                                account_id: self.payer(operator)->0,
                                valid_start: now,
                                scheduled: false,
                                nonce: 0,
                            },
                        },
                    ),
                    node_account_ids: Some(
                        match self.node_account_ids {
                            Some(ids) => ids,
                            None => nodes,
                        },
                    ),
                    frozen: true,
                    ..self
                },
            )
        }
    }
}

/// What executing a transaction does to it and gives back.
///
/// The transaction is frozen first, and what stops the freeze stops the execution. A
/// frozen transaction without a node cannot be dispatched. Otherwise the transaction
/// counts as executed, and the engine starts out with one slot for each node of the
/// frozen list, the client's budget and backoff, and the timeout as its deadline.
pub open spec fn spec_execute<D>(
    before: TransactionView<D>,
    after: TransactionView<D>,
    client: Client,
    now: u64,
    timeout: Option<u64>,
    result: Result<Dispatcher, Error>,
) -> bool {
    match before.freeze(client.operator, now, client.nodes@) {
        Err(error) => result is Err && result->Err_0 == error && after == before,
        Ok(frozen) => if frozen.node_account_ids->0.len() == 0 {
            result is Err && result->Err_0 == Error::InvalidState && after == frozen
        } else {
            result is Ok && after == (TransactionView { executed: true, ..frozen })
                && result->Ok_0@.wf() && result->Ok_0@ == DispatchState::initial(
                frozen.node_account_ids->0.len() as usize,
                client.max_attempts,
                client.backoff,
                timeout,
                client.status_policy.accepted@,
                client.status_policy.retryable@,
            )
        },
    }
}

/// Freezing twice is freezing once: the second freeze changes nothing, whatever the
/// client looks like by then, so the transaction ID and the node list stay the same.
pub proof fn lemma_freeze_idempotent<D>(
    tx: TransactionView<D>,
    operator: Option<AccountId>,
    now: u64,
    nodes: Seq<AccountId>,
    later_operator: Option<AccountId>,
    later: u64,
    later_nodes: Seq<AccountId>,
)
    requires
        tx.freeze(operator, now, nodes) is Ok,
    ensures
        tx.freeze(operator, now, nodes)->Ok_0.frozen,
        tx.freeze(operator, now, nodes)->Ok_0.freeze(later_operator, later, later_nodes)
            == tx.freeze(operator, now, nodes),
{
}

/// Freezing keeps what the caller set: an explicit transaction ID and an explicit node
/// list come out as they went in.
pub proof fn lemma_freeze_keeps_explicit<D>(
    tx: TransactionView<D>,
    operator: Option<AccountId>,
    now: u64,
    nodes: Seq<AccountId>,
)
    requires
        tx.wf(),
        tx.freeze(operator, now, nodes) is Ok,
    ensures
        tx.freeze(operator, now, nodes)->Ok_0.wf(),
        tx.transaction_id is Some ==> tx.freeze(operator, now, nodes)->Ok_0.transaction_id
            == tx.transaction_id,
        tx.node_account_ids is Some ==> tx.freeze(operator, now, nodes)->Ok_0.node_account_ids
            == tx.node_account_ids,
{
}

pub(crate) struct TransactionBody<D> {
    pub(crate) data: D,
    pub(crate) node_account_ids: Option<Vec<AccountId>>,
    pub(crate) transaction_valid_duration: Option<Duration>,
    pub(crate) max_transaction_fee: Option<Hbar>,
    pub(crate) transaction_memo: String,
    pub(crate) payer_account_id: Option<AccountId>,
    pub(crate) transaction_id: Option<TransactionId>,
}

/// A transaction that can be executed on the network.
///
/// It is built with the setters, which fail once the transaction is frozen. Freezing
/// fixes its ID and its nodes; after that it can only be signed and executed.
pub struct Transaction<D> {
    body: TransactionBody<D>,
    signatures: Vec<SignaturePair>,
    frozen: bool,
    executed: bool,
}

impl<D> View for Transaction<D> {
    type V = TransactionView<D>;

    closed spec fn view(&self) -> TransactionView<D> {
        TransactionView {
            data: self.body.data,
            node_account_ids: match self.body.node_account_ids {
                Some(ids) => Some(ids@),
                None => None,
            },
            transaction_valid_duration: self.body.transaction_valid_duration,
            max_transaction_fee: self.body.max_transaction_fee,
            transaction_memo: self.body.transaction_memo@,
            payer_account_id: self.body.payer_account_id,
            transaction_id: self.body.transaction_id,
            signatures: Seq::new(self.signatures@.len(), |i: int| self.signatures@[i]@),
            frozen: self.frozen,
            executed: self.executed,
        }
    }
}

impl<D> Transaction<D> {
    /// A transaction around `data`, with nothing else set.
    pub fn new_with(data: D) -> (tx: Self)
        ensures
            tx@ == TransactionView::fresh(data),
            tx@.wf(),
    {
        let tx = Transaction {
            body: TransactionBody {
                data,
                node_account_ids: None,
                transaction_valid_duration: None,
                transaction_memo: String::new(),
                max_transaction_fee: None,
                payer_account_id: None,
                transaction_id: None,
            },
            signatures: Vec::new(),
            frozen: false,
            executed: false,
        };
        assert(tx@.signatures =~= Seq::empty());
        tx
    }

    /// The payload.
    pub fn data(&self) -> (data: &D)
        ensures
            *data == self@.data,
    {
        &self.body.data
    }

    /// The payload, to be changed. A frozen transaction does not hand it out.
    pub fn data_mut(&mut self) -> (result: Result<&mut D, Error>)
        ensures
            old(self)@.frozen ==> result is Err && result->Err_0 == Error::InvalidState
                && *final(self) == *old(self),
            !old(self)@.frozen ==> result is Ok && *result->Ok_0 == old(self)@.data && final(self)@
                == (TransactionView { data: *final(result->Ok_0), ..old(self)@ }),
    {
        if self.frozen {
            return Err(Error::InvalidState);
        }
        Ok(&mut self.body.data)
    }

    pub fn is_frozen(&self) -> (frozen: bool)
        ensures
            frozen == self@.frozen,
    {
        self.frozen
    }

    pub fn is_executed(&self) -> (executed: bool)
        ensures
            executed == self@.executed,
    {
        self.executed
    }

    /// Set the account IDs of the nodes that this transaction may be submitted to.
    ///
    /// Defaults to the full list of nodes configured on the client.
    pub fn node_account_ids(&mut self, ids: Vec<AccountId>) -> (result: Result<&mut Self, Error>)
        ensures
            old(self)@.frozen ==> result is Err && result->Err_0 == Error::InvalidState
                && *final(self) == *old(self),
            !old(self)@.frozen ==> result is Ok && result->Ok_0@ == (TransactionView {
                node_account_ids: Some(ids@),
                ..old(self)@
            }) && *final(self) == *final(result->Ok_0),
    {
        if self.frozen {
            return Err(Error::InvalidState);
        }
        self.body.node_account_ids = Some(ids);
        Ok(self)
    }

    /// Sets the duration that this transaction is valid for, once finalized and signed.
    ///
    /// Defaults to 120 seconds (or two minutes).
    pub fn transaction_valid_duration(&mut self, duration: Duration) -> (result: Result<
        &mut Self,
        Error,
    >)
        ensures
            old(self)@.frozen ==> result is Err && result->Err_0 == Error::InvalidState
                && *final(self) == *old(self),
            !old(self)@.frozen ==> result is Ok && result->Ok_0@ == (TransactionView {
                transaction_valid_duration: Some(duration),
                ..old(self)@
            }) && *final(self) == *final(result->Ok_0),
    {
        if self.frozen {
            return Err(Error::InvalidState);
        }
        self.body.transaction_valid_duration = Some(duration);
        Ok(self)
    }

    /// Set the maximum transaction fee the paying account is willing to pay.
    pub fn max_transaction_fee(&mut self, fee: Hbar) -> (result: Result<&mut Self, Error>)
        ensures
            old(self)@.frozen ==> result is Err && result->Err_0 == Error::InvalidState
                && *final(self) == *old(self),
            !old(self)@.frozen ==> result is Ok && result->Ok_0@ == (TransactionView {
                max_transaction_fee: Some(fee),
                ..old(self)@
            }) && *final(self) == *final(result->Ok_0),
    {
        if self.frozen {
            return Err(Error::InvalidState);
        }
        self.body.max_transaction_fee = Some(fee);
        Ok(self)
    }

    /// Set a note or description that should be recorded in the transaction record
    /// (maximum length of 100 characters). A longer memo is refused.
    pub fn transaction_memo(&mut self, memo: &str) -> (result: Result<&mut Self, Error>)
        ensures
            old(self)@.frozen ==> result is Err && result->Err_0 == Error::InvalidState
                && *final(self) == *old(self),
            !old(self)@.frozen && memo@.len() > MAX_MEMO_LENGTH ==> result is Err && result->Err_0
                == Error::MemoTooLong && *final(self) == *old(self),
            !old(self)@.frozen && memo@.len() <= MAX_MEMO_LENGTH ==> result is Ok && result->Ok_0@
                == (TransactionView { transaction_memo: memo@, ..old(self)@ }) && *final(self)
                == *final(result->Ok_0),
    {
        if self.frozen {
            return Err(Error::InvalidState);
        }
        if memo.unicode_len() > MAX_MEMO_LENGTH {
            return Err(Error::MemoTooLong);
        }
        self.body.transaction_memo = memo.to_owned();
        Ok(self)
    }

    /// Set the account that pays for this transaction, in place of the client's
    /// operator.
    pub fn payer_account_id(&mut self, id: AccountId) -> (result: Result<&mut Self, Error>)
        ensures
            old(self)@.frozen ==> result is Err && result->Err_0 == Error::InvalidState
                && *final(self) == *old(self),
            !old(self)@.frozen ==> result is Ok && result->Ok_0@ == (TransactionView {
                payer_account_id: Some(id),
                ..old(self)@
            }) && *final(self) == *final(result->Ok_0),
    {
        if self.frozen {
            return Err(Error::InvalidState);
        }
        self.body.payer_account_id = Some(id);
        Ok(self)
    }

    /// Set an explicit transaction ID to use to identify this transaction.
    ///
    /// Overrides payer account defined on this transaction or on the client.
    pub fn transaction_id(&mut self, id: TransactionId) -> (result: Result<&mut Self, Error>)
        ensures
            old(self)@.frozen ==> result is Err && result->Err_0 == Error::InvalidState
                && *final(self) == *old(self),
            !old(self)@.frozen ==> result is Ok && result->Ok_0@ == (TransactionView {
                transaction_id: Some(id),
                ..old(self)@
            }) && *final(self) == *final(result->Ok_0),
    {
        if self.frozen {
            return Err(Error::InvalidState);
        }
        self.body.transaction_id = Some(id);
        Ok(self)
    }

    /// Freezes the transaction for a client with this operator and these nodes, at the
    /// time `now`, in nanoseconds since the Unix epoch. The nodes are copied: what the
    /// client is given later does not reach a transaction that is frozen.
    pub fn freeze_with(&mut self, operator: Option<AccountId>, now: u64, nodes: &Vec<AccountId>)
        -> (result: Result<(), Error>)
        ensures
            match old(self)@.freeze(operator, now, nodes@) {
                Ok(frozen) => result is Ok && final(self)@ == frozen,
                Err(error) => result == Err::<(), Error>(error) && *final(self) == *old(self),
            },
            old(self)@.wf() ==> final(self)@.wf(),
    {
        if self.frozen {
            return Ok(());
        }
        if self.body.transaction_id.is_none() {
            let payer = match self.body.payer_account_id {
                Some(id) => Some(id),
                None => operator,
            };
            match payer {
                Some(payer) => {
                    self.body.transaction_id = Some(TransactionId::generate(payer, now));
                },
                None => {
                    return Err(Error::NoPayerSet);
                },
            }
        }
        if self.body.node_account_ids.is_none() {
            self.body.node_account_ids = Some(copy_ids(nodes));
        }
        self.frozen = true;
        Ok(())
    }

    /// Execute this transaction against the provided client of the network: freezes
    /// the transaction if it is not frozen yet and hands out the retry engine for its
    /// dispatch, which knows of no deadline. `now` is the network time in nanoseconds
    /// since the Unix epoch.
    pub fn execute(&mut self, client: &Client, now: u64) -> (result: Result<Dispatcher, Error>)
        requires
            old(self)@.wf(),
        ensures
            final(self)@.wf(),
            spec_execute(old(self)@, final(self)@, *client, now, None, result),
    {
        self.execute_with_optional_timeout(client, now, None)
    }

    /// Execute this transaction against the provided client of the network, with no
    /// new attempt once `timeout` milliseconds have passed.
    pub fn execute_with_timeout(&mut self, client: &Client, now: u64, timeout: u64) -> (result:
        Result<Dispatcher, Error>)
        requires
            old(self)@.wf(),
        ensures
            final(self)@.wf(),
            spec_execute(old(self)@, final(self)@, *client, now, Some(timeout), result),
    {
        self.execute_with_optional_timeout(client, now, Some(timeout))
    }

    pub fn execute_with_optional_timeout(
        &mut self,
        client: &Client,
        now: u64,
        timeout: Option<u64>,
    ) -> (result: Result<Dispatcher, Error>)
        requires
            old(self)@.wf(),
        ensures
            final(self)@.wf(),
            spec_execute(old(self)@, final(self)@, *client, now, timeout, result),
    {
        match self.freeze_with(client.operator, now, &client.nodes) {
            Ok(()) => {},
            Err(error) => {
                return Err(error);
            },
        }
        let node_count = match &self.body.node_account_ids {
            Some(ids) => ids.len(),
            None => 0,
        };
        let dispatcher = match Dispatcher::new(
            node_count,
            client.max_attempts,
            client.backoff,
            timeout,
            client.status_policy.duplicate(),
        ) {
            Ok(dispatcher) => dispatcher,
            Err(error) => {
                return Err(error);
            },
        };
        self.executed = true;
        Ok(dispatcher)
    }

    /// The response for the caller once the node at `node` of the frozen node list has
    /// accepted the transaction.
    pub fn make_response(&self, node: usize) -> (result: Result<TransactionResponse, Error>)
        requires
            self@.wf(),
        ensures
            self@.frozen && node < self@.node_account_ids->0.len() ==> result == Ok::<
                TransactionResponse,
                Error,
            >(
                TransactionResponse {
                    node_account_id: self@.node_account_ids->0[node as int],
                    transaction_id: self@.transaction_id->0,
                },
            ),
            !(self@.frozen && node < self@.node_account_ids->0.len()) ==> result == Err::<
                TransactionResponse,
                Error,
            >(Error::InvalidState),
    {
        if !self.frozen {
            return Err(Error::InvalidState);
        }
        match (self.body.transaction_id, &self.body.node_account_ids) {
            (Some(transaction_id), Some(ids)) => {
                if node < ids.len() {
                    Ok(TransactionResponse { node_account_id: ids[node], transaction_id })
                } else {
                    Err(Error::InvalidState)
                }
            },
            _ => Err(Error::InvalidState),
        }
    }

    /// The transaction ID, once one was set or made.
    pub fn get_transaction_id(&self) -> (id: Option<TransactionId>)
        ensures
            id == self@.transaction_id,
    {
        self.body.transaction_id
    }

    /// The account IDs of the nodes that this transaction may be submitted to, once
    /// they were set or fixed.
    pub fn get_node_account_ids(&self) -> (ids: Option<&Vec<AccountId>>)
        ensures
            ids is Some <==> self@.node_account_ids is Some,
            ids is Some ==> ids->0@ == self@.node_account_ids->0,
    {
        self.body.node_account_ids.as_ref()
    }

    /// The duration that this transaction is valid for: the one that was set, else two
    /// minutes.
    pub fn get_transaction_valid_duration(&self) -> (duration: Duration)
        ensures
            duration == (match self@.transaction_valid_duration {
                Some(duration) => duration,
                None => Duration { seconds: DEFAULT_TRANSACTION_VALID_DURATION },
            }),
    {
        match self.body.transaction_valid_duration {
            Some(duration) => duration,
            None => Duration::seconds(DEFAULT_TRANSACTION_VALID_DURATION),
        }
    }

    pub fn get_max_transaction_fee(&self) -> (fee: Option<Hbar>)
        ensures
            fee == self@.max_transaction_fee,
    {
        self.body.max_transaction_fee
    }

    pub fn get_transaction_memo(&self) -> (memo: &str)
        ensures
            memo@ == self@.transaction_memo,
    {
        self.body.transaction_memo.as_str()
    }

    pub fn get_payer_account_id(&self) -> (id: Option<AccountId>)
        ensures
            id == self@.payer_account_id,
    {
        self.body.payer_account_id
    }
}

/// The body of the chunk of `tx` that `chunk_info` describes.
pub open spec fn spec_body<D: TransactionExecute>(tx: TransactionView<D>, chunk_info: ChunkInfo)
    -> wire::TransactionBodyView {
    wire::TransactionBodyView {
        transaction_id: Some(wire::TransactionId::spec_from_id(chunk_info.current_transaction_id)),
        node_account_id: Some(wire::AccountId::spec_from_id(chunk_info.node_account_id)),
        transaction_fee: match tx.max_transaction_fee {
            Some(fee) => fee.tinybars as u64,
            None => DEFAULT_MAX_TRANSACTION_FEE,
        },
        transaction_valid_duration: Some(
            wire::Duration {
                seconds: match tx.transaction_valid_duration {
                    Some(duration) => duration.seconds,
                    None => DEFAULT_TRANSACTION_VALID_DURATION,
                },
            },
        ),
        memo: tx.transaction_memo,
        data: Some(tx.data.spec_transaction_data(chunk_info)),
    }
}

/// The place of the only chunk of a transaction with the ID `id`, for `node`.
pub open spec fn spec_single_chunk(id: TransactionId, node: AccountId) -> ChunkInfo {
    ChunkInfo {
        current: 0,
        total: 1,
        initial_transaction_id: id,
        current_transaction_id: id,
        node_account_id: node,
    }
}

/// Whether `signature` is what `signer` may answer when it is handed the body of `tx`
/// for `node`.
pub open spec fn spec_signs<D: TransactionExecute, F: Fn(&wire::TransactionBody) -> Vec<u8>>(
    signer: F,
    tx: TransactionView<D>,
    node: AccountId,
    signature: Seq<u8>,
) -> bool {
    exists|body: wire::TransactionBody, answer: Vec<u8>|
        body@ == spec_body(tx, spec_single_chunk(tx.transaction_id->0, node)) && call_ensures(
            signer,
            (&body,),
            answer,
        ) && answer@ == signature
}

impl<D: TransactionExecute> Transaction<D> {
    /// The body of the chunk of this transaction that `chunk_info` describes.
    pub fn make_body(&self, chunk_info: &ChunkInfo) -> (result: Result<wire::TransactionBody, Error>)
        ensures
            !self@.data.spec_complete() ==> result is Err && result->Err_0
                == Error::MissingRequiredField,
            self@.data.spec_complete() && chunk_info.total != 1 && !self@.data.spec_chunkable()
                ==> result is Err && result->Err_0 == Error::BodySizeExceeded,
            self@.data.spec_complete() && (chunk_info.total == 1 || self@.data.spec_chunkable())
                ==> result is Ok && result->Ok_0@ == spec_body(self@, *chunk_info),
    {
        let data = match self.body.data.to_transaction_data_protobuf(chunk_info) {
            Ok(data) => data,
            Err(error) => {
                return Err(error);
            },
        };
        let transaction_fee = match self.body.max_transaction_fee {
            Some(fee) => fee.to_tinybars() as u64,
            None => DEFAULT_MAX_TRANSACTION_FEE,
        };
        let seconds = match self.body.transaction_valid_duration {
            Some(duration) => duration.whole_seconds(),
            None => DEFAULT_TRANSACTION_VALID_DURATION,
        };
        Ok(
            wire::TransactionBody {
                transaction_id: Some(wire::TransactionId::from_id(chunk_info.current_transaction_id)),
                node_account_id: Some(wire::AccountId::from_id(chunk_info.node_account_id)),
                transaction_fee,
                transaction_valid_duration: Some(wire::Duration { seconds }),
                memo: self.body.transaction_memo.clone(),
                data: Some(data),
            },
        )
    }

    /// The chunks that this frozen transaction expands into when its payload has
    /// `payload_len` bytes and one chunk holds `chunk_size` of them, as they are built
    /// for `node`. Each chunk starts `increment` nanoseconds after the one before.
    pub fn chunk(&self, payload_len: usize, chunk_size: usize, increment: u64, node: AccountId) -> (result:
        Result<Vec<ChunkInfo>, Error>)
        requires
            self@.wf(),
        ensures
            !self@.frozen ==> result is Err && result->Err_0 == Error::InvalidState,
            self@.frozen ==> (match chunk::spec_plan(
                self@.transaction_id->0,
                payload_len as nat,
                chunk_size as nat,
                increment,
                self@.data.spec_chunkable(),
            ) {
                Ok(count) => result is Ok && result->Ok_0@.len() == count && (forall|i: int|
                    0 <= i < count ==> #[trigger] result->Ok_0@[i] == chunk::spec_chunk_info(
                        self@.transaction_id->0,
                        i as nat,
                        count,
                        increment,
                        node,
                    )),
                Err(error) => result is Err && result->Err_0 == error,
            }),
    {
        if !self.frozen {
            return Err(Error::InvalidState);
        }
        match self.body.transaction_id {
            Some(base) => chunk::chunk_infos(
                base,
                payload_len,
                chunk_size,
                increment,
                self.body.data.chunkable(),
                node,
            ),
            None => Err(Error::InvalidState),
        }
    }

    /// Whether a signature made with `public_key` for `node` is stored.
    pub fn has_signature(&self, public_key: &PublicKey, node: AccountId) -> (found: bool)
        ensures
            found == spec_has_signature(self@.signatures, public_key.bytes@, node),
    {
        let mut i: usize = 0;
        while i < self.signatures.len()
            invariant
                i <= self.signatures.len(),
                forall|k: int|
                    0 <= k < i ==> !((#[trigger] self@.signatures[k]).public_key
                        == public_key.bytes@ && self@.signatures[k].node_account_id == node),
            decreases self.signatures.len() - i,
        {
            let pair = &self.signatures[i];
            assert(self@.signatures[i as int] == self.signatures@[i as int]@);
            if pair.node_account_id == node && pair.public_key.same_as(public_key) {
                return true;
            }
            i = i + 1;
        }
        false
    }

    /// The number of stored signatures.
    pub fn signature_count(&self) -> (count: usize)
        ensures
            count == self@.signatures.len(),
    {
        self.signatures.len()
    }

    /// Sign the transaction: stores, under the public key of `private_key`, one
    /// signature by it for each node of the frozen node list that has none of that key
    /// yet. What [`sign_with`](Self::sign_with) refuses is refused here too.
    pub fn sign<K: PrivateKey>(&mut self, private_key: &K) -> (result: Result<(), Error>)
        requires
            old(self)@.wf(),
        ensures
            final(self)@.wf(),
            old(self)@.executed ==> result == Err::<(), Error>(Error::AlreadyExecuted)
                && *final(self) == *old(self),
            !old(self)@.frozen ==> result == Err::<(), Error>(Error::InvalidState) && *final(self)
                == *old(self),
            old(self)@.frozen && !old(self)@.executed && !old(self)@.data.spec_complete() ==> result
                == Err::<(), Error>(Error::MissingRequiredField) && *final(self) == *old(self),
            old(self)@.frozen && !old(self)@.executed && old(self)@.data.spec_complete() ==> result is Ok
                && final(self)@ == (TransactionView {
                signatures: final(self)@.signatures,
                ..old(self)@
            }) && exists|public_key: PublicKey|
                call_ensures(K::public_key, (private_key,), public_key) && #[trigger] spec_signed(
                    old(self)@.signatures,
                    final(self)@.signatures,
                    public_key.bytes@,
                    spec_nodes_to_sign(
                        old(self)@.signatures,
                        public_key.bytes@,
                        old(self)@.node_account_ids->0,
                    ),
                ),
    {
        if self.executed {
            return Err(Error::AlreadyExecuted);
        }
        if !self.frozen {
            return Err(Error::InvalidState);
        }
        if !self.body.data.complete() {
            return Err(Error::MissingRequiredField);
        }
        let public_key = private_key.public_key();
        let ghost key = public_key;
        let signer = |body: &wire::TransactionBody| -> (signature: Vec<u8>) { private_key.sign(body) };
        let result = self.sign_with(public_key, signer);
        assert(spec_signed(
            old(self)@.signatures,
            self@.signatures,
            key.bytes@,
            spec_nodes_to_sign(old(self)@.signatures, key.bytes@, old(self)@.node_account_ids->0),
        ));
        result
    }

    /// Signs the transaction with the signer that is bound to `public_key`.
    ///
    /// For each node of the frozen node list that has no signature of this key yet,
    /// the signer is handed the body for that node, and its answer is stored under the
    /// key and the node. Signing with the same key again therefore stores nothing. A
    /// transaction that is not frozen cannot be signed, and neither can one that was
    /// executed or one whose payload lacks a required field.
    pub fn sign_with<F: Fn(&wire::TransactionBody) -> Vec<u8>>(
        &mut self,
        public_key: PublicKey,
        signer: F,
    ) -> (result: Result<(), Error>)
        requires
            old(self)@.wf(),
            forall|body: wire::TransactionBody| call_requires(signer, (&body,)),
        ensures
            final(self)@.wf(),
            old(self)@.executed ==> result == Err::<(), Error>(Error::AlreadyExecuted)
                && *final(self) == *old(self),
            !old(self)@.frozen ==> result == Err::<(), Error>(Error::InvalidState) && *final(self)
                == *old(self),
            old(self)@.frozen && !old(self)@.executed && !old(self)@.data.spec_complete() ==> result
                == Err::<(), Error>(Error::MissingRequiredField) && *final(self) == *old(self),
            old(self)@.frozen && !old(self)@.executed && old(self)@.data.spec_complete() ==> result is Ok
                && final(self)@ == (TransactionView {
                signatures: final(self)@.signatures,
                ..old(self)@
            }) && spec_signed(
                old(self)@.signatures,
                final(self)@.signatures,
                public_key.bytes@,
                spec_nodes_to_sign(
                    old(self)@.signatures,
                    public_key.bytes@,
                    old(self)@.node_account_ids->0,
                ),
            ) && (forall|k: int|
                old(self)@.signatures.len() <= k < final(self)@.signatures.len() ==> spec_signs(
                    signer,
                    old(self)@,
                    (#[trigger] final(self)@.signatures[k]).node_account_id,
                    final(self)@.signatures[k].signature,
                )),
    {
        if self.executed {
            return Err(Error::AlreadyExecuted);
        }
        if !self.frozen {
            return Err(Error::InvalidState);
        }
        if !self.body.data.complete() {
            return Err(Error::MissingRequiredField);
        }
        let transaction_id = match self.body.transaction_id {
            Some(id) => id,
            None => {
                return Err(Error::InvalidState);
            },
        };
        let count = match &self.body.node_account_ids {
            Some(ids) => ids.len(),
            None => 0,
        };
        let ghost before = self@.signatures;
        let ghost nodes = self@.node_account_ids->0;
        let ghost key = public_key.bytes@;
        let mut i: usize = 0;
        assert(nodes.subrange(0, 0) =~= Seq::empty());
        assert(self@.signatures.subrange(0, before.len() as int) =~= before);
        while i < count
            invariant
                i <= count == nodes.len(),
                key == public_key.bytes@,
                before == old(self)@.signatures,
                old(self)@.wf(),
                old(self)@.frozen,
                old(self)@.data.spec_complete(),
                old(self)@.transaction_id == Some(transaction_id),
                nodes == old(self)@.node_account_ids->0,
                self@ == (TransactionView { signatures: self@.signatures, ..old(self)@ }),
                forall|body: wire::TransactionBody| call_requires(signer, (&body,)),
                spec_signed(
                    before,
                    self@.signatures,
                    key,
                    spec_nodes_to_sign(before, key, nodes.subrange(0, i as int)),
                ),
                forall|k: int|
                    before.len() <= k < self@.signatures.len() ==> spec_signs(
                        signer,
                        old(self)@,
                        (#[trigger] self@.signatures[k]).node_account_id,
                        self@.signatures[k].signature,
                    ),
            decreases count - i,
        {
            let node = match &self.body.node_account_ids {
                Some(ids) => ids[i],
                None => {
                    return Err(Error::InvalidState);
                },
            };
            let ghost front = nodes.subrange(0, i as int);
            let ghost added = spec_nodes_to_sign(before, key, front);
            let ghost current = self@.signatures;
            assert(nodes.subrange(0, i + 1).drop_last() == front);
            assert(nodes.subrange(0, i + 1).last() == node);
            let found = self.has_signature(&public_key, node);
            proof {
                // A signature is stored now if it was stored before or was added since.
                if spec_has_signature(current, key, node) {
                    let at = choose|at: int|
                        0 <= at < current.len() && (#[trigger] current[at]).public_key == key
                            && current[at].node_account_id == node;
                    if at < before.len() {
                        assert(current.subrange(0, before.len() as int)[at] == current[at]);
                    } else {
                        assert(current[before.len() + (at - before.len())] == current[at]);
                        assert(added[at - before.len()] == node);
                    }
                } else {
                    if spec_has_signature(before, key, node) {
                        let at = choose|at: int|
                            0 <= at < before.len() && (#[trigger] before[at]).public_key == key
                                && before[at].node_account_id == node;
                        assert(current.subrange(0, before.len() as int)[at] == current[at]);
                    }
                    if added.contains(node) {
                        let at = choose|at: int| 0 <= at < added.len() && added[at] == node;
                        assert(current[before.len() + at].node_account_id == node);
                    }
                }
            }
            if !found {
                let chunk_info = ChunkInfo {
                    current: 0,
                    total: 1,
                    initial_transaction_id: transaction_id,
                    current_transaction_id: transaction_id,
                    node_account_id: node,
                };
                let body = match self.make_body(&chunk_info) {
                    Ok(body) => body,
                    Err(error) => {
                        return Err(Error::InvalidState);
                    },
                };
                let signature = signer(&body);
                assert(spec_signs(signer, old(self)@, node, signature@));
                self.signatures.push(
                    SignaturePair {
                        public_key: public_key.duplicate(),
                        node_account_id: node,
                        signature,
                    },
                );
                proof {
                    let after = self@.signatures;
                    assert(after =~= current.push(after[current.len() as int]));
                    assert(after.subrange(0, before.len() as int) =~= current.subrange(
                        0,
                        before.len() as int,
                    ));
                    assert forall|k: int| 0 <= k < added.len() + 1 implies (#[trigger] after[before.len()
                        + k]).public_key == key && after[before.len() + k].node_account_id
                        == added.push(node)[k] by {
                        if k < added.len() {
                            assert(after[before.len() + k] == current[before.len() + k]);
                        }
                    }
                    assert forall|k: int| before.len() <= k < after.len() implies spec_signs(
                        signer,
                        old(self)@,
                        (#[trigger] after[k]).node_account_id,
                        after[k].signature,
                    ) by {
                        if k < current.len() {
                            assert(after[k] == current[k]);
                        }
                    }
                }
            }
            i = i + 1;
        }
        proof {
            assert(nodes.subrange(0, count as int) == nodes);
            lemma_signed_once(before, self@.signatures, key, nodes);
        }
        Ok(())
    }

    /// The transaction as it is sent to the node at `node` of the frozen node list: the
    /// body for that node and the signatures that were made for it.
    pub fn make_request(&self, node: usize) -> (result: Result<wire::Transaction, Error>)
        requires
            self@.wf(),
        ensures
            !self@.frozen || node >= self@.node_account_ids->0.len() ==> result is Err
                && result->Err_0 == Error::InvalidState,
            self@.frozen && node < self@.node_account_ids->0.len() && !self@.data.spec_complete()
                ==> result is Err && result->Err_0 == Error::MissingRequiredField,
            self@.frozen && node < self@.node_account_ids->0.len() && self@.data.spec_complete()
                ==> result is Ok && result->Ok_0.body@ == spec_body(
                self@,
                spec_single_chunk(self@.transaction_id->0, self@.node_account_ids->0[node as int]),
            ) && Seq::new(
                result->Ok_0.sig_pairs@.len(),
                |i: int| result->Ok_0.sig_pairs@[i]@,
            ) == spec_signatures_for(self@.signatures, self@.node_account_ids->0[node as int]),
    {
        if !self.frozen {
            return Err(Error::InvalidState);
        }
        let (transaction_id, node_account_id) = match (
            self.body.transaction_id,
            &self.body.node_account_ids,
        ) {
            (Some(id), Some(ids)) => {
                if node >= ids.len() {
                    return Err(Error::InvalidState);
                }
                (id, ids[node])
            },
            _ => {
                return Err(Error::InvalidState);
            },
        };
        let chunk_info = ChunkInfo {
            current: 0,
            total: 1,
            initial_transaction_id: transaction_id,
            current_transaction_id: transaction_id,
            node_account_id,
        };
        let body = match self.make_body(&chunk_info) {
            Ok(body) => body,
            Err(error) => {
                return Err(error);
            },
        };
        let mut sig_pairs: Vec<wire::SignaturePair> = Vec::new();
        let mut i: usize = 0;
        assert(self@.signatures.subrange(0, 0) =~= Seq::empty());
        while i < self.signatures.len()
            invariant
                i <= self.signatures.len(),
                Seq::new(sig_pairs@.len(), |k: int| sig_pairs@[k]@) == spec_signatures_for(
                    self@.signatures.subrange(0, i as int),
                    node_account_id,
                ),
            decreases self.signatures.len() - i,
        {
            let pair = &self.signatures[i];
            let ghost collected = Seq::new(sig_pairs@.len(), |k: int| sig_pairs@[k]@);
            assert(self@.signatures.subrange(0, i + 1).drop_last() == self@.signatures.subrange(
                0,
                i as int,
            ));
            assert(self@.signatures.subrange(0, i + 1).last() == pair@);
            if pair.node_account_id == node_account_id {
                sig_pairs.push(
                    wire::SignaturePair {
                        pub_key_prefix: copy_bytes(&pair.public_key.bytes),
                        signature: copy_bytes(&pair.signature),
                    },
                );
                assert(Seq::new(sig_pairs@.len(), |k: int| sig_pairs@[k]@) =~= collected.push(
                    (pair@.public_key, pair@.signature),
                ));
            }
            i = i + 1;
        }
        assert(self@.signatures.subrange(0, self.signatures.len() as int) == self@.signatures);
        Ok(wire::Transaction { body, sig_pairs })
    }
}

impl<D: Default> Transaction<D> {
    /// Create a new default transaction: one around the default payload, with nothing
    /// else set.
    pub fn new() -> (tx: Self)
        ensures
            tx@.wf(),
            tx@ == TransactionView::fresh(tx@.data),
            call_ensures(D::default, (), tx@.data),
    {
        Transaction::new_with(D::default())
    }
}

} // verus!
