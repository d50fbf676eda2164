//! Splitting one oversized operation into chunks.

use vstd::prelude::*;
use crate::entity_id::AccountId;
use crate::error::Error;
use crate::transaction_id::TransactionId;

verus! {

/// The place of one chunk within its operation, for one target node.
#[derive(Debug, Clone, Copy, PartialEq, Eq, Structural)]
pub struct ChunkInfo {
    /// The index of this chunk, from zero.
    pub current: usize,
    /// The number of chunks of the operation.
    pub total: usize,
    /// The ID of the first chunk, which names the whole operation.
    pub initial_transaction_id: TransactionId,
    /// The ID of this chunk.
    pub current_transaction_id: TransactionId,
    /// The node that this chunk is built for.
    pub node_account_id: AccountId,
}

/// The number of chunks that a payload of `payload_len` bytes needs when a chunk
/// holds `chunk_size` bytes. An empty payload still makes one chunk.
pub open spec fn spec_chunk_count(payload_len: nat, chunk_size: nat) -> nat {
    if payload_len == 0 {
        1
    } else {
        ((payload_len + chunk_size - 1) / chunk_size as int) as nat
    }
}

/// The valid start of the chunk with index `index`: each chunk starts `increment`
/// nanoseconds after the one before, so that no two chunks look like duplicates.
pub open spec fn spec_chunk_valid_start(base: TransactionId, index: nat, increment: u64) -> int {
    base.valid_start + index * increment
}

/// The ID of the chunk with index `index`: the base ID's payer, flag and nonce, with
/// the valid start moved on.
pub open spec fn spec_chunk_id(base: TransactionId, index: nat, increment: u64) -> TransactionId {
    TransactionId { valid_start: spec_chunk_valid_start(base, index, increment) as u64, ..base }
}

/// What planning the chunks of an operation gives: the number of chunks, or the
/// reason why there is no plan.
pub open spec fn spec_plan(
    base: TransactionId,
    payload_len: nat,
    chunk_size: nat,
    increment: u64,
    chunkable: bool,
) -> Result<nat, Error> {
    if payload_len > 0 && chunk_size == 0 {
        Err(Error::BodySizeExceeded)
    } else if !chunkable && spec_chunk_count(payload_len, chunk_size) > 1 {
        Err(Error::BodySizeExceeded)
    } else if spec_chunk_valid_start(
        base,
        (spec_chunk_count(payload_len, chunk_size) - 1) as nat,
        increment,
    ) > u64::MAX {
        Err(Error::BasicNum)
    } else {
        Ok(spec_chunk_count(payload_len, chunk_size))
    }
}

/// The number of chunks for a payload.
pub fn chunk_count(payload_len: usize, chunk_size: usize) -> (count: usize)
    requires
        payload_len == 0 || chunk_size > 0,
    ensures
        count == spec_chunk_count(payload_len as nat, chunk_size as nat),
        count >= 1,
        payload_len > 0 ==> (count - 1) * chunk_size < payload_len <= count * chunk_size,
{
    if payload_len == 0 {
        return 1;
    }
    let full = payload_len / chunk_size;
    let rest = payload_len % chunk_size;
    proof {
        let p = payload_len as int;
        let c = chunk_size as int;
        assert(p == c * (p / c) + p % c) by (nonlinear_arith)
            requires
                c > 0,
        ;
        if p % c == 0 {
            assert((p + c - 1) / c == p / c) by (nonlinear_arith)
                requires
                    c > 0,
                    p == c * (p / c),
                    p % c == 0,
            ;
        } else {
            assert((p + c - 1) / c == p / c + 1) by (nonlinear_arith)
                requires
                    c > 0,
                    p == c * (p / c) + p % c,
                    0 < p % c < c,
            ;
        }
        assert(p / c >= 1 || p % c > 0) by (nonlinear_arith)
            requires
                c > 0,
                p > 0,
                p == c * (p / c) + p % c,
        ;
        assert(p % c > 0 ==> p / c < p) by (nonlinear_arith)
            requires
                c > 0,
                p > 0,
                p == c * (p / c) + p % c,
        ;
        assert((p / c) * c == c * (p / c)) by (nonlinear_arith);
        assert((p / c + 1) * c == c * (p / c) + c) by (nonlinear_arith);
        assert((p / c - 1) * c == c * (p / c) - c) by (nonlinear_arith);
    }
    if rest == 0 {
        full
    } else {
        full + 1
    }
}

/// The transaction IDs of the chunks of an operation whose first chunk has the ID
/// `base`.
///
/// A payload that needs more than one chunk is refused with `BodySizeExceeded` unless
/// the operation is `chunkable`, and so is a payload for which no chunk has room. A
/// valid start that does not fit in 64 bits is refused with `BasicNum`.
pub fn chunk_transaction_ids(
    base: TransactionId,
    payload_len: usize,
    chunk_size: usize,
    increment: u64,
    chunkable: bool,
) -> (result: Result<Vec<TransactionId>, Error>)
    ensures
        match spec_plan(base, payload_len as nat, chunk_size as nat, increment, chunkable) {
            Ok(count) => result is Ok && result->Ok_0@.len() == count && (forall|i: int|
                0 <= i < count ==> #[trigger] result->Ok_0@[i] == spec_chunk_id(
                    base,
                    i as nat,
                    increment,
                )),
            Err(error) => result is Err && result->Err_0 == error,
        },
{
    if payload_len > 0 && chunk_size == 0 {
        return Err(Error::BodySizeExceeded);
    }
    let count = chunk_count(payload_len, chunk_size);
    if !chunkable && count > 1 {
        return Err(Error::BodySizeExceeded);
    }
    let mut ids: Vec<TransactionId> = Vec::new();
    let mut valid_start: u64 = base.valid_start;
    let mut i: usize = 0;
    assert(0 * increment == 0) by (nonlinear_arith);
    while i < count
        invariant
            i <= count,
            count >= 1,
            count == spec_chunk_count(payload_len as nat, chunk_size as nat),
            payload_len == 0 || chunk_size > 0,
            chunkable || count <= 1,
            ids@.len() == i,
            i < count ==> valid_start == spec_chunk_valid_start(base, i as nat, increment),
            i > 0 ==> spec_chunk_valid_start(base, (i - 1) as nat, increment) <= u64::MAX,
            forall|k: int| 0 <= k < i ==> #[trigger] ids@[k] == spec_chunk_id(base, k as nat, increment),
        decreases count - i,
    {
        ids.push(TransactionId { valid_start, ..base });
        if i + 1 < count {
            assert((i + 1) * increment == i * increment + increment) by (nonlinear_arith);
            if increment > u64::MAX - valid_start {
                assert((i + 1) * increment <= (count - 1) * increment) by (nonlinear_arith)
                    requires
                        i + 1 <= count - 1,
                ;
                return Err(Error::BasicNum);
            }
            valid_start = valid_start + increment;
        }
        i = i + 1;
    }
    Ok(ids)
}

/// The place of the chunk with index `index` among `total`, for `node`.
pub open spec fn spec_chunk_info(
    base: TransactionId,
    index: nat,
    total: nat,
    increment: u64,
    node: AccountId,
) -> ChunkInfo {
    ChunkInfo {
        current: index as usize,
        total: total as usize,
        initial_transaction_id: base,
        current_transaction_id: spec_chunk_id(base, index, increment),
        node_account_id: node,
    }
}

/// The chunks of an operation whose first chunk has the ID `base`, in order, as they
/// are built for `node`. What [`chunk_transaction_ids`] refuses is refused here too.
pub fn chunk_infos(
    base: TransactionId,
    payload_len: usize,
    chunk_size: usize,
    increment: u64,
    chunkable: bool,
    node: AccountId,
) -> (result: Result<Vec<ChunkInfo>, Error>)
    ensures
        match spec_plan(base, payload_len as nat, chunk_size as nat, increment, chunkable) {
            Ok(count) => result is Ok && result->Ok_0@.len() == count && (forall|i: int|
                0 <= i < count ==> #[trigger] result->Ok_0@[i] == spec_chunk_info(
                    base,
                    i as nat,
                    count,
                    increment,
                    node,
                )),
            Err(error) => result is Err && result->Err_0 == error,
        },
{
    let ids = match chunk_transaction_ids(base, payload_len, chunk_size, increment, chunkable) {
        Ok(ids) => ids,
        Err(error) => {
            return Err(error);
        },
    };
    let total = ids.len();
    let mut chunks: Vec<ChunkInfo> = Vec::new();
    let mut i: usize = 0;
    while i < total
        invariant
            i <= total == ids@.len(),
            chunks@.len() == i,
            forall|k: int|
                0 <= k < total ==> #[trigger] ids@[k] == spec_chunk_id(base, k as nat, increment),
            forall|k: int|
                0 <= k < i ==> #[trigger] chunks@[k] == spec_chunk_info(
                    base,
                    k as nat,
                    total as nat,
                    increment,
                    node,
                ),
        decreases total - i,
    {
        chunks.push(
            ChunkInfo {
                current: i,
                total,
                initial_transaction_id: base,
                current_transaction_id: ids[i],
                node_account_id: node,
            },
        );
        i = i + 1;
    }
    Ok(chunks)
}

/// The chunks of one operation share the payer, the flag and the nonce of the base ID,
/// and their valid starts lie one increment apart.
pub proof fn lemma_chunk_ids_consecutive(base: TransactionId, index: nat, increment: u64)
    requires
        spec_chunk_valid_start(base, index + 1, increment) <= u64::MAX,
    ensures
        spec_chunk_id(base, index, increment).account_id == base.account_id,
        spec_chunk_id(base, index, increment).nonce == base.nonce,
        spec_chunk_id(base, index, increment).scheduled == base.scheduled,
        spec_chunk_id(base, 0, increment) == base,
        spec_chunk_id(base, index + 1, increment).valid_start == spec_chunk_id(
            base,
            index,
            increment,
        ).valid_start + increment,
{
    assert((index + 1) * increment == index * increment + increment) by (nonlinear_arith);
    assert(0 * increment == 0) by (nonlinear_arith);
    assert(index * increment >= 0) by (nonlinear_arith)
        requires
            index >= 0,
            increment >= 0,
    ;
}

} // verus!
