//! Queries.

use vstd::prelude::*;
use crate::entity_id::AccountId;
use crate::wire;

pub mod cost;
pub mod execute;

pub use cost::QueryCost;

verus! {

/// What every kind of query payload can do: write itself as a query under a given
/// header.
pub trait ToQueryProtobuf {
    /// The wire message of this kind of query.
    type Protobuf;

    fn to_query_protobuf(&self, header: wire::QueryHeader) -> Self::Protobuf;
}

/// A query that can be executed on the network.
pub struct Query<D> {
    pub data: D,
    /// The nodes that the query may be sent to; the client's full set if `None`.
    pub node_account_ids: Option<Vec<AccountId>>,
}

impl<D> Query<D> {
    /// A query around `data` that may go to any node of the client.
    pub fn new_with(data: D) -> (query: Self)
        ensures
            query.data == data,
            query.node_account_ids is None,
    {
        Query { data, node_account_ids: None }
    }
}

} // verus!
