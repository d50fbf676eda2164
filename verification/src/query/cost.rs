//! Asking what a query would cost.

use vstd::prelude::*;
use crate::client::{copy_ids, Client};
use crate::entity_id::AccountId;
use crate::error::Error;
use crate::execute::{DispatchState, Dispatcher};
use crate::query::execute::{query_pre_check_status, response_header, spec_response_header};
use crate::query::{Query, ToQueryProtobuf};
use crate::transaction_id::TransactionId;
use crate::wire;

verus! {

/// The cost estimation of a query: the query itself, asked for its price only.
///
/// It is dispatched like any other operation. It has no transaction ID, since it is
/// not paid for, and its response is a single fee.
pub struct QueryCost<'a, D>(pub &'a Query<D>) where D: ToQueryProtobuf;

/// The nodes that an operation restricted to `restriction` may go to when the client
/// has `all`: the restriction if there is one, else every node of the client.
pub open spec fn spec_candidates(restriction: Option<Seq<AccountId>>, all: Seq<AccountId>) -> Seq<
    AccountId,
> {
    match restriction {
        Some(ids) => ids,
        None => all,
    }
}

impl<'a, D> QueryCost<'a, D> where D: ToQueryProtobuf {
    pub fn new(query: &'a Query<D>) -> (cost: Self)
        ensures
            cost.0 == query,
    {
        QueryCost(query)
    }

    /// The nodes that the wrapped query is restricted to, if any.
    pub fn node_account_ids(&self) -> (ids: Option<&Vec<AccountId>>)
        ensures
            ids is Some <==> self.0.node_account_ids is Some,
            ids is Some ==> *ids->0 == self.0.node_account_ids->0,
    {
        self.0.node_account_ids.as_ref()
    }

    /// A cost estimation has no transaction ID.
    pub fn transaction_id(&self) -> (id: Option<TransactionId>)
        ensures
            id is None,
    {
        None
    }

    /// A cost estimation needs no transaction ID.
    pub fn requires_transaction_id() -> (required: bool)
        ensures
            !required,
    {
        false
    }

    /// The header under which the wrapped query is sent: it asks for the cost only and
    /// carries no payment.
    pub fn cost_header() -> (header: wire::QueryHeader)
        ensures
            header.response_type == wire::ResponseType::CostAnswer,
            header.payment is None,
    {
        wire::QueryHeader { response_type: wire::ResponseType::CostAnswer, payment: None }
    }

    /// The request for one node: the wrapped query under the cost header. Neither the
    /// transaction ID nor the node changes it.
    pub fn make_request(
        &self,
        _transaction_id: &Option<TransactionId>,
        _node_account_id: AccountId,
    ) -> (result: Result<(D::Protobuf, ()), Error>)
        ensures
            result is Ok,
            exists|header: wire::QueryHeader|
                header.response_type == wire::ResponseType::CostAnswer && header.payment is None
                    && call_ensures(
                    D::to_query_protobuf,
                    (&self.0.data, header),
                    #[trigger] result->Ok_0.0,
                ),
    {
        let header = Self::cost_header();
        Ok((self.0.data.to_query_protobuf(header), ()))
    }

    /// The fee that a response states: the cost in its header.
    pub fn make_response(
        response: wire::Response,
        _context: (),
        _node_account_id: AccountId,
        _transaction_id: Option<TransactionId>,
    ) -> (result: Result<u64, Error>)
        ensures
            match spec_response_header(response.response) {
                Some(header) => result == Ok::<u64, Error>(header.cost),
                None => result == Err::<u64, Error>(Error::FromProtobuf),
            },
    {
        match response_header(&response.response) {
            Ok(header) => Ok(header.cost),
            Err(error) => Err(error),
        }
    }

    /// The precheck status code that a response states.
    pub fn response_pre_check_status(response: &wire::Response) -> (result: Result<i32, Error>)
        ensures
            match spec_response_header(response.response) {
                Some(header) => result == Ok::<i32, Error>(header.node_transaction_precheck_code),
                None => result == Err::<i32, Error>(Error::FromProtobuf),
            },
    {
        query_pre_check_status(response)
    }

    /// Execute this query against the provided client of the network: hands out the
    /// nodes that it may go to, which are the wrapped query's if it names any and
    /// else the client's, and the retry engine for its dispatch over them.
    pub fn execute(&mut self, client: &Client) -> (result: Result<(Vec<AccountId>, Dispatcher), Error>)
        ensures
            ({
                let nodes = spec_candidates(
                    match old(self).0.node_account_ids {
                        Some(ids) => Some(ids@),
                        None => None,
                    },
                    client.nodes@,
                );
                &&& nodes.len() == 0 ==> result is Err && result->Err_0 == Error::InvalidState
                &&& nodes.len() > 0 ==> result is Ok && result->Ok_0.0@ == nodes
                    && result->Ok_0.1@.wf() && result->Ok_0.1@ == DispatchState::initial(
                    nodes.len() as usize,
                    client.max_attempts,
                    client.backoff,
                    None,
                    client.status_policy.accepted@,
                    client.status_policy.retryable@,
                )
            }),
            *final(self) == *old(self),
    {
        let nodes = match &self.0.node_account_ids {
            Some(ids) => copy_ids(ids),
            None => copy_ids(&client.nodes),
        };
        match Dispatcher::new(
            nodes.len(),
            client.max_attempts,
            client.backoff,
            None,
            client.status_policy.duplicate(),
        ) {
            Ok(dispatcher) => Ok((nodes, dispatcher)),
            Err(error) => Err(error),
        }
    }
}

} // verus!
