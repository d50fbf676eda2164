use hedera::backoff::Backoff;
use hedera::execute::{Action, Event};
use hedera::query::execute::{query_pre_check_status, response_header, transaction_pre_check_status};
use hedera::query::ToQueryProtobuf;
use hedera::status::StatusPolicy;
use hedera::wire;
use hedera::{AccountId, Client, Error, Query, QueryCost};

struct BalanceQuery {
    account: AccountId,
}

impl ToQueryProtobuf for BalanceQuery {
    type Protobuf = (wire::QueryHeader, AccountId);

    fn to_query_protobuf(&self, header: wire::QueryHeader) -> Self::Protobuf {
        (header, self.account)
    }
}

fn client() -> Client {
    Client {
        nodes: vec![AccountId::from(3), AccountId::from(4)],
        operator: None,
        max_attempts: 4,
        backoff: Backoff { base_delay: 10, max_delay: 20 },
        status_policy: StatusPolicy::new(vec![0], vec![12]),
    }
}

fn response(code: i32, cost: u64) -> wire::Response {
    wire::Response {
        response: Some(wire::Answer {
            header: Some(wire::ResponseHeader {
                node_transaction_precheck_code: code,
                response_type: wire::ResponseType::CostAnswer,
                cost,
            }),
        }),
    }
}

#[test]
fn cost_request_asks_for_the_cost_only() {
    let query = Query::new_with(BalanceQuery { account: AccountId::from(1001) });
    let cost = QueryCost::new(&query);
    let (request, ()) = cost.make_request(&None, AccountId::from(3)).unwrap();
    assert_eq!(
        request,
        (
            wire::QueryHeader { payment: None, response_type: wire::ResponseType::CostAnswer },
            AccountId::from(1001)
        )
    );
    let header = QueryCost::<BalanceQuery>::cost_header();
    assert_eq!(header.response_type, wire::ResponseType::CostAnswer);
    assert_eq!(header.payment, None);
}

#[test]
fn cost_query_has_no_transaction_id() {
    let query = Query::new_with(BalanceQuery { account: AccountId::from(1001) });
    let cost = QueryCost::new(&query);
    assert_eq!(cost.transaction_id(), None);
    assert!(!QueryCost::<BalanceQuery>::requires_transaction_id());
}

#[test]
fn cost_query_goes_to_the_nodes_of_the_query() {
    let mut query = Query::new_with(BalanceQuery { account: AccountId::from(1001) });
    assert_eq!(QueryCost::new(&query).node_account_ids(), None);
    query.node_account_ids = Some(vec![AccountId::from(7)]);
    let mut cost = QueryCost::new(&query);
    assert_eq!(cost.node_account_ids(), Some(&vec![AccountId::from(7)]));
    let (nodes, mut dispatcher) = cost.execute(&client()).unwrap();
    assert_eq!(nodes, vec![AccountId::from(7)]);
    assert_eq!(dispatcher.step(Event::Begin, 0), Action::Send { node: 0 });
    assert_eq!(dispatcher.step(Event::TransportError, 0), Action::Send { node: 0 });
}

#[test]
fn unrestricted_cost_query_goes_to_every_node_of_the_client() {
    let query = Query::new_with(BalanceQuery { account: AccountId::from(1001) });
    let mut cost = QueryCost::new(&query);
    let (nodes, mut dispatcher) = cost.execute(&client()).unwrap();
    assert_eq!(nodes, client().nodes);
    assert_eq!(dispatcher.step(Event::Begin, 0), Action::Send { node: 0 });
    assert_eq!(dispatcher.step(Event::Response { status: 12 }, 5), Action::Wait { delay: 10 });
    assert_eq!(dispatcher.step(Event::Resumed, 15), Action::Send { node: 1 });
    assert_eq!(dispatcher.step(Event::Response { status: 0 }, 16), Action::Accept { node: 1 });
}

#[test]
fn cost_query_without_any_node_cannot_be_dispatched() {
    let mut query = Query::new_with(BalanceQuery { account: AccountId::from(1001) });
    query.node_account_ids = Some(Vec::new());
    let mut cost = QueryCost::new(&query);
    assert!(matches!(cost.execute(&client()), Err(Error::InvalidState)));
}

#[test]
fn fee_and_status_are_read_from_the_header() {
    let answer = response(12, 25_000);
    assert_eq!(
        QueryCost::<BalanceQuery>::make_response(answer, (), AccountId::from(3), None),
        Ok(25_000)
    );
    assert_eq!(QueryCost::<BalanceQuery>::response_pre_check_status(&answer), Ok(12));
    assert_eq!(query_pre_check_status(&answer), Ok(12));
    assert_eq!(
        response_header(&answer.response).map(|header| header.response_type),
        Ok(wire::ResponseType::CostAnswer)
    );
}

#[test]
fn response_without_a_header_is_malformed() {
    let empty = wire::Response { response: None };
    let headless = wire::Response { response: Some(wire::Answer { header: None }) };
    for answer in [empty, headless] {
        assert_eq!(
            QueryCost::<BalanceQuery>::make_response(answer, (), AccountId::from(3), None),
            Err(Error::FromProtobuf)
        );
        assert_eq!(
            QueryCost::<BalanceQuery>::response_pre_check_status(&answer),
            Err(Error::FromProtobuf)
        );
        assert_eq!(response_header(&answer.response), Err(Error::FromProtobuf));
    }
}

#[test]
fn transaction_response_states_its_status() {
    let answer = wire::TransactionResponse { node_transaction_precheck_code: 7, cost: 0 };
    assert_eq!(transaction_pre_check_status(&answer), Ok(7));
}
