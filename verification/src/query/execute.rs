//! Reading the status header of a response.

use vstd::prelude::*;
use crate::error::Error;
use crate::wire;

verus! {

/// The header of a response to a query, if the envelope holds an answer with a header.
pub open spec fn spec_response_header(response: Option<wire::Answer>) -> Option<
    wire::ResponseHeader,
> {
    match response {
        Some(answer) => answer.header,
        None => None,
    }
}

/// The header of a response to a query. Nothing but the header is looked at. An
/// envelope without an answer, or an answer without a header, is malformed.
pub fn response_header(response: &Option<wire::Answer>) -> (result: Result<
    wire::ResponseHeader,
    Error,
>)
    ensures
        match spec_response_header(*response) {
            Some(header) => result == Ok::<wire::ResponseHeader, Error>(header),
            None => result == Err::<wire::ResponseHeader, Error>(Error::FromProtobuf),
        },
{
    match response {
        Some(answer) => match answer.header {
            Some(header) => Ok(header),
            None => Err(Error::FromProtobuf),
        },
        None => Err(Error::FromProtobuf),
    }
}

/// The precheck status code of a response to a query.
pub fn query_pre_check_status(response: &wire::Response) -> (result: Result<i32, Error>)
    ensures
        match spec_response_header(response.response) {
            Some(header) => result == Ok::<i32, Error>(header.node_transaction_precheck_code),
            None => result == Err::<i32, Error>(Error::FromProtobuf),
        },
{
    match response_header(&response.response) {
        Ok(header) => Ok(header.node_transaction_precheck_code),
        Err(error) => Err(error),
    }
}

/// The precheck status code of a response to a transaction.
pub fn transaction_pre_check_status(response: &wire::TransactionResponse) -> (result: Result<
    i32,
    Error,
>)
    ensures
        result == Ok::<i32, Error>(response.node_transaction_precheck_code),
{
    Ok(response.node_transaction_precheck_code)
}

} // verus!
