//! The errors that this library reports.

use vstd::prelude::*;

verus! {

/// Every way in which an operation of this library can fail.
///
/// Each terminal state of a dispatch maps to exactly one variant, so a caller can tell
/// "the network never accepted or rejected it" (`MaxAttemptsExceeded`, `DeadlineExceeded`)
/// from "the network explicitly rejected it" (`PreCheckStatus`).
#[derive(Debug, Clone, Copy, PartialEq, Eq, Structural)]
pub enum Error {
    /// A parse error: a text is not a well-formed identifier or address.
    BasicParse,
    /// A number does not fit the representation asked for.
    BasicNum,
    /// A parse error: a response envelope carries no status header.
    FromProtobuf,
    /// No transaction id was set and no payer is known to derive one from.
    NoPayerSet,
    /// The operation was already dispatched; it takes no further signatures.
    AlreadyExecuted,
    /// The builder is not in the state that the call needs.
    InvalidState,
    /// A field that the operation cannot do without was never set.
    MissingRequiredField,
    /// A memo has more characters than a transaction may carry.
    MemoTooLong,
    /// The payload is larger than one chunk and the operation cannot be chunked.
    BodySizeExceeded,
    /// A node answered with a status that is neither success nor transient.
    PreCheckStatus { status: i32 },
    /// The configured number of attempts was used up without a definitive answer.
    MaxAttemptsExceeded,
    /// The caller's deadline passed without a definitive answer.
    DeadlineExceeded,
}

} // verus!
