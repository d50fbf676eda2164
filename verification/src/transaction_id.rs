//! The identifier of a transaction.

use vstd::prelude::*;
use crate::entity_id::AccountId;

verus! {

/// The client-generated ID of a transaction. Together with the payer it identifies an
/// operation on the network, and it does not change once the operation is frozen.
#[derive(Debug, Clone, Copy, PartialEq, Eq, Hash, Structural)]
pub struct TransactionId {
    /// The account that pays for this transaction.
    pub account_id: AccountId,
    /// The time from which the transaction is valid, in nanoseconds since the Unix epoch.
    pub valid_start: u64,
    /// Whether this ID names a scheduled transaction.
    pub scheduled: bool,
    /// Tells apart the transactions of one group that share payer and start.
    pub nonce: i32,
}

impl TransactionId {
    /// The ID that a freshly frozen transaction of `payer` gets at time `now`.
    pub fn generate(payer: AccountId, now: u64) -> (id: Self)
        ensures
            id == (TransactionId { account_id: payer, valid_start: now, scheduled: false, nonce: 0 }),
    {
        TransactionId { account_id: payer, valid_start: now, scheduled: false, nonce: 0 }
    }

    /// The whole seconds of the valid start.
    pub fn valid_start_seconds(&self) -> (seconds: u64)
        ensures
            seconds == self.valid_start / 1_000_000_000,
    {
        self.valid_start / 1_000_000_000
    }

    /// The nanoseconds of the valid start beyond its whole seconds.
    pub fn valid_start_nanos(&self) -> (nanos: u32)
        ensures
            nanos == self.valid_start % 1_000_000_000,
    {
        (self.valid_start % 1_000_000_000) as u32
    }
}

} // verus!
