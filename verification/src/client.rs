//! What a dispatch takes from the client's configuration.

use vstd::prelude::*;
use crate::backoff::Backoff;
use crate::entity_id::AccountId;
use crate::status::StatusPolicy;

verus! {

/// The part of a client's configuration that operations are assembled and dispatched
/// with. Channels and keys stay with whoever owns them.
#[derive(Debug, Clone)]
pub struct Client {
    /// The account IDs of the configured nodes, in order.
    pub nodes: Vec<AccountId>,
    /// The account that pays by default.
    pub operator: Option<AccountId>,
    /// The most attempts that one dispatch may start.
    pub max_attempts: u32,
    pub backoff: Backoff,
    pub status_policy: StatusPolicy,
}

/// A copy of a list of account IDs.
pub fn copy_ids(ids: &Vec<AccountId>) -> (copy: Vec<AccountId>)
    ensures
        copy@ == ids@,
{
    let mut copy: Vec<AccountId> = Vec::new();
    let mut i: usize = 0;
    while i < ids.len()
        invariant
            i <= ids.len(),
            copy@ == ids@.subrange(0, i as int),
        decreases ids.len() - i,
    {
        copy.push(ids[i]);
        assert(copy@ == ids@.subrange(0, i + 1));
        i = i + 1;
    }
    assert(ids@ == ids@.subrange(0, ids.len() as int));
    copy
}

} // verus!
