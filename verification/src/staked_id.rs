//! What an account or contract stakes to.

use vstd::prelude::*;
use crate::entity_id::AccountId;

verus! {

/// The account or the node that is staked to. The two exclude each other.
#[derive(Debug, Clone, Copy, PartialEq, Eq, Hash, Structural)]
pub enum StakedId {
    AccountId(AccountId),
    NodeId(u64),
}

impl StakedId {
    pub fn to_account_id(self) -> (id: Option<AccountId>)
        ensures
            id == (match self {
                StakedId::AccountId(id) => Some(id),
                StakedId::NodeId(_) => None,
            }),
    {
        match self {
            StakedId::AccountId(id) => Some(id),
            StakedId::NodeId(_) => None,
        }
    }

    pub fn to_node_id(self) -> (id: Option<u64>)
        ensures
            id == (match self {
                StakedId::NodeId(id) => Some(id),
                StakedId::AccountId(_) => None,
            }),
    {
        match self {
            StakedId::NodeId(id) => Some(id),
            StakedId::AccountId(_) => None,
        }
    }
}

} // verus!
