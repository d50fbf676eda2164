//! Identifiers of single non-fungible tokens.

use vstd::prelude::*;
use crate::entity_id::TokenId;

verus! {

/// The ID of one non-fungible token: the token's class and the serial number in it.
#[derive(Debug, Clone, Copy, PartialEq, Eq, Hash, Structural)]
pub struct NftId {
    pub token_id: TokenId,
    pub serial_number: u64,
}

} // verus!
