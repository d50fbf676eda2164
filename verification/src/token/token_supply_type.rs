//! Whether the supply of a token is bounded.

use vstd::prelude::*;
use crate::error::Error;
use crate::wire;

verus! {

/// Possible token supply types.
/// Can be used to restrict supply to a set maximum.
/// Defaults to [`Infinite`](TokenSupplyType::Infinite).
#[derive(Debug, Hash, PartialEq, Eq, Clone, Copy, Structural)]
pub enum TokenSupplyType {
    /// Indicates the token has a maximum supply of [`u64::MAX`].
    Infinite,
    /// Indicates the token has a configurable maximum supply, provided on token creation.
    Finite,
}

impl TokenSupplyType {
    pub open spec fn spec_from_protobuf(pb: wire::TokenSupplyType) -> TokenSupplyType {
        match pb {
            wire::TokenSupplyType::Infinite => TokenSupplyType::Infinite,
            wire::TokenSupplyType::Finite => TokenSupplyType::Finite,
        }
    }

    pub open spec fn spec_to_protobuf(self) -> wire::TokenSupplyType {
        match self {
            TokenSupplyType::Infinite => wire::TokenSupplyType::Infinite,
            TokenSupplyType::Finite => wire::TokenSupplyType::Finite,
        }
    }

    /// The supply type that a wire value stands for.
    pub fn from_protobuf(pb: wire::TokenSupplyType) -> (result: Result<Self, Error>)
        ensures
            result == Ok::<Self, Error>(Self::spec_from_protobuf(pb)),
    {
        Ok(
            match pb {
                wire::TokenSupplyType::Infinite => TokenSupplyType::Infinite,
                wire::TokenSupplyType::Finite => TokenSupplyType::Finite,
            },
        )
    }

    /// The wire value of the supply type.
    pub fn to_protobuf(&self) -> (pb: wire::TokenSupplyType)
        ensures
            pb == self.spec_to_protobuf(),
    {
        match self {
            TokenSupplyType::Infinite => wire::TokenSupplyType::Infinite,
            TokenSupplyType::Finite => wire::TokenSupplyType::Finite,
        }
    }
}

/// A supply type comes back unchanged from the wire, and so does a wire value from the
/// library.
pub proof fn lemma_supply_type_round_trip(supply_type: TokenSupplyType, pb: wire::TokenSupplyType)
    ensures
        TokenSupplyType::spec_from_protobuf(supply_type.spec_to_protobuf()) == supply_type,
        TokenSupplyType::spec_from_protobuf(pb).spec_to_protobuf() == pb,
{
}

} // verus!
