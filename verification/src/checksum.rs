//! The pre-flight check of the entity IDs that an operation embeds.
//!
//! How one ID is checked against a ledger is not this library's business: the check
//! is handed in. What is decided here is which IDs are checked, in which order, and
//! what the first failure means.

use vstd::prelude::*;
use crate::entity_id::EntityId;
use crate::error::Error;

verus! {

/// Whether `validate` may let `id` pass.
pub open spec fn spec_may_pass<F: Fn(EntityId) -> Result<(), Error>>(validate: F, id: EntityId)
    -> bool {
    exists|answer: Result<(), Error>| answer is Ok && call_ensures(validate, (id,), answer)
}

/// Whether `validate` may refuse `id` with `error`.
pub open spec fn spec_may_refuse<F: Fn(EntityId) -> Result<(), Error>>(
    validate: F,
    id: EntityId,
    error: Error,
) -> bool {
    call_ensures(validate, (id,), Err::<(), Error>(error))
}

/// Whether `result` is what checking `ids` in order with `validate` may give: success
/// if every ID may pass, else what the first ID that does not pass is refused with.
pub open spec fn spec_validated<F: Fn(EntityId) -> Result<(), Error>>(
    validate: F,
    ids: Seq<EntityId>,
    result: Result<(), Error>,
) -> bool {
    match result {
        Ok(_) => forall|i: int| 0 <= i < ids.len() ==> spec_may_pass(validate, #[trigger] ids[i]),
        Err(error) => exists|i: int|
            0 <= i < ids.len() && spec_may_refuse(validate, #[trigger] ids[i], error) && (forall|
                j: int,
            |
                0 <= j < i ==> spec_may_pass(validate, #[trigger] ids[j])),
    }
}

/// Checks `ids` in order and stops at the first one that fails.
pub fn validate_ids<F: Fn(EntityId) -> Result<(), Error>>(ids: &Vec<EntityId>, validate: &F) -> (result:
    Result<(), Error>)
    requires
        forall|id: EntityId| call_requires(*validate, (id,)),
    ensures
        spec_validated(*validate, ids@, result),
{
    let mut i: usize = 0;
    while i < ids.len()
        invariant
            i <= ids.len(),
            forall|id: EntityId| call_requires(*validate, (id,)),
            forall|j: int| 0 <= j < i ==> spec_may_pass(*validate, #[trigger] ids@[j]),
        decreases ids.len() - i,
    {
        let checked = validate(ids[i]);
        match checked {
            Ok(_) => {
                assert(spec_may_pass(*validate, ids@[i as int]));
            },
            Err(error) => {
                assert(spec_may_refuse(*validate, ids@[i as int], error));
                return Err(error);
            },
        }
        i = i + 1;
    }
    Ok(())
}

} // verus!
