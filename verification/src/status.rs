//! How a precheck status code decides the fate of an attempt.

use vstd::prelude::*;

verus! {

/// What a precheck status code means for the attempt that received it.
#[derive(Debug, Clone, Copy, PartialEq, Eq, Structural)]
pub enum StatusClass {
    /// The node accepted the operation.
    Accepted,
    /// The node could not take the operation right now; trying again may succeed.
    Retryable,
    /// The network rejected the operation; trying again cannot succeed.
    PermanentFailure,
}

/// The status codes that mean success and the ones that mean "try again".
///
/// Which code means what is a matter of the network's status-code table, so the table
/// is data that the caller supplies. Every code that is in neither list is a permanent
/// failure.
#[derive(Debug, Clone)]
pub struct StatusPolicy {
    pub accepted: Vec<i32>,
    pub retryable: Vec<i32>,
}

/// The class of `status` under the two lists. A code in both lists is accepted.
pub open spec fn spec_classify(accepted: Seq<i32>, retryable: Seq<i32>, status: i32)
    -> StatusClass {
    if accepted.contains(status) {
        StatusClass::Accepted
    } else if retryable.contains(status) {
        StatusClass::Retryable
    } else {
        StatusClass::PermanentFailure
    }
}

/// Whether `codes` holds `status`.
pub fn holds(codes: &Vec<i32>, status: i32) -> (found: bool)
    ensures
        found == codes@.contains(status),
{
    let mut i: usize = 0;
    while i < codes.len()
        invariant
            i <= codes.len(),
            forall|k: int| 0 <= k < i ==> codes@[k] != status,
        decreases codes.len() - i,
    {
        if codes[i] == status {
            return true;
        }
        i = i + 1;
    }
    false
}

/// A copy of a list of status codes.
pub fn copy_codes(codes: &Vec<i32>) -> (copy: Vec<i32>)
    ensures
        copy@ == codes@,
{
    let mut copy: Vec<i32> = Vec::new();
    let mut i: usize = 0;
    while i < codes.len()
        invariant
            i <= codes.len(),
            copy@ == codes@.subrange(0, i as int),
        decreases codes.len() - i,
    {
        copy.push(codes[i]);
        assert(copy@ == codes@.subrange(0, i + 1));
        i = i + 1;
    }
    assert(codes@ == codes@.subrange(0, codes.len() as int));
    copy
}

impl StatusPolicy {
    pub fn duplicate(&self) -> (copy: Self)
        ensures
            copy.accepted@ == self.accepted@,
            copy.retryable@ == self.retryable@,
    {
        StatusPolicy { accepted: copy_codes(&self.accepted), retryable: copy_codes(&self.retryable) }
    }

    pub fn new(accepted: Vec<i32>, retryable: Vec<i32>) -> (policy: Self)
        ensures
            policy.accepted == accepted,
            policy.retryable == retryable,
    {
        StatusPolicy { accepted, retryable }
    }

    /// Classifies `status` into exactly one of the three classes.
    pub fn classify(&self, status: i32) -> (class: StatusClass)
        ensures
            class == spec_classify(self.accepted@, self.retryable@, status),
    {
        if holds(&self.accepted, status) {
            StatusClass::Accepted
        } else if holds(&self.retryable, status) {
            StatusClass::Retryable
        } else {
            StatusClass::PermanentFailure
        }
    }
}

} // verus!
