//! Lifecycle status of an asynchronous operation and its state machine.

use vstd::prelude::*;

verus! {

/// Status of a return or submit operation.
///
/// `Pending` and `InProgress` are open states; `Succeeded` and `Failed` are
/// terminal and immutable once reached.
#[derive(Clone, Copy, Debug, PartialEq, Eq, Structural)]
pub enum OperationStatus {
    Pending,
    InProgress,
    Succeeded,
    Failed,
}

impl OperationStatus {
    /// Succeeded and Failed are the terminal states.
    pub open spec fn spec_is_terminal(&self) -> bool {
        self is Succeeded || self is Failed
    }

    #[verifier::when_used_as_spec(spec_is_terminal)]
    pub fn is_terminal(&self) -> (r: bool)
        ensures
            r == self.spec_is_terminal(),
    {
        match self {
            OperationStatus::Succeeded => true,
            OperationStatus::Failed => true,
            _ => false,
        }
    }

    /// The legal transitions of the per-operation state machine:
    /// Pending advances to InProgress (dispatch acknowledged) or to Failed
    /// (dispatch refused); InProgress advances to Succeeded (store committed)
    /// or to Failed (store refused).
    pub open spec fn can_advance_to(self, next: OperationStatus) -> bool {
        ||| (self is Pending && next is InProgress)
        ||| (self is Pending && next is Failed)
        ||| (self is InProgress && next is Succeeded)
        ||| (self is InProgress && next is Failed)
    }

    pub fn advances_to(&self, next: &OperationStatus) -> (r: bool)
        ensures
            r == self.can_advance_to(*next),
    {
        match (self, next) {
            (OperationStatus::Pending, OperationStatus::InProgress) => true,
            (OperationStatus::Pending, OperationStatus::Failed) => true,
            (OperationStatus::InProgress, OperationStatus::Succeeded) => true,
            (OperationStatus::InProgress, OperationStatus::Failed) => true,
            _ => false,
        }
    }

    /// The name under which the admin listing reports this state.
    pub fn name(&self) -> (r: String)
        ensures
            *self is Pending ==> r@ == "Pending"@,
            *self is InProgress ==> r@ == "InProgress"@,
            *self is Succeeded ==> r@ == "Succeeded"@,
            *self is Failed ==> r@ == "Failed"@,
    {
        match self {
            OperationStatus::Pending => "Pending".to_owned(),
            OperationStatus::InProgress => "InProgress".to_owned(),
            OperationStatus::Succeeded => "Succeeded".to_owned(),
            OperationStatus::Failed => "Failed".to_owned(),
        }
    }

    /// The lowercase name under which the status endpoint reports this state.
    pub fn lowercase_name(&self) -> (r: String)
        ensures
            *self is Pending ==> r@ == "pending"@,
            *self is InProgress ==> r@ == "inprogress"@,
            *self is Succeeded ==> r@ == "succeeded"@,
            *self is Failed ==> r@ == "failed"@,
    {
        match self {
            OperationStatus::Pending => "pending".to_owned(),
            OperationStatus::InProgress => "inprogress".to_owned(),
            OperationStatus::Succeeded => "succeeded".to_owned(),
            OperationStatus::Failed => "failed".to_owned(),
        }
    }
}

/// An operation that has reached a terminal state stays in that state forever:
/// no transition of the state machine leaves Succeeded or Failed.
pub proof fn lemma_terminal_status_is_final(s: OperationStatus, next: OperationStatus)
    requires
        s.spec_is_terminal(),
    ensures
        !s.can_advance_to(next),
{
}

} // verus!
