//! Reconcile errors and the policy that turns every outcome into the next action.

use vstd::prelude::*;
use crate::model::REQUEUE_SECS;

verus! {

/// A failed call to the orchestration API.
#[derive(Clone, Copy, Debug, PartialEq, Eq, Structural)]
pub struct ApiFailure {
    /// HTTP status code of the API's error response; `None` where no response came
    /// (transport or authentication failure).
    pub code: Option<u16>,
}

/// Whether a failed lookup means that the object does not exist.
pub open spec fn is_not_found(e: ApiFailure) -> bool {
    e.code == Some(404u16)
}

impl ApiFailure {
    /// True exactly for a 404 response.
    pub fn is_not_found(&self) -> (r: bool)
        ensures
            r == is_not_found(*self),
    {
        match self.code {
            Some(c) => c == 404,
            None => false,
        }
    }
}

/// Why one reconcile pass failed.
#[derive(Clone, Copy, Debug, PartialEq, Eq, Structural)]
pub enum ReconcileError {
    /// A call to the orchestration API failed.
    Api(ApiFailure),
    /// The object carries no namespace.
    MissingNamespace,
    /// The object carries no name.
    MissingName,
    /// The object carries no unique identity, so children cannot reference it.
    MissingUid,
    /// The desired state has no defined convergence yet.
    Unimplemented,
}

/// What the dispatcher does next with an object.
#[derive(Clone, Copy, Debug, PartialEq, Eq, Structural)]
pub enum Action {
    /// Reconcile again after this many seconds, even without a new event.
    Requeue { secs: u64 },
    /// Wait for the next change notification.
    AwaitChange,
}

/// The fixed requeue after a successful pass or a failure.
pub open spec fn default_requeue() -> Action {
    Action::Requeue { secs: REQUEUE_SECS }
}

/// Every error is retryable and gets the same fixed backoff.
pub fn error_policy(error: &ReconcileError) -> (r: Action)
    ensures
        r == default_requeue(),
{
    Action::Requeue { secs: REQUEUE_SECS }
}

/// The next action for an object, given the outcome of its reconcile pass.
pub open spec fn settle_spec(outcome: Result<Action, ReconcileError>) -> Action {
    match outcome {
        Ok(a) => a,
        Err(_) => default_requeue(),
    }
}

/// The next action after one reconcile pass: its own action on success, the
/// error policy's on failure.
pub fn settle(outcome: &Result<Action, ReconcileError>) -> (r: Action)
    ensures
        r == settle_spec(*outcome),
{
    match outcome {
        Ok(a) => *a,
        Err(e) => error_policy(e),
    }
}

/// The next action of each object of a batch, from the outcome of its own pass
/// alone.
pub fn settle_batch(outcomes: &Vec<Result<Action, ReconcileError>>) -> (r: Vec<Action>)
    ensures
        r@.len() == outcomes@.len(),
        forall|i: int| 0 <= i < outcomes@.len() ==> r@[i] == settle_spec(#[trigger] outcomes@[i]),
{
    let mut r: Vec<Action> = Vec::new();
    let mut i: usize = 0;
    while i < outcomes.len()
        invariant
            i <= outcomes@.len(),
            r@.len() == i,
            forall|j: int| 0 <= j < i ==> r@[j] == settle_spec(#[trigger] outcomes@[j]),
        decreases outcomes@.len() - i,
    {
        r.push(settle(&outcomes[i]));
        i += 1;
    }
    r
}

} // verus!
