use vstd::prelude::*;
use crate::registry::ConnectionRecord;
use crate::token::CancellationToken;

verus! {

/// Why one target's operation produced no success value.
#[derive(Debug)]
pub enum FailureReason {
    /// The operation exceeded its cluster's configured deadline.
    Timeout,
    /// The operation was abandoned because the shared token fired.
    Cancelled,
    /// The domain collaborator reported a failure; the reason is opaque to
    /// the engine.
    OperationFailed(String),
}

/// The outcome of one target's operation: every resolved target produces
/// exactly one, and none is ever silently dropped.
#[derive(Debug)]
pub enum PerTargetOutcome<T> {
    Success(T),
    Failure(FailureReason, String),
}

impl<T> PerTargetOutcome<T> {
    pub open spec fn is_success(&self) -> bool {
        self matches PerTargetOutcome::Success(_)
    }
}

/// What the executor owes for one target: if the shared token had fired, the
/// target is reported cancelled without its operation running; otherwise the
/// outcome wraps exactly what the operation returned, tagged with the
/// originating identifier on failure.
pub open spec fn outcome_for<T, F: Fn(ConnectionRecord) -> Result<T, FailureReason>>(
    op: F,
    target: (String, ConnectionRecord),
    cancelled: bool,
    outcome: PerTargetOutcome<T>,
) -> bool {
    if cancelled {
        outcome == PerTargetOutcome::Failure::<T>(FailureReason::Cancelled, target.0)
    } else {
        match outcome {
            PerTargetOutcome::Success(t) => call_ensures(op, (target.1,), Ok(t)),
            PerTargetOutcome::Failure(reason, origin) => origin == target.0 && call_ensures(
                op,
                (target.1,),
                Err(reason),
            ),
        }
    }
}

/// Runs the per-target operation against each snapshot entry, observing the
/// shared cancellation token, and collects one outcome per target in target
/// order. One target's failure never prevents the others from being
/// attempted, and a fired token makes every remaining target report
/// `Cancelled` instead of hanging. The operation is handed its own clone of
/// the record, which carries the target's timeout policy.
pub fn execute<T, F: Fn(ConnectionRecord) -> Result<T, FailureReason>>(
    snapshot: &Vec<(String, ConnectionRecord)>,
    op: F,
    token: &CancellationToken,
) -> (outcomes: Vec<PerTargetOutcome<T>>)
    requires
        forall|i: int|
            0 <= i < snapshot@.len() ==> call_requires(op, ((#[trigger] snapshot@[i]).1,)),
    ensures
        outcomes@.len() == snapshot@.len(),
        forall|i: int|
            0 <= i < snapshot@.len() ==> outcome_for(
                op,
                snapshot@[i],
                token.spec_triggered(),
                #[trigger] outcomes@[i],
            ),
{
    let mut outcomes: Vec<PerTargetOutcome<T>> = Vec::new();
    let mut i: usize = 0;
    while i < snapshot.len()
        invariant
            i <= snapshot@.len(),
            outcomes@.len() == i,
            forall|j: int|
                0 <= j < snapshot@.len() ==> call_requires(op, ((#[trigger] snapshot@[j]).1,)),
            forall|j: int|
                0 <= j < i ==> outcome_for(
                    op,
                    snapshot@[j],
                    token.spec_triggered(),
                    #[trigger] outcomes@[j],
                ),
        decreases snapshot@.len() - i,
    {
        let target = &snapshot[i];
        if token.is_triggered() {
            outcomes.push(PerTargetOutcome::Failure(FailureReason::Cancelled, target.0.clone()));
        } else {
            match op(target.1.clone()) {
                Ok(t) => outcomes.push(PerTargetOutcome::Success(t)),
                Err(reason) => outcomes.push(
                    PerTargetOutcome::Failure(reason, target.0.clone()),
                ),
            }
        }
        i += 1;
    }
    outcomes
}

} // verus!
