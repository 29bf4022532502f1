//! Outcomes of running scheduler work on the Ruby thread.

use crate::errors::{BridgeError, SchedulerError};
use vstd::prelude::*;

verus! {

/// The outcome of scheduler work run through the bridge: a bridge failure
/// becomes a scheduler error wrapping it; otherwise the work's own result.
/// Submitting a task and stopping the processor both report this way.
pub fn through_bridge<T>(outcome: Result<Result<T, SchedulerError>, BridgeError>) -> (r: Result<T, SchedulerError>)
    ensures
        match outcome {
            Err(e) => r matches Err(SchedulerError::Bridge(b)) && b == e,
            Ok(inner) => r == inner,
        },
{
    match outcome {
        Err(e) => Err(SchedulerError::Bridge(e)),
        Ok(inner) => inner,
    }
}

} // verus!
