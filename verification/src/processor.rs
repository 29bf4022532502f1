//! The lifecycle flag of the Ruby task processor: tasks are accepted until
//! the processor is stopped, and only the first stop reaches Ruby.

use std::sync::atomic::{AtomicBool, Ordering};
use std::sync::Arc;
use vstd::prelude::*;

verus! {

/// Whether the processor has been stopped, shared by its clones.
#[derive(Debug)]
pub struct ProcessorLifecycle {
    is_shutdown: Arc<AtomicBool>,
}

impl ProcessorLifecycle {
    /// A running processor's flag.
    pub fn new() -> (r: Self) {
        ProcessorLifecycle { is_shutdown: Arc::new(AtomicBool::new(false)) }
    }

    /// Whether two handles refer to the same flag.
    pub closed spec fn shares_flag_with(&self, other: &Self) -> bool {
        self.is_shutdown == other.is_shutdown
    }

    /// Another handle on the same flag.
    pub fn share(&self) -> (r: Self)
        ensures
            r.shares_flag_with(self),
    {
        ProcessorLifecycle { is_shutdown: Arc::clone(&self.is_shutdown) }
    }

    /// Admits a task, unless the processor is shutting down: [`admission`]
    /// of the flag as this call reads it (other handles may set it at any
    /// time).
    pub fn accept_task(&self) -> (r: Result<(), String>)
        ensures
            r matches Err(m) ==> m@ == "Processor is shutting down"@,
    {
        admission(self.is_shutdown.load(Ordering::Relaxed))
    }

    /// Marks the processor stopped; returns whether this call was the first
    /// to do so, in which case the caller stops the Ruby processor:
    /// [`first_stop`] of the flag as this call found it before setting it.
    pub fn begin_stop(&self) -> (first: bool) {
        first_stop(self.is_shutdown.fetch_or(true, Ordering::Relaxed))
    }
}

/// Whether a task is admitted, given whether the processor is shutting down.
pub fn admission(shutting_down: bool) -> (r: Result<(), String>)
    ensures
        r is Err <==> shutting_down,
        r matches Err(m) ==> m@ == "Processor is shutting down"@,
{
    if shutting_down {
        Err(String::from_str("Processor is shutting down"))
    } else {
        Ok(())
    }
}

/// Whether a stop is the first, given whether the flag was already set
/// when the stop set it.
pub fn first_stop(was_set: bool) -> (r: bool)
    ensures
        r == !was_set,
{
    !was_set
}

} // verus!
