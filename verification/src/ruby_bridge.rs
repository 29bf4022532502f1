//! Errors of the two-way Ruby bridge, which carries both calls into Ruby and
//! callbacks of finished Rust work back to waiting Ruby queues.

use crate::errors::GvlError;
use crate::text::join2;
use vstd::prelude::*;

verus! {

/// Errors of the two-way Ruby bridge.
#[derive(Debug)]
pub enum BridgeError {
    /// Polling outside the VM lock failed.
    Gvl(GvlError),
    /// A Ruby queue could not be created.
    QueueCreate(String),
    /// A value could not be popped off a Ruby queue.
    QueuePop(String),
    /// A value could not be pushed onto a Ruby queue.
    QueuePush(String),
    /// The Ruby runtime cancelled the command.
    Cancelled,
    /// The caller stopped waiting for the result.
    CallerWentAway,
    /// The bridge has shut down.
    Shutdown,
}

impl BridgeError {
    /// The error's message.
    pub open spec fn spec_message(&self) -> Seq<char> {
        match self {
            BridgeError::Gvl(_) => "An error occurred while polling: "@
                + "panicked while attempting to call function running outside of the GVL"@,
            BridgeError::QueueCreate(m) => "Failed to create queue: "@ + m@,
            BridgeError::QueuePop(m) => "Failed pop value off queue: "@ + m@,
            BridgeError::QueuePush(m) => "Failed push value onto queue: "@ + m@,
            BridgeError::Cancelled => "Command was cancelled by Ruby runtime"@,
            BridgeError::CallerWentAway => "Caller went away"@,
            BridgeError::Shutdown => "Bridge was shutdown"@,
        }
    }

    /// The error's message.
    pub fn message(&self) -> (r: String)
        ensures
            r@ == self.spec_message(),
    {
        match self {
            BridgeError::Gvl(e) => {
                let inner = e.message();
                join2("An error occurred while polling: ", inner.as_str())
            },
            BridgeError::QueueCreate(m) => join2("Failed to create queue: ", m.as_str()),
            BridgeError::QueuePop(m) => join2("Failed pop value off queue: ", m.as_str()),
            BridgeError::QueuePush(m) => join2("Failed push value onto queue: ", m.as_str()),
            BridgeError::Cancelled => String::from_str("Command was cancelled by Ruby runtime"),
            BridgeError::CallerWentAway => String::from_str("Caller went away"),
            BridgeError::Shutdown => String::from_str("Bridge was shutdown"),
        }
    }
}

/// The outcome of running one command: a call whose result could not be
/// handed back means its caller went away; a callback that could not be
/// pushed onto its queue fails with the queue's error.
pub enum CommandOutcome {
    /// A call ran; `delivered` tells whether its caller took the result.
    Call { delivered: bool },
    /// A callback ran; `pushed` is the queue push's result.
    Callback { pushed: Result<(), String> },
}

/// Maps the outcome of one polled command to the poll's result.
pub fn command_result(outcome: CommandOutcome) -> (r: Result<(), BridgeError>)
    ensures
        match outcome {
            CommandOutcome::Call { delivered } => (delivered ==> r is Ok) && (!delivered ==> r matches Err(BridgeError::CallerWentAway)),
            CommandOutcome::Callback { pushed: Ok(()) } => r is Ok,
            CommandOutcome::Callback { pushed: Err(m) } => r matches Err(BridgeError::QueuePush(n)) && n == m,
        },
{
    match outcome {
        CommandOutcome::Call { delivered } => if delivered {
            Ok(())
        } else {
            Err(BridgeError::CallerWentAway)
        },
        CommandOutcome::Callback { pushed } => match pushed {
            Ok(()) => Ok(()),
            Err(m) => Err(BridgeError::QueuePush(m)),
        },
    }
}

} // verus!
