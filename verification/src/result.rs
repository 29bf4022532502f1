//! One-time delivery of a Ruby task's result to the Rust side that waits
//! for it.
//!
//! The sender may be reached from Ruby more than once (through the callback
//! it becomes), but only the first caller claims the channel: a later call
//! finds it taken and reports that nothing was sent.

use crate::errors::ProcessingError;
use crate::handler::processing_result;
use crate::text::{decimal, format_unsigned, join2};
use atomic_take::AtomicTake;
use tokio::sync::oneshot::{Receiver, Sender};
use vstd::prelude::*;

verus! {

#[verifier::external_type_specification]
#[verifier::external_body]
#[verifier::reject_recursive_types(T)]
pub struct ExAtomicTake<T>(AtomicTake<T>);

#[verifier::external_type_specification]
#[verifier::external_body]
#[verifier::reject_recursive_types(T)]
pub struct ExOneshotSender<T>(Sender<T>);

#[verifier::external_type_specification]
#[verifier::external_body]
#[verifier::reject_recursive_types(T)]
pub struct ExOneshotReceiver<T>(Receiver<T>);

#[verifier::external_type_specification]
#[verifier::external_body]
pub struct ExOneshotRecvError(tokio::sync::oneshot::error::RecvError);

/// `tokio::sync::oneshot::channel`: a connected sender and receiver.
#[verifier::external_body]
fn oneshot_channel<T>() -> (Sender<T>, Receiver<T>) {
    tokio::sync::oneshot::channel()
}

/// `AtomicTake::new`: a container holding `value`.
#[verifier::external_body]
fn atomic_take_new<T>(value: T) -> AtomicTake<T> {
    AtomicTake::new(value)
}

/// `AtomicTake::take`: the held value for exactly one caller, `None` for
/// every other. Which call is first depends on the callers, so nothing is
/// promised of one call's result.
#[verifier::external_body]
fn atomic_take<T>(container: &AtomicTake<T>) -> Option<T> {
    container.take()
}

/// `oneshot::Sender::send`: delivers `value`; `false` when the receiver is
/// gone. Whether it is gone depends on the receiving task, so nothing is
/// promised of the result.
#[verifier::external_body]
fn oneshot_send<T>(sender: Sender<T>, value: T) -> bool {
    sender.send(value).is_ok()
}

/// The result of a task: success, or a processing error.
pub type TaskResult = Result<(), ProcessingError>;

/// The sending side of a task's result channel.
pub struct ResultSender {
    result_tx: AtomicTake<Sender<TaskResult>>,
}

/// The receiving side of a task's result channel.
pub struct ResultReceiver {
    result_rx: Receiver<TaskResult>,
}

/// The right to send a task's result, held by the first claimant.
pub struct ResultSlot {
    tx: Sender<TaskResult>,
}

/// Creates a connected result sender and receiver.
pub fn result_channel() -> (r: (ResultSender, ResultReceiver)) {
    let (tx, rx) = oneshot_channel();
    (ResultSender { result_tx: atomic_take_new(tx) }, ResultReceiver { result_rx: rx })
}

/// What a Ruby task ended with.
#[derive(Debug)]
pub enum TaskOutcome {
    /// The task returned normally.
    Success,
    /// The task raised an exception whose `permanent?` answer is
    /// `is_permanent` and whose full message is `message`.
    Failure { is_permanent: bool, message: String },
}

impl ResultSender {
    /// Claims the channel; only the first call gets the slot.
    pub fn claim(&self) -> (r: Option<ResultSlot>) {
        match atomic_take(&self.result_tx) {
            Some(tx) => Some(ResultSlot { tx }),
            None => None,
        }
    }

    /// Sends a task's outcome through the channel, if no outcome was sent
    /// before: [`deliver`] with this call's claim. When this call claims the
    /// channel, the result handed over is [`task_result`] of the outcome;
    /// otherwise nothing is handed over and the result is not taken. Whether
    /// this call claims the channel, and whether the receiver takes the
    /// result, depend on other threads.
    pub fn send(&self, outcome: TaskOutcome) -> (r: Delivery)
        ensures
            r.sent@ matches Some(v) ==> v == outcome_result(outcome),
            r.sent@ is None ==> !r.taken,
    {
        deliver(self.claim(), outcome)
    }
}

/// What a send did: whether the receiver took the result, and the result
/// that was handed to the channel, if one was.
pub struct Delivery {
    /// Whether the receiver took the result.
    pub taken: bool,
    /// The result handed to the channel; `None` when nothing was sent.
    pub sent: Ghost<Option<TaskResult>>,
}

/// The result a task's outcome is reported as.
pub open spec fn outcome_result(outcome: TaskOutcome) -> TaskResult {
    match outcome {
        TaskOutcome::Success => Ok(()),
        TaskOutcome::Failure { is_permanent: true, message } => Err(ProcessingError::Permanent(message)),
        TaskOutcome::Failure { is_permanent: false, message } => Err(ProcessingError::Transient(message)),
    }
}

/// The result a task's outcome is reported as: success, or the error of its
/// exception, permanent or transient by its `permanent?` answer, with its
/// full message.
pub fn task_result(outcome: TaskOutcome) -> (r: TaskResult)
    ensures
        r == outcome_result(outcome),
{
    match outcome {
        TaskOutcome::Success => Ok(()),
        TaskOutcome::Failure { is_permanent, message } => processing_result(false, is_permanent, message),
    }
}

/// Delivers an outcome through a claimed channel: without the slot (the
/// channel was claimed before) nothing is sent and nothing is taken; with
/// it, [`task_result`] of the outcome is sent, and `taken` tells whether the
/// receiver took it.
pub fn deliver(slot: Option<ResultSlot>, outcome: TaskOutcome) -> (r: Delivery)
    ensures
        r.sent@ == (match slot {
            None => None,
            Some(_) => Some(outcome_result(outcome)),
        }),
        slot is None ==> !r.taken,
{
    match slot {
        None => Delivery { taken: false, sent: Ghost(None) },
        Some(slot) => slot.send(task_result(outcome)),
    }
}

/// The message for a result callback called with fewer than two arguments.
pub open spec fn arity_message(received: nat) -> Seq<char> {
    "Expected two arguments but received "@ + decimal(received)
}

/// Checks the arguments of a result callback: it takes the success flag and
/// the result, and ignores any further arguments.
pub fn callback_arguments(received: usize) -> (r: Result<(), String>)
    ensures
        received >= 2 <==> r is Ok,
        r matches Err(m) ==> m@ == arity_message(received as nat),
{
    if received >= 2 {
        Ok(())
    } else {
        let n = format_unsigned(received as u128);
        Err(join2("Expected two arguments but received ", n.as_str()))
    }
}

impl ResultSlot {
    /// Sends `result` through the channel; `taken` tells whether the
    /// receiver took it (`false` when the receiver was dropped).
    pub fn send(self, result: TaskResult) -> (r: Delivery)
        ensures
            r.sent@ == Some(result),
    {
        let ghost sent = result;
        let taken = oneshot_send(self.tx, result);
        Delivery { taken, sent: Ghost(Some(sent)) }
    }

    /// Sends a success; `taken` tells whether the receiver took it.
    pub fn send_success(self) -> (r: Delivery)
        ensures
            r.sent@ == Some(Ok::<(), ProcessingError>(())),
    {
        self.send(task_result(TaskOutcome::Success))
    }

    /// Sends the failure of a task whose exception answered `permanent?`
    /// with `is_permanent` and has the full message `message`: a permanent or
    /// transient processing error with that message. `taken` tells whether
    /// the receiver took it.
    pub fn send_failure(self, is_permanent: bool, message: String) -> (r: Delivery)
        ensures
            r.sent@ == Some(if is_permanent {
                Err::<(), ProcessingError>(ProcessingError::Permanent(message))
            } else {
                Err::<(), ProcessingError>(ProcessingError::Transient(message))
            }),
    {
        self.send(task_result(TaskOutcome::Failure { is_permanent, message }))
    }
}

impl ResultReceiver {
    /// The receiving end this value holds.
    pub closed spec fn receiver(&self) -> Receiver<TaskResult> {
        self.result_rx
    }

    /// The receiving end, to await; see [`crate::handler::received_result`]
    /// for what a closed channel means.
    pub fn into_inner(self) -> (r: Receiver<TaskResult>)
        ensures
            r == self.receiver(),
    {
        self.result_rx
    }
}

} // verus!
