//! Decisions of the Ruby bridge's poll loop.
//!
//! A dedicated Ruby thread waits, outside the VM lock, for closures sent from
//! async Rust code, then runs them on the Ruby thread. Each poll takes the
//! first closure that arrives and whatever else is already queued, up to a
//! fixed batch size.

use crate::errors::BridgeError;
use vstd::prelude::*;

verus! {

#[verifier::external_type_specification]
#[verifier::external_body]
#[verifier::reject_recursive_types(T)]
pub struct ExMpscReceiver<T>(tokio::sync::mpsc::Receiver<T>);

/// `tokio::sync::mpsc::Receiver::try_recv`: the next queued value, if one is
/// ready; `None` when the channel is empty or closed. What is queued depends
/// on other tasks, so nothing is promised of the result.
#[verifier::external_body]
fn try_recv<T>(rx: &mut tokio::sync::mpsc::Receiver<T>) -> Option<T> {
    rx.try_recv().ok()
}

/// The most closures one poll runs.
pub const POLL_BATCH_SIZE: usize = 16;

/// Adds what one poll of the channel gave to a batch: a closure is
/// appended and polling goes on; an empty poll leaves the batch as it is and
/// ends the batch.
pub fn push_received<T>(batch: &mut Vec<T>, received: Option<T>) -> (open: bool)
    ensures
        open == received is Some,
        match received {
            Some(c) => final(batch)@ == old(batch)@.push(c),
            None => final(batch)@ == old(batch)@,
        },
{
    match received {
        Some(command) => {
            batch.push(command);
            true
        },
        None => false,
    }
}

/// Batches the first closure with the closures already queued, stopping at
/// [`POLL_BATCH_SIZE`] or at the first empty poll of the channel; each
/// closure a poll gives is added with [`push_received`].
pub fn collect_batch<T>(rx: &mut tokio::sync::mpsc::Receiver<T>, first: T) -> (r: Vec<T>)
    ensures
        1 <= r.len() <= POLL_BATCH_SIZE,
        r[0] == first,
{
    let mut commands: Vec<T> = Vec::new();
    commands.push(first);
    let mut open = true;
    while open && commands.len() < POLL_BATCH_SIZE
        invariant
            1 <= commands.len() <= POLL_BATCH_SIZE,
            commands[0] == first,
        decreases POLL_BATCH_SIZE - commands.len() + (if open { 1int } else { 0int }),
    {
        open = push_received(&mut commands, try_recv(rx));
    }
    commands
}

/// The first closure of a poll: a channel that closed without one means the
/// bridge has shut down.
pub fn first_command<T>(received: Option<T>) -> (r: Result<T, BridgeError>)
    ensures
        match received {
            Some(c) => r == Ok::<T, BridgeError>(c),
            None => r matches Err(BridgeError::Shutdown),
        },
{
    match received {
        Some(c) => Ok(c),
        None => Err(BridgeError::Shutdown),
    }
}

/// Whether the poll loop goes on after a poll that failed with `error`: it
/// stops only when the bridge has shut down; any other error is reported
/// and polling goes on.
pub fn continue_polling(error: &BridgeError) -> (r: bool)
    ensures
        r == !(*error is Shutdown),
{
    !error.is_shutdown()
}

} // verus!
