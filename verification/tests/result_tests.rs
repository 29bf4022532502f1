use prosody::errors::ProcessingError;
use prosody::handler::received_result;
use prosody::result::{callback_arguments, deliver, result_channel, task_result, TaskOutcome};

#[test]
fn only_the_first_claim_gets_the_channel() {
    let (sender, receiver) = result_channel();
    let slot = sender.claim();
    assert!(slot.is_some());
    assert!(sender.claim().is_none());
    assert!(slot.unwrap().send_success().taken);
    let mut rx = receiver.into_inner();
    assert_eq!(rx.try_recv().unwrap(), Ok(()));
}

#[test]
fn failure_carries_its_classification() {
    let (sender, receiver) = result_channel();
    assert!(sender.send(TaskOutcome::Failure { is_permanent: true, message: "bad input".into() }).taken);
    assert!(!sender.send(TaskOutcome::Success).taken);
    let mut rx = receiver.into_inner();
    assert_eq!(rx.try_recv().unwrap(), Err(ProcessingError::Permanent("bad input".into())));
}

#[test]
fn failure_to_a_departed_receiver_is_reported() {
    let (sender, receiver) = result_channel();
    drop(receiver);
    assert!(!sender.send(TaskOutcome::Failure { is_permanent: false, message: "x".into() }).taken);
}

#[test]
fn success_to_a_departed_receiver_is_not_sent() {
    let (sender, receiver) = result_channel();
    drop(receiver);
    assert!(!sender.send(TaskOutcome::Success).taken);
}

#[test]
fn outcomes_become_task_results() {
    assert_eq!(task_result(TaskOutcome::Success), Ok(()));
    assert_eq!(
        task_result(TaskOutcome::Failure { is_permanent: true, message: "p".into() }),
        Err(ProcessingError::Permanent("p".into()))
    );
    assert_eq!(
        task_result(TaskOutcome::Failure { is_permanent: false, message: "t".into() }),
        Err(ProcessingError::Transient("t".into()))
    );
}

#[test]
fn delivery_needs_the_slot() {
    let (sender, receiver) = result_channel();
    let slot = sender.claim();
    assert!(!deliver(None, TaskOutcome::Success).taken);
    assert!(deliver(slot, TaskOutcome::Failure { is_permanent: false, message: "x".into() }).taken);
    let mut rx = receiver.into_inner();
    assert_eq!(rx.try_recv().unwrap(), Err(ProcessingError::Transient("x".into())));
}

#[test]
fn closed_channel_reads_as_closed() {
    let (sender, receiver) = result_channel();
    drop(sender);
    let mut rx = receiver.into_inner();
    let delivered = rx.try_recv().ok();
    assert_eq!(received_result(delivered), Err(ProcessingError::Closed));
}

#[test]
fn callback_needs_two_arguments() {
    assert_eq!(callback_arguments(2), Ok(()));
    assert_eq!(callback_arguments(3), Ok(()));
    assert_eq!(callback_arguments(1), Err("Expected two arguments but received 1".to_string()));
    assert_eq!(callback_arguments(0), Err("Expected two arguments but received 0".to_string()));
}
