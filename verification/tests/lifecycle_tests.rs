use prosody::client::init;
use prosody::errors::{BridgeError, GvlError, SchedulerError};
use prosody::processor::{admission, first_stop, ProcessorLifecycle};
use prosody::ruby_bridge::{self, command_result, CommandOutcome};
use prosody::scheduler::through_bridge;

#[test]
fn processor_accepts_tasks_until_stopped() {
    let p = ProcessorLifecycle::new();
    let other = p.share();
    assert_eq!(p.accept_task(), Ok(()));
    assert!(other.begin_stop());
    assert!(!p.begin_stop());
    assert_eq!(p.accept_task(), Err("Processor is shutting down".to_string()));
}

#[test]
fn bridge_failures_become_scheduler_errors() {
    match through_bridge::<u8>(Err(BridgeError::Shutdown)) {
        Err(SchedulerError::Bridge(BridgeError::Shutdown)) => {}
        other => panic!("unexpected {other:?}"),
    }
    assert_eq!(through_bridge::<u8>(Ok(Ok(4))).unwrap(), 4);
    match through_bridge::<u8>(Ok(Err(SchedulerError::Submit("full".into())))) {
        Err(SchedulerError::Submit(m)) => assert_eq!(m, "full"),
        other => panic!("unexpected {other:?}"),
    }
}

#[test]
fn two_way_bridge_commands() {
    assert!(command_result(CommandOutcome::Call { delivered: true }).is_ok());
    assert!(matches!(
        command_result(CommandOutcome::Call { delivered: false }),
        Err(ruby_bridge::BridgeError::CallerWentAway)
    ));
    assert!(command_result(CommandOutcome::Callback { pushed: Ok(()) }).is_ok());
    match command_result(CommandOutcome::Callback { pushed: Err("full".into()) }) {
        Err(ruby_bridge::BridgeError::QueuePush(m)) => assert_eq!(m, "full"),
        other => panic!("unexpected {other:?}"),
    }
    assert_eq!(ruby_bridge::BridgeError::CallerWentAway.message(), "Caller went away");
    assert_eq!(
        ruby_bridge::BridgeError::QueuePop("empty".into()).message(),
        "Failed pop value off queue: empty"
    );
    assert_eq!(ruby_bridge::BridgeError::Shutdown.message(), "Bridge was shutdown");
}

#[test]
fn client_class_methods() {
    let methods = init();
    assert_eq!(methods.len(), 15);
    assert_eq!(methods[0].name, "new");
    assert!(methods[0].singleton);
    assert_eq!(methods[0].arity, 1);
    assert_eq!(methods[2].name, "send_message");
    assert_eq!(methods[2].arity, 3);
    assert!(methods[1..].iter().all(|m| !m.singleton));
    assert_eq!(methods[14].name, "published_deque");
    assert_eq!(methods[14].arity, 4);
}

#[test]
fn two_way_bridge_error_messages() {
    assert_eq!(
        ruby_bridge::BridgeError::Gvl(GvlError::Panicked).message(),
        "An error occurred while polling: panicked while attempting to call function running outside of the GVL"
    );
    assert_eq!(
        ruby_bridge::BridgeError::QueueCreate("no VM".into()).message(),
        "Failed to create queue: no VM"
    );
    assert_eq!(
        ruby_bridge::BridgeError::QueuePush("closed".into()).message(),
        "Failed push value onto queue: closed"
    );
    assert_eq!(
        ruby_bridge::BridgeError::Cancelled.message(),
        "Command was cancelled by Ruby runtime"
    );
}

#[test]
fn admission_and_first_stop() {
    assert_eq!(admission(false), Ok(()));
    assert_eq!(admission(true), Err("Processor is shutting down".to_string()));
    assert!(first_stop(false));
    assert!(!first_stop(true));
}
