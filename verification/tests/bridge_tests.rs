use prosody::bridge::{collect_batch, continue_polling, first_command, push_received, POLL_BATCH_SIZE};
use prosody::errors::BridgeError;
use tokio::sync::mpsc;

#[test]
fn batches_queued_commands_up_to_the_limit() {
    let (tx, mut rx) = mpsc::channel::<u32>(64);
    for i in 1..=20 {
        tx.try_send(i).unwrap();
    }
    let batch = collect_batch(&mut rx, 0);
    assert_eq!(batch.len(), POLL_BATCH_SIZE);
    assert_eq!(batch, (0..16).collect::<Vec<u32>>());
    let rest = collect_batch(&mut rx, 100);
    assert_eq!(rest, vec![100, 16, 17, 18, 19, 20]);
}

#[test]
fn batch_stops_at_an_empty_channel() {
    let (_tx, mut rx) = mpsc::channel::<u32>(4);
    assert_eq!(collect_batch(&mut rx, 5), vec![5]);
}

#[test]
fn closed_channel_means_shutdown() {
    assert_eq!(first_command(Some(3)).ok(), Some(3));
    assert!(matches!(first_command::<u32>(None), Err(BridgeError::Shutdown)));
    assert!(!continue_polling(&BridgeError::Shutdown));
    assert!(continue_polling(&BridgeError::Cancelled));
}

#[test]
fn received_closures_are_appended() {
    let mut batch = vec![1u32];
    assert!(push_received(&mut batch, Some(2)));
    assert_eq!(batch, vec![1, 2]);
    assert!(!push_received(&mut batch, None));
    assert_eq!(batch, vec![1, 2]);
}
