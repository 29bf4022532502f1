use prosody::scan::{ScanCursor, ScanStep};
use std::collections::VecDeque;

fn item(step: ScanStep<u32>) -> Option<u32> {
    match step {
        ScanStep::Item(x) => Some(x),
        _ => None,
    }
}

#[test]
fn items_come_out_in_delivery_order() {
    let mut c: ScanCursor<u32> = ScanCursor::new();
    assert!(matches!(c.next_step(), ScanStep::Fetch));
    assert!(!c.on_chunk(Some(VecDeque::from(vec![1, 2]))));
    assert_eq!(item(c.next_step()), Some(1));
    assert_eq!(item(c.next_step()), Some(2));
    assert!(matches!(c.next_step(), ScanStep::Fetch));
    assert!(!c.on_chunk(Some(VecDeque::from(vec![3]))));
    assert_eq!(item(c.next_step()), Some(3));
    assert!(matches!(c.next_step(), ScanStep::Fetch));
    assert!(c.on_chunk(None));
    assert!(matches!(c.next_step(), ScanStep::Finished));
    assert!(matches!(c.next_step(), ScanStep::Finished));
}

#[test]
fn closing_ends_the_scan_and_drops_buffered_items() {
    let mut c: ScanCursor<u32> = ScanCursor::new();
    c.on_chunk(Some(VecDeque::from(vec![7, 8, 9])));
    assert_eq!(item(c.next_step()), Some(7));
    c.close();
    assert!(matches!(c.next_step(), ScanStep::Finished));
}

#[test]
fn empty_chunk_asks_for_more() {
    let mut c: ScanCursor<u32> = ScanCursor::new();
    assert!(!c.on_chunk(Some(VecDeque::new())));
    assert!(matches!(c.next_step(), ScanStep::Fetch));
}
