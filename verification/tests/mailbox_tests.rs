use clipboard_qr::mailbox::{DecodeStatus, GlobalClipboardState};
use clipboard_qr::snapshot::ClipboardData;

#[test]
fn new_mailbox_is_empty_and_read() {
    let state = GlobalClipboardState::new();
    let (value, unread) = state.peek();
    assert!(value.is_none());
    assert!(!unread);
}

#[test]
fn publish_sets_unread_and_value() {
    let mut state = GlobalClipboardState::new();
    state.publish(ClipboardData::Text("x".to_string()), DecodeStatus::NotAttempted);
    let (value, unread) = state.peek();
    assert!(unread);
    match value.unwrap().data {
        ClipboardData::Text(t) => assert_eq!(t, "x"),
        _ => panic!("published text must be observable"),
    }
}

#[test]
fn drain_then_peek_keeps_value_clears_flag() {
    // Draining clears only the flag; the value stays for later readers.
    let mut state = GlobalClipboardState::new();
    state.publish(ClipboardData::Text("kept".to_string()), DecodeStatus::NotAttempted);
    let drained = state.drain().unwrap();
    let (value, unread) = state.peek();
    assert!(!unread);
    match (drained.data, value.unwrap().data) {
        (ClipboardData::Text(a), ClipboardData::Text(b)) => {
            assert_eq!(a, "kept");
            assert_eq!(a, b);
        }
        _ => panic!("drain and peek must observe the same text"),
    }
}

#[test]
fn peek_does_not_clear_flag() {
    let mut state = GlobalClipboardState::new();
    state.publish(ClipboardData::Empty, DecodeStatus::NotAttempted);
    let (_, unread1) = state.peek();
    let (_, unread2) = state.peek();
    assert!(unread1 && unread2);
}

#[test]
fn drain_of_empty_mailbox_is_none() {
    let mut state = GlobalClipboardState::new();
    assert!(state.drain().is_none());
    let (_, unread) = state.peek();
    assert!(!unread);
}

#[test]
fn republish_sets_flag_again_after_drain() {
    let mut state = GlobalClipboardState::new();
    state.publish(ClipboardData::Text("one".to_string()), DecodeStatus::NotAttempted);
    state.drain();
    state.publish(ClipboardData::Text("two".to_string()), DecodeStatus::NotAttempted);
    let (value, unread) = state.peek();
    assert!(unread);
    match value.unwrap().data {
        ClipboardData::Text(t) => assert_eq!(t, "two"),
        _ => panic!("the latest publication must win"),
    }
}
