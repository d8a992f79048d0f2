use speaker_core::feedback::FeedbackSignal;

#[test]
fn newest_publish_is_read() {
    let mut s = FeedbackSignal::new();
    s.publish(11);
    s.publish(22);
    s.publish(33);
    assert!(s.is_pending());
    assert_eq!(s.try_take(), Some(33));
    assert!(!s.is_pending());
    assert_eq!(s.try_take(), None);
}

#[test]
fn empty_mailbox_reads_nothing() {
    let mut s = FeedbackSignal::new();
    assert!(!s.is_pending());
    assert_eq!(s.try_take(), None);
}

#[test]
fn publish_after_read_is_seen() {
    let mut s = FeedbackSignal::new();
    s.publish(1);
    assert_eq!(s.try_take(), Some(1));
    s.publish(u32::MAX);
    assert_eq!(s.try_take(), Some(u32::MAX));
    assert_eq!(s.try_take(), None);
}
