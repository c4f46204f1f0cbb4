use fmrl::notifications::{
    decimal_string, get_s, DebounceStep, notification_body, notification_summary, NotificationBatch,
    NotificationType,
};

#[test]
fn test_get_s() {
    assert_eq!(get_s(0), "s");
    assert_eq!(get_s(1), "");
    assert_eq!(get_s(2), "s");
}

#[test]
fn notification_text() {
    assert_eq!(notification_summary(0, 0), "");
    assert_eq!(notification_body(0, 0), "");
    assert_eq!(notification_summary(1, 0), "❌ fmrl Errors 🌈");
    assert_eq!(notification_body(1, 0), "1 error");
    assert_eq!(notification_summary(0, 1), "⚠️ fmrl Warnings 🌈");
    assert_eq!(notification_body(0, 1), "1 warning");
    assert_eq!(notification_summary(1, 1), "❌ fmrl Errors 🌈");
    assert_eq!(notification_body(1, 1), "1 error and 1 warning");
    assert_eq!(notification_body(2, 3), "2 errors and 3 warnings");
    assert_eq!(notification_body(0, 12), "12 warnings");
}

#[test]
fn decimal_numerals() {
    assert_eq!(decimal_string(0), "0");
    assert_eq!(decimal_string(7), "7");
    assert_eq!(decimal_string(10), "10");
    assert_eq!(decimal_string(1203), "1203");
    assert_eq!(decimal_string(usize::MAX), usize::MAX.to_string());
}

#[test]
fn batches_gather_until_flushed() {
    let mut batch = NotificationBatch::new();
    assert_eq!(batch.flush(), None);
    batch.record(NotificationType::Error);
    batch.record(NotificationType::Warning);
    batch.record(NotificationType::Warning);
    batch.record(NotificationType::Error);
    batch.record(NotificationType::Error);
    assert_eq!(batch.flush(), Some((3, 2)));
    assert_eq!(batch.flush(), None);
    batch.record(NotificationType::Warning);
    assert_eq!(batch.flush(), Some((0, 1)));
    let mut full = NotificationBatch { error_count: usize::MAX, warning_count: 0 };
    full.record(NotificationType::Error);
    assert_eq!(full.error_count, usize::MAX);
}

#[test]
fn debounce_steps() {
    let mut batch = NotificationBatch::new();
    assert_eq!(batch.step(0, 500), DebounceStep::Wait(500));
    assert_eq!(batch.step(120, 500), DebounceStep::Wait(380));
    assert_eq!(batch.step(500, 500), DebounceStep::Restart);
    batch.record(NotificationType::Error);
    batch.record(NotificationType::Warning);
    batch.record(NotificationType::Warning);
    assert_eq!(batch.step(499, 500), DebounceStep::Wait(1));
    assert_eq!(batch.step(800, 500), DebounceStep::Notify(1, 2));
    assert_eq!(batch.step(800, 500), DebounceStep::Restart);
}
