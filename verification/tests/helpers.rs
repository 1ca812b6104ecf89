use crm_core::models::identity::{Timestamp, Uuid};
use crm_core::utils::text::{clone_text, or_text, same_bytes, same_text, unwrap_text};

#[test]
fn texts_are_compared_by_their_characters() {
    assert!(same_text("", ""));
    assert!(same_text("Éva", "Éva"));
    assert!(!same_text("Éva", "Eva"));
    assert!(!same_text("a", "ab"));
    assert!(!same_text("Leader", "leader"));
}

#[test]
fn bytes_are_compared_in_full() {
    assert!(same_bytes(&[], &[]));
    assert!(same_bytes(&[1, 2, 3], &[1, 2, 3]));
    assert!(!same_bytes(&[1, 2, 3], &[1, 2]));
    assert!(!same_bytes(&[1, 2], &[1, 2, 3]));
    assert!(!same_bytes(&[1, 2, 3], &[1, 2, 4]));
    assert!(!same_bytes(&[0, 2, 3], &[1, 2, 3]));
}

#[test]
fn optional_texts_are_merged() {
    let some = |s: &str| Some(s.to_string());
    assert_eq!(or_text(some("a"), some("b")), some("a"));
    assert_eq!(or_text(None, some("b")), some("b"));
    assert_eq!(or_text(some(""), some("b")), some(""));
    assert_eq!(or_text(None, None), None);
    assert_eq!(unwrap_text(some("a")), "a");
    assert_eq!(unwrap_text(None), "");
    assert_eq!(clone_text(&some("a")), some("a"));
    assert_eq!(clone_text(&None), None);
}

#[test]
fn identifiers_and_times_keep_their_value() {
    let id = Uuid::from_u128(0x1234_5678_9abc_def0_1234_5678_9abc_def0);
    assert_eq!(id.as_u128(), 0x1234_5678_9abc_def0_1234_5678_9abc_def0);
    assert_eq!(Uuid::from_u128(0), Uuid { bits: 0 });
    assert_ne!(Uuid::from_u128(1), Uuid::from_u128(2));
    assert_eq!(Timestamp::from_micros(-5).as_micros(), -5);
    assert_eq!(Timestamp::from_micros(i64::MAX), Timestamp { micros: i64::MAX });
}
