use std::time::{Duration, UNIX_EPOCH};

use blog_feed::time_util::{current_unix_timestamp, to_unix_timestamp, unix_seconds};
use blog_feed::user::{hash_with_salt, login_grants, pass_hash, pass_verify};

#[test]
fn epoch_is_zero() {
    assert_eq!(to_unix_timestamp(UNIX_EPOCH), 0);
}

#[test]
fn after_and_before_epoch() {
    assert_eq!(to_unix_timestamp(UNIX_EPOCH + Duration::from_secs(90)), 90);
    assert_eq!(to_unix_timestamp(UNIX_EPOCH - Duration::from_secs(90)), -90);
    assert_eq!(to_unix_timestamp(UNIX_EPOCH - Duration::from_millis(1500)), -1);
    assert_eq!(to_unix_timestamp(UNIX_EPOCH + Duration::from_millis(1500)), 1);
}

#[test]
fn now_is_after_2020() {
    assert!(current_unix_timestamp() > 1_577_836_800);
}

#[test]
fn unix_seconds_values() {
    assert_eq!(unix_seconds(false, 42), 42);
    assert_eq!(unix_seconds(true, 42), -42);
    assert_eq!(unix_seconds(true, 0), 0);
    assert_eq!(unix_seconds(false, u64::MAX), i64::MAX);
    assert_eq!(unix_seconds(true, 1u64 << 63), i64::MIN);
    assert_eq!(unix_seconds(true, u64::MAX), i64::MIN);
}

#[test]
fn hash_then_verify() {
    let h = pass_hash("hunter2".to_string()).unwrap();
    assert!(h.starts_with("$argon2id$"));
    assert_ne!(h, "hunter2");
    assert!(pass_verify("hunter2".to_string(), h.clone()));
    assert!(!pass_verify("hunter3".to_string(), h));
}

#[test]
fn fixed_salt_is_deterministic() {
    let salt = "c2FsdHNhbHRzYWx0".to_string();
    let a = hash_with_salt(&"pw".to_string(), &salt).unwrap();
    let b = hash_with_salt(&"pw".to_string(), &salt).unwrap();
    assert_eq!(a, b);
    assert!(a.contains("c2FsdHNhbHRzYWx0"));
    assert!(pass_verify("pw".to_string(), a));
}

#[test]
fn bad_salt_and_bad_hash() {
    assert!(hash_with_salt(&"pw".to_string(), &"!".to_string()).is_none());
    assert!(!pass_verify("pw".to_string(), "not a phc string".to_string()));
}

#[test]
fn login_needs_a_matching_stored_hash() {
    let h = hash_with_salt(&"pw".to_string(), &"c2FsdHNhbHRzYWx0".to_string()).unwrap();
    assert!(login_grants("pw".to_string(), Some(h.clone())));
    assert!(!login_grants("px".to_string(), Some(h)));
    assert!(!login_grants("pw".to_string(), None));
}
