use chat_application::clock::time_stamp;
use std::time::Duration;
use std::time::SystemTime;

#[test]
fn a_time_stamp_is_the_whole_seconds_measured() {
    assert_eq!(time_stamp(Ok(Duration::from_secs(0))), 0);
    assert_eq!(time_stamp(Ok(Duration::from_secs(5))), 5);
    assert_eq!(time_stamp(Ok(Duration::from_millis(5999))), 5);
    assert_eq!(time_stamp(Ok(Duration::from_millis(999))), 0);
    assert_eq!(time_stamp(Ok(Duration::new(1_700_000_000, 999_999_999))), 1_700_000_000);
    assert_eq!(time_stamp(Ok(Duration::from_secs(u64::MAX))), u64::MAX);
}

#[test]
fn a_time_stamp_follows_the_clock() {
    let now = SystemTime::now();
    let elapsed = now.duration_since(SystemTime::UNIX_EPOCH);
    let expected = elapsed.clone().unwrap().as_secs();
    assert_eq!(time_stamp(elapsed), expected);
    assert!(expected > 1_600_000_000);
}

#[test]
fn a_clock_before_the_epoch_gives_time_stamp_zero() {
    let later = SystemTime::UNIX_EPOCH + Duration::from_secs(10);
    let before = SystemTime::UNIX_EPOCH.duration_since(later);
    assert!(before.is_err());
    assert_eq!(time_stamp(before), 0);
    let long_before = SystemTime::UNIX_EPOCH.duration_since(SystemTime::now());
    assert!(long_before.is_err());
    assert_eq!(time_stamp(long_before), 0);
}
