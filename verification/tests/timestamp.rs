use oplog_state::timestamp::{MAX_SECS, NANOS_PER_SEC};
use oplog_state::{unix_epoch, Timestamp};

#[test]
fn epoch_is_zero_seconds_and_zero_nanoseconds() {
    let epoch = unix_epoch();
    assert_eq!(epoch.secs_since_epoch(), 0);
    assert_eq!(epoch.nanos_since_epoch(), 0);
    assert_eq!(Timestamp::new(0, 0), Some(epoch));
}

#[test]
fn new_keeps_seconds_and_nanoseconds() {
    let time = Timestamp::new(1_700_000_000, 123_456_789).unwrap();
    assert_eq!(time.secs_since_epoch(), 1_700_000_000);
    assert_eq!(time.nanos_since_epoch(), 123_456_789);
}

#[test]
fn new_carries_whole_seconds_out_of_the_nanoseconds() {
    let time = Timestamp::new(1, 2_500_000_000).unwrap();
    assert_eq!(time.secs_since_epoch(), 3);
    assert_eq!(time.nanos_since_epoch(), 500_000_000);

    let most = Timestamp::new(0, u32::MAX).unwrap();
    assert_eq!(most.secs_since_epoch(), 4);
    assert_eq!(most.nanos_since_epoch(), 294_967_295);

    let edge = Timestamp::new(7, NANOS_PER_SEC).unwrap();
    assert_eq!(edge, Timestamp::new(8, 0).unwrap());
}

#[test]
fn new_holds_the_last_second_and_nothing_later() {
    assert_eq!(MAX_SECS, 9_223_372_036_854_775_807);
    let last = Timestamp::new(MAX_SECS, 999_999_999).unwrap();
    assert_eq!(last.secs_since_epoch(), MAX_SECS);
    assert_eq!(last.nanos_since_epoch(), 999_999_999);

    assert_eq!(Timestamp::new(MAX_SECS, 1_000_000_000), None);
    assert_eq!(Timestamp::new(MAX_SECS - 3, u32::MAX), None);
    assert!(Timestamp::new(MAX_SECS - 4, u32::MAX).is_some());
    assert_eq!(Timestamp::new(MAX_SECS + 1, 0), None);
    assert_eq!(Timestamp::new(u64::MAX, 0), None);
    assert_eq!(Timestamp::new(u64::MAX, u32::MAX), None);
}

#[test]
fn clock_reads_a_time_after_the_epoch() {
    let reading = oplog_state::clock::read_clock().unwrap();
    let std_secs = std::time::SystemTime::now()
        .duration_since(std::time::UNIX_EPOCH)
        .unwrap()
        .as_secs();
    assert!(reading.secs_since_epoch() > 1_000_000_000);
    assert!(reading.secs_since_epoch() <= std_secs);
    assert!(reading.nanos_since_epoch() < NANOS_PER_SEC);
}
