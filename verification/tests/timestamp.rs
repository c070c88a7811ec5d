use sntp_request::{Timestamp, NTP_UNIX_OFFSET};

#[test]
fn offset_between_the_epochs() {
    assert_eq!(NTP_UNIX_OFFSET, 2_208_988_800);
    assert_eq!(NTP_UNIX_OFFSET, (70 * 365 + 17) * 86_400);
}

#[test]
fn unix_epoch_is_zero() {
    assert_eq!(Timestamp { seconds: 2_208_988_800, fraction: 0 }.unix_time(), 0);
}

#[test]
fn one_second_after_the_unix_epoch() {
    assert_eq!(Timestamp { seconds: 2_208_988_801, fraction: 0 }.unix_time(), 1);
}

#[test]
fn before_the_unix_epoch_is_negative() {
    assert_eq!(Timestamp { seconds: 2_208_988_799, fraction: 0 }.unix_time(), -1);
    assert_eq!(Timestamp { seconds: 0, fraction: 0 }.unix_time(), -2_208_988_800);
    assert_eq!(Timestamp { seconds: 1, fraction: 0 }.unix_time(), -2_208_988_799);
}

#[test]
fn last_second_of_the_era() {
    assert_eq!(Timestamp { seconds: u32::MAX, fraction: 0 }.unix_time(), 2_085_978_495);
}

#[test]
fn fraction_plays_no_part_in_unix_time() {
    let whole = Timestamp { seconds: 3_723_456_640, fraction: 0 };
    let nearly_next = Timestamp { seconds: 3_723_456_640, fraction: u32::MAX };
    assert_eq!(whole.unix_time(), 1_514_467_840);
    assert_eq!(nearly_next.unix_time(), 1_514_467_840);
    assert_eq!(nearly_next.fraction, u32::MAX);
}

#[test]
fn unix_time_keeps_distances() {
    let a = Timestamp { seconds: 3_000_000_000, fraction: 9 };
    let b = Timestamp { seconds: 1_000_000_000, fraction: 4 };
    assert_eq!(a.unix_time() - b.unix_time(), 2_000_000_000);
    assert!(b.unix_time() < 0);
    assert!(a.unix_time() > 0);
}
