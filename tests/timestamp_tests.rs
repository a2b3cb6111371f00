use ssr::text::{decimal_string, signed_decimal_string};
use ssr::timestamp::{instant, relative_string, relative_time, Instant, TimestampCommand};

fn relative(diff: i64) -> String {
    relative_string(relative_time(1_700_000_000, 1_700_000_000 - diff))
}

#[test]
fn boundary_seconds_only() {
    assert_eq!(relative(0), "0秒前");
    assert_eq!(relative(59), "59秒前");
}

#[test]
fn boundary_minutes() {
    assert_eq!(relative(60), "1分钟 0秒前");
    assert_eq!(relative(3599), "59分钟 59秒前");
}

#[test]
fn boundary_hours() {
    assert_eq!(relative(3600), "1小时 0分钟 0秒前");
    assert_eq!(relative(86399), "23小时 59分钟 59秒前");
}

#[test]
fn boundary_days() {
    assert_eq!(relative(86400), "1天 0小时 0分钟 0秒前");
    assert_eq!(relative(90061), "1天 1小时 1分钟 1秒前");
}

#[test]
fn future_suffix() {
    assert_eq!(relative(-61), "1分钟 1秒后");
}

#[test]
fn components_rebuild_distance() {
    let r = relative_time(100, 100 + 200_000);
    assert!(r.future);
    assert!(r.seconds < 60 && r.minutes < 60 && r.hours < 24);
    assert_eq!(r.days * 86400 + r.hours * 3600 + r.minutes * 60 + r.seconds, 200_000);
    assert_eq!((r.days, r.hours, r.minutes, r.seconds), (2, 7, 33, 20));
}

#[test]
fn components_at_extremes() {
    let r = relative_time(i64::MAX, i64::MIN);
    assert!(!r.future);
    let total = r.days as u128 * 86400 + r.hours as u128 * 3600 + r.minutes as u128 * 60
        + r.seconds as u128;
    assert_eq!(total, u64::MAX as u128);
}

#[test]
fn millisecond_threshold() {
    assert_eq!(instant(999_999_999_999), Instant { seconds: 999_999_999_999, millis: 0 });
    assert_eq!(instant(1_000_000_000_000), Instant { seconds: 1_000_000_000, millis: 0 });
    assert_eq!(instant(1_700_000_000_123), Instant { seconds: 1_700_000_000, millis: 123 });
    assert_eq!(instant(-1_000_000_000_001), Instant { seconds: -1_000_000_001, millis: 999 });
}

#[test]
fn decimal_rendering() {
    assert_eq!(decimal_string(0), "0");
    assert_eq!(decimal_string(1234567890), "1234567890");
    assert_eq!(decimal_string(u64::MAX), u64::MAX.to_string());
    assert_eq!(signed_decimal_string(-42), "-42");
    assert_eq!(signed_decimal_string(i64::MIN), i64::MIN.to_string());
}

#[test]
fn report_lines() {
    let cmd = TimestampCommand::new(Some(0));
    assert_eq!(cmd.timestamp, Some(0));
    let rep = TimestampCommand::report(0, 59).unwrap();
    assert_eq!(rep.unix, "0");
    assert_eq!(rep.gmt, "1970-01-01 00:00:00 UTC Thu");
    assert_eq!(rep.relative, "59秒前");
    assert!(!rep.local.is_empty());
}

#[test]
fn report_milliseconds() {
    let rep = TimestampCommand::report(1_000_000_000_500, 1_000_000_060).unwrap();
    assert_eq!(rep.unix, "1000000000500");
    assert_eq!(rep.gmt, "2001-09-09 01:46:40.500 UTC Sun");
    assert_eq!(rep.relative, "1分钟 0秒前");
}
