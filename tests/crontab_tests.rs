use ssr::crontab::{count_fields, next_step, normalize, occurrence_lines, CronError, CrontabCommand, UPCOMING};

#[test]
fn five_fields_get_seconds() {
    let c = CrontabCommand::new("0 0 * * *").unwrap();
    assert_eq!(c.expression, "0 0 0 * * *");
}

#[test]
fn six_fields_kept() {
    let c = CrontabCommand::new("*/5 * * * * *").unwrap();
    assert_eq!(c.expression, "*/5 * * * * *");
    assert_eq!(c.fields()[0], (0..60).step_by(5).collect::<Vec<u16>>());
}

#[test]
fn next_times_increase_after_now() {
    let c = CrontabCommand::new("0 0 * * *").unwrap();
    let now = chrono::Utc::now().timestamp();
    let times = c.upcoming(now, UPCOMING);
    assert_eq!(times.len(), 10);
    assert!(times[0] > now);
    for w in times.windows(2) {
        assert!(w[0] < w[1]);
    }
    assert_eq!(occurrence_lines(&times).unwrap().len(), 10);
}

#[test]
fn out_of_range_minute_fails() {
    assert!(matches!(CrontabCommand::new("99 * * * * *"), Err(CronError::Parse(_))));
}

#[test]
fn wrong_field_count_fails() {
    assert!(matches!(CrontabCommand::new("* * * *"), Err(CronError::FieldCount)));
    assert!(matches!(CrontabCommand::new("0 0 0 * * * 2030"), Err(CronError::FieldCount)));
    assert!(matches!(CrontabCommand::new("@daily"), Err(CronError::FieldCount)));
}

#[test]
fn field_counting() {
    assert_eq!(count_fields(""), 0);
    assert_eq!(count_fields("  a\tb  c "), 3);
    assert_eq!(normalize(" 1 2 3 4 5").unwrap(), "0  1 2 3 4 5");
    assert!(normalize("1 2").is_none());
}

#[test]
fn field_values_per_field() {
    let c = CrontabCommand::new("*/15 9-11 1,15 JAN-MAR MON-FRI").unwrap();
    let f = c.fields();
    assert_eq!(f.len(), 6);
    assert_eq!(f[0], vec![0]);
    assert_eq!(f[1], vec![0, 15, 30, 45]);
    assert_eq!(f[2], vec![9, 10, 11]);
    assert_eq!(f[3], vec![1, 15]);
    assert_eq!(f[4], vec![1, 2, 3]);
    assert_eq!(f[5], vec![1, 2, 3, 4, 5]);
}

#[test]
fn step_keeps_only_later_times() {
    let mut times = vec![10];
    assert!(next_step(&mut times, 10, Some(20), 3));
    assert_eq!(times, vec![10, 20]);
    assert!(!next_step(&mut times, 20, Some(20), 3));
    assert!(!next_step(&mut times, 20, None, 3));
    assert!(!next_step(&mut times, 20, Some(30), 2));
    assert_eq!(times, vec![10, 20]);
}

#[test]
fn occurrence_out_of_range() {
    assert!(occurrence_lines(&vec![0, i64::MAX]).is_none());
    assert_eq!(occurrence_lines(&vec![]).unwrap().len(), 0);
}

#[test]
fn unicode_blanks_separate_fields() {
    assert_eq!(count_fields("0\u{a0}0\u{3000}* * *"), 5);
    let c = CrontabCommand::new("0\u{a0}0 * * *").unwrap();
    assert_eq!(c.fields()[2], vec![0]);
}
