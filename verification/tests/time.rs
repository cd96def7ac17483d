use jlogger_tracing::boot::parse_boot_time;
use jlogger_tracing::timer::{local_prefix, uptime_prefix};
use jlogger_tracing::{JloggerTimer, LogTimeFormat};

#[test]
fn boot_time_from_status_text() {
    let status = b"cpu  1 2 3\ncpu0 4 5 6\nbtime 1652766000\nprocs_running 5\n";
    assert_eq!(parse_boot_time(status), Some(1652766000));
}

#[test]
fn boot_time_first_marker_line_wins() {
    let status = b"btime 7\nbtime 8\n";
    assert_eq!(parse_boot_time(status), Some(7));
}

#[test]
fn boot_time_marker_is_a_prefix_check() {
    assert_eq!(parse_boot_time(b"btimes 77 88\n"), Some(77));
}

#[test]
fn boot_time_missing_marker() {
    assert_eq!(parse_boot_time(b"cpu 1 2 3\nintr 9\n"), None);
    assert_eq!(parse_boot_time(b""), None);
}

#[test]
fn boot_time_no_trailing_newline() {
    assert_eq!(parse_boot_time(b"cpu 0\nbtime 99"), Some(99));
}

#[test]
fn boot_time_malformed_fields() {
    assert_eq!(parse_boot_time(b"btime\n"), None);
    assert_eq!(parse_boot_time(b"btime  \n"), None);
    assert_eq!(parse_boot_time(b"btime 12a\n"), None);
    assert_eq!(parse_boot_time(b"btime +\n"), None);
}

#[test]
fn boot_time_signs_and_bounds() {
    assert_eq!(parse_boot_time(b"btime +5\n"), Some(5));
    assert_eq!(parse_boot_time(b"btime -5\n"), Some(-5));
    assert_eq!(
        parse_boot_time(b"btime 9223372036854775807\n"),
        Some(i64::MAX)
    );
    assert_eq!(parse_boot_time(b"btime 9223372036854775808\n"), None);
    assert_eq!(
        parse_boot_time(b"btime -9223372036854775808\n"),
        Some(i64::MIN)
    );
    assert_eq!(parse_boot_time(b"btime -9223372036854775809\n"), None);
    assert_eq!(parse_boot_time(b"btime 99999999999999999999999\n"), None);
    assert_eq!(parse_boot_time(b"btime 0007\n"), Some(7));
}

#[test]
fn timer_takes_parsed_boot_time() {
    let status = b"cpu 1\nbtime 1000\n";
    let timer = JloggerTimer::new(LogTimeFormat::TimeStamp, Some(status));
    assert_eq!(timer.system_start, 1000);
    assert_eq!(timer.time_format, LogTimeFormat::TimeStamp);
}

#[test]
fn time_none_renders_empty() {
    let timer = JloggerTimer::new(LogTimeFormat::TimeNone, Some(b"btime 1\n"));
    assert_eq!(timer.format_time(), "");
}

#[test]
fn uptime_prefix_fills_nanoseconds_to_nine() {
    assert_eq!(uptime_prefix(1005, 5, 456), "1000.456000000");
    assert_eq!(uptime_prefix(0, 0, 0), "0.000000000");
    assert_eq!(uptime_prefix(10, 3, 999_999_999), "7.999999999");
}

#[test]
fn uptime_prefix_negative_elapsed() {
    assert_eq!(uptime_prefix(5, 10, 0), "-5.000000000");
}

#[test]
fn uptime_stamp_shape() {
    let rendered = uptime_prefix(9080, 0, 163_365_118);
    assert_eq!(rendered, "9080.163365118");
    let dot = rendered.find('.').unwrap();
    assert!(rendered[..dot].bytes().all(|b| b.is_ascii_digit()));
    assert_eq!(rendered[dot + 1..].len(), 9);
    assert!(rendered[dot + 1..].bytes().all(|b| b.is_ascii_digit()));
}

#[test]
fn local_prefix_renders_calendar_form() {
    assert_eq!(local_prefix(2022, 5, 17, 13, 0, 3), "2022-05-17 13:00:03");
    assert_eq!(local_prefix(33, 1, 2, 3, 4, 5), "0033-01-02 03:04:05");
    assert_eq!(local_prefix(1999, 12, 31, 23, 59, 59), "1999-12-31 23:59:59");
}

#[test]
fn live_local_time_matches_the_calendar_shape() {
    let timer = JloggerTimer::new(LogTimeFormat::TimeLocal, None);
    let rendered = timer.format_time();
    let bytes = rendered.as_bytes();
    assert_eq!(bytes.len(), 19);
    for (i, b) in bytes.iter().enumerate() {
        match i {
            4 | 7 => assert_eq!(*b, b'-'),
            10 => assert_eq!(*b, b' '),
            13 | 16 => assert_eq!(*b, b':'),
            _ => assert!(b.is_ascii_digit()),
        }
    }
}

#[test]
fn timer_without_status_still_renders() {
    let timer = JloggerTimer::new(LogTimeFormat::TimeStamp, None);
    let rendered = timer.format_time();
    let dot = rendered.find('.').unwrap();
    assert_eq!(rendered[dot + 1..].len(), 9);
}
