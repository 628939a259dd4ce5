use std::time::Duration;

use umod_codex::clock::{clock_str, now_str, uptime_str, uptime_text_for_secs};
use umod_codex::text::{decimal_string, first_line_of, is_blank_text, trim_text, where_candidate};

#[test]
fn decimal_of_numbers() {
    assert_eq!(decimal_string(0), "0");
    assert_eq!(decimal_string(7), "7");
    assert_eq!(decimal_string(8787), "8787");
    assert_eq!(decimal_string(u64::MAX), "18446744073709551615");
}

#[test]
fn trim_removes_unicode_whitespace() {
    assert_eq!(trim_text("  C:\\Python\\python.exe\r\n"), "C:\\Python\\python.exe");
    assert_eq!(trim_text("\u{3000}\u{a0}a b\u{2028}"), "a b");
    assert_eq!(trim_text("   "), "");
    assert_eq!(trim_text(""), "");
    assert_eq!(trim_text("x"), "x");
}

#[test]
fn blank_text() {
    assert!(is_blank_text(""));
    assert!(is_blank_text(" \t\n"));
    assert!(!is_blank_text(" a "));
}

#[test]
fn first_line_like_lines_next() {
    assert_eq!(first_line_of(""), None);
    assert_eq!(first_line_of("\n").as_deref(), Some(""));
    assert_eq!(first_line_of("a\r\nb").as_deref(), Some("a"));
    assert_eq!(first_line_of("a\r").as_deref(), Some("a\r"));
    assert_eq!(first_line_of("only").as_deref(), Some("only"));
    for s in ["", "\n", "a\r\nb", "a\r", "x\ny\n", "\r\n"] {
        assert_eq!(first_line_of(s).as_deref(), s.lines().next());
    }
}

#[test]
fn where_output_is_read() {
    let out = b"C:\\Python312\\python.exe\r\nC:\\Other\\python.exe\r\n";
    assert_eq!(where_candidate(true, out).as_deref(), Some("C:\\Python312\\python.exe"));
    assert_eq!(where_candidate(false, out), None);
    assert_eq!(where_candidate(true, b""), None);
    assert_eq!(where_candidate(true, b"  /usr/bin/codex  \n").as_deref(), Some("/usr/bin/codex"));
}

#[test]
fn where_output_with_invalid_utf8() {
    // Invalid bytes are replaced, not dropped: the result is not the input unchanged.
    let out = b"C:\\Pyth\xffon\\python.exe\n";
    assert_eq!(where_candidate(true, out).as_deref(), Some("C:\\Pyth\u{fffd}on\\python.exe"));
}

#[test]
fn clock_text_at_utc_plus_three() {
    assert_eq!(clock_str(0), "03:00:00");
    assert_eq!(clock_str(3661), "04:01:01");
    assert_eq!(clock_str(21 * 3600 + 59 * 60 + 59), "00:59:59");
    assert_eq!(clock_str(86400 + 12 * 3600 + 5), "15:00:05");
}

#[test]
fn now_is_a_clock_text() {
    let s = now_str();
    assert_eq!(s.len(), 8);
    let b = s.as_bytes();
    assert_eq!(b[2], b':');
    assert_eq!(b[5], b':');
    let h: u32 = s[0..2].parse().unwrap();
    let m: u32 = s[3..5].parse().unwrap();
    let sec: u32 = s[6..8].parse().unwrap();
    assert!(h < 24 && m < 60 && sec < 60);
}

#[test]
fn uptime_texts() {
    assert_eq!(uptime_text_for_secs(0), "щойно піднято");
    assert_eq!(uptime_text_for_secs(59), "щойно піднято");
    assert_eq!(uptime_text_for_secs(60), "аптайм 1 хв");
    assert_eq!(uptime_text_for_secs(7 * 60 + 30), "аптайм 7 хв");
    assert_eq!(uptime_text_for_secs(3599), "аптайм 59 хв");
    assert_eq!(uptime_text_for_secs(3600), "аптайм 1 год 0 хв");
    assert_eq!(uptime_text_for_secs(4320), "аптайм 1 год 12 хв");
}

#[test]
fn uptime_of_a_duration() {
    assert_eq!(uptime_str(Duration::from_secs(4320)), "аптайм 1 год 12 хв");
    assert_eq!(uptime_str(Duration::from_millis(59_999)), "щойно піднято");
    assert_eq!(uptime_str(Duration::from_millis(61_500)), "аптайм 1 хв");
}

#[test]
fn local_time_of_day_text() {
    assert_eq!(umod_codex::clock::hms_str(9, 5, 7), "09:05:07");
    assert_eq!(umod_codex::clock::hms_str(23, 59, 0), "23:59:00");
}
