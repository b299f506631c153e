use nets_assist::text::{chars_of, join_all, joined_chunks, parse_i64, replace_newlines, same_text, truncate};
use nets_assist::time::{format_duration_seconds, list_timezones, now_in_timezone, time_in_zone, TimeError};
use nets_assist::sysinfo::{format_uptime, DiskInfo};

#[test]
fn duration_renders_hours_minutes_seconds() {
    assert_eq!(format_duration_seconds(3661), "01h 01m 01s");
    assert_eq!(format_duration_seconds(0), "00h 00m 00s");
    assert_eq!(format_duration_seconds(36000), "10h 00m 00s");
    assert_eq!(format_duration_seconds(359999), "99h 59m 59s");
    assert_eq!(format_duration_seconds(360000), "100h 00m 00s");
}

#[test]
fn duration_of_negative_seconds_keeps_the_sign() {
    assert_eq!(format_duration_seconds(-61), "00h -1m -1s");
    assert_eq!(format_duration_seconds(-3600), "-1h 00m 00s");
    assert_eq!(format_duration_seconds(i64::MIN), "-2562047788015215h -30m -8s");
}

#[test]
fn duration_parts_add_back_up() {
    for secs in [0i64, 59, 60, 3599, 3600, 86399, 123456, -1, -59, -3601, -123456] {
        let text = format_duration_seconds(secs);
        let parts: Vec<i64> = text
            .split(' ')
            .map(|p| p[..p.len() - 1].parse::<i64>().unwrap())
            .collect();
        assert_eq!(parts[0] * 3600 + parts[1] * 60 + parts[2], secs);
        assert!(parts[1].abs() < 60 && parts[2].abs() < 60);
    }
}

#[test]
fn truncate_keeps_short_text() {
    assert_eq!(truncate("hello", 10), "hello");
    assert_eq!(truncate("hello", 5), "hello");
    assert_eq!(truncate("", 0), "");
}

#[test]
fn truncate_cuts_long_text_at_a_byte_count() {
    assert_eq!(truncate("abcdef", 3), "abc...");
    assert_eq!(truncate("h\u{e9}llo", 3), "h\u{e9}...");
    assert_eq!(truncate("abc", 0), "...");
}

#[test]
fn truncated_text_is_a_prefix() {
    let s = "the quick brown fox jumps over the lazy dog";
    let t = truncate(s, 12);
    let kept = &t[..t.len() - 3];
    assert!(s.starts_with(kept));
    assert_eq!(kept.len(), 12);
}

#[test]
fn parse_accepts_what_std_accepts() {
    for s in ["0", "42", "-42", "+7", "007", "9223372036854775807", "-9223372036854775808", "", "-", "+", "1a", " 1", "9223372036854775808", "-9223372036854775809", "99999999999999999999999", "--1", "\u{661}"] {
        assert_eq!(parse_i64(s), s.parse::<i64>().ok(), "input {:?}", s);
    }
}

#[test]
fn parse_reads_back_display() {
    for i in [0i64, 1, -1, 10, 12345, i64::MAX, i64::MIN, -9990] {
        assert_eq!(parse_i64(&i.to_string()), Some(i));
    }
}

#[test]
fn newlines_become_spaces() {
    assert_eq!(replace_newlines("a\nb\n\nc"), "a b  c");
    assert_eq!(replace_newlines("plain"), "plain");
}

#[test]
fn texts_compare_by_content() {
    assert!(same_text("range", "range"));
    assert!(!same_text("range", "Range"));
    assert!(!same_text("range", "ranges"));
    assert_eq!(chars_of("h\u{e9}"), vec!['h', '\u{e9}']);
}

#[test]
fn joining_and_chunking() {
    let lines: Vec<String> = (1..=5).map(|i| i.to_string()).collect();
    assert_eq!(join_all(&lines, ", "), "1, 2, 3, 4, 5");
    assert_eq!(join_all(&Vec::new(), ", "), "");
    assert_eq!(joined_chunks("> ", &lines, 2), vec!["> 1\n2", "> 3\n4", "> 5"]);
    assert_eq!(joined_chunks("", &lines, 5), vec!["1\n2\n3\n4\n5"]);
    assert!(joined_chunks("", &Vec::new(), 3).is_empty());
}

#[test]
fn chunks_put_back_together_give_the_lines() {
    let lines: Vec<String> = (0..37).map(|i| format!("line {}", i)).collect();
    let replies = joined_chunks("", &lines, 15);
    assert_eq!(replies.len(), 3);
    let rejoined: Vec<String> = replies.iter().flat_map(|r| r.split('\n').map(|s| s.to_string())).collect();
    assert_eq!(rejoined, lines);
}

#[test]
fn time_in_a_known_zone() {
    let told = now_in_timezone("UTC").unwrap();
    assert!(told.ends_with(" UTC"));
    assert_eq!(told.len(), "2024-01-01 00:00:00 UTC".len());
    assert!(now_in_timezone("Europe/London").is_ok());
}

#[test]
fn time_at_an_instant_in_a_zone() {
    assert_eq!(time_in_zone("UTC", 0, 0), Ok("1970-01-01 00:00:00 UTC".to_string()));
    assert_eq!(time_in_zone("Asia/Tokyo", 0, 0), Ok("1970-01-01 09:00:00 JST".to_string()));
    assert_eq!(time_in_zone("UTC", 1431648000, 999_999_999), Ok("2015-05-15 00:00:00 UTC".to_string()));
    assert_eq!(time_in_zone("America/New_York", 1431648000, 0), Ok("2015-05-14 20:00:00 EDT".to_string()));
    assert_eq!(time_in_zone("UTC", -86400, 0), Ok("1969-12-31 00:00:00 UTC".to_string()));
    assert_eq!(time_in_zone("UTC", 253402300800, 0), Ok("+10000-01-01 00:00:00 UTC".to_string()));
    assert_eq!(time_in_zone("Nowhere/Else", 0, 0), Err(TimeError::InvalidTimezone("Nowhere/Else".to_string())));
}

#[test]
fn time_in_an_unknown_zone() {
    assert_eq!(now_in_timezone("Mars/Olympus"), Err(TimeError::InvalidTimezone("Mars/Olympus".to_string())));
    assert!(now_in_timezone("utc").is_err());
    assert_eq!(TimeError::InvalidTimezone("X".to_string()).message(), "Invalid timezone: X");
}

#[test]
fn zone_suggestions_ignore_case() {
    let found = list_timezones("NEW_YORK");
    assert_eq!(found, vec!["America/New_York".to_string()]);
    let found = list_timezones("europe/");
    assert_eq!(found.len(), 10);
    assert_eq!(found[0], "Europe/Amsterdam");
    for name in &found {
        assert!(name.to_lowercase().contains("europe/"));
        assert!(now_in_timezone(name).is_ok());
    }
    assert!(list_timezones("no such zone").is_empty());
    assert_eq!(list_timezones("").len(), 10);
}

#[test]
fn uptime_in_days_hours_minutes() {
    assert_eq!(format_uptime(90061), "1d 1h 1m");
    assert_eq!(format_uptime(59), "0d 0h 0m");
    assert_eq!(format_uptime(86399), "0d 23h 59m");
}

#[test]
fn disk_usage_from_space() {
    let d = DiskInfo::from_space("/".to_string(), 100, 30);
    assert_eq!(d.used, 70);
    assert_eq!(d.total, 100);
    assert_eq!(d.mount, "/");
}
