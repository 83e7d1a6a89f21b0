use ntfy_send::logging::{
    enabled, format_record, keep_last, log_line, render_lines, rotate_log, Level, LOG_FILE,
    MAX_LEVEL, MAX_LOG_ENTRIES, TIMESTAMP_FORMAT,
};

fn numbered(count: usize) -> Vec<String> {
    (0..count).map(|i| format!("line {}", i)).collect()
}

#[test]
fn log_constants_are_fixed() {
    assert_eq!(LOG_FILE, "/var/lib/ntfy-send/ntfy-send.log");
    assert_eq!(MAX_LOG_ENTRIES, 500);
    assert_eq!(TIMESTAMP_FORMAT, "%Y-%m-%d %H:%M:%S");
    assert_eq!(MAX_LEVEL, Level::Info);
}

#[test]
fn keep_last_leaves_a_short_log_alone() {
    assert_eq!(keep_last(numbered(3), 5), None);
    assert_eq!(keep_last(Vec::new(), 5), None);
    assert_eq!(keep_last(Vec::new(), 0), None);
}

#[test]
fn keep_last_leaves_a_full_log_alone() {
    assert_eq!(keep_last(numbered(5), 5), None);
}

#[test]
fn keep_last_drops_the_oldest_line() {
    let kept = keep_last(numbered(6), 5);
    let expected: Vec<String> = (1..6).map(|i| format!("line {}", i)).collect();
    assert_eq!(kept, Some(expected));
}

#[test]
fn keep_last_keeps_the_tail_in_order() {
    let kept = keep_last(numbered(12), 5).unwrap();
    assert_eq!(kept, vec!["line 7", "line 8", "line 9", "line 10", "line 11"]);
}

#[test]
fn keep_last_with_no_room_keeps_nothing() {
    assert_eq!(keep_last(numbered(2), 0), Some(Vec::new()));
}

#[test]
fn render_lines_closes_every_line() {
    let lines = vec!["a".to_string(), "".to_string(), "b c".to_string()];
    assert_eq!(render_lines(&lines), "a\n\nb c\n");
}

#[test]
fn render_lines_of_nothing_is_empty() {
    assert_eq!(render_lines(&Vec::new()), "");
}

#[test]
fn rotate_log_leaves_up_to_the_cap_alone() {
    assert_eq!(rotate_log(Vec::new()), None);
    assert_eq!(rotate_log(numbered(499)), None);
    assert_eq!(rotate_log(numbered(500)), None);
}

#[test]
fn rotate_log_keeps_the_last_five_hundred_lines() {
    let text = rotate_log(numbered(507)).unwrap();
    let lines: Vec<&str> = text.lines().collect();
    assert_eq!(lines.len(), 500);
    for (i, line) in lines.iter().enumerate() {
        assert_eq!(*line, format!("line {}", i + 7));
    }
    assert!(text.ends_with("line 506\n"));
}

#[test]
fn rotate_log_of_one_line_too_many_drops_the_first() {
    let text = rotate_log(numbered(501)).unwrap();
    assert!(text.starts_with("line 1\nline 2\n"));
    assert_eq!(text.lines().count(), 500);
}

#[test]
fn enabled_takes_every_level() {
    for level in [Level::Error, Level::Warn, Level::Info, Level::Debug, Level::Trace] {
        assert!(enabled(level));
    }
}

#[test]
fn format_record_names_each_level() {
    let at = "2024-05-06 07:08:09";
    assert_eq!(format_record(at, Level::Error, "boom"), "2024-05-06 07:08:09 [ERROR] - boom");
    assert_eq!(format_record(at, Level::Warn, "hm"), "2024-05-06 07:08:09 [WARN] - hm");
    assert_eq!(format_record(at, Level::Info, "fine"), "2024-05-06 07:08:09 [INFO] - fine");
    assert_eq!(format_record(at, Level::Debug, "x = 1"), "2024-05-06 07:08:09 [DEBUG] - x = 1");
    assert_eq!(format_record(at, Level::Trace, ""), "2024-05-06 07:08:09 [TRACE] - ");
}

#[test]
fn format_record_keeps_the_message_as_it_is() {
    let line = format_record("", Level::Info, "a [b] - c\u{e9}");
    assert_eq!(line, " [INFO] - a [b] - c\u{e9}");
}

#[test]
fn log_line_starts_with_a_timestamp() {
    let line = log_line(Level::Error, "Failed to send message: timeout").unwrap();
    let suffix = " [ERROR] - Failed to send message: timeout";
    assert!(line.ends_with(suffix));
    let timestamp = &line[..line.len() - suffix.len()];
    let shape: String =
        timestamp.chars().map(|c| if c.is_ascii_digit() { '9' } else { c }).collect();
    assert_eq!(shape, "9999-99-99 99:99:99");
}

#[test]
fn log_line_takes_every_level() {
    for level in [Level::Error, Level::Warn, Level::Info, Level::Debug, Level::Trace] {
        assert!(log_line(level, "x").is_some());
    }
}
