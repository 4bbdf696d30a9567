use std::collections::VecDeque;
use xdpstats::cli::LogLevel;
use xdpstats::logger::{format_line, push_bounded, LoggerBase};

#[test]
fn logger_new_and_filter() {
    let l = LoggerBase::new(LogLevel::Warn, None, 10);
    assert_eq!(l.backlog, 10);
    assert_eq!(l.log_level, LogLevel::Warn);
    assert!(l.log_line(LogLevel::Info, "hello").is_none());
    assert_eq!(l.log_line(LogLevel::Error, "boom").unwrap(), "[ERROR] boom");
    assert_eq!(l.log_line(LogLevel::Warn, "w").unwrap(), "[WARN] w");
    assert!(l.enabled(LogLevel::Fatal));
    assert!(!l.enabled(LogLevel::Trace));
}

#[test]
fn format_line_shape() {
    assert_eq!(format_line(LogLevel::Info, "x y"), "[INFO] x y");
}

#[test]
fn push_bounded_keeps_backlog() {
    let mut b: VecDeque<String> = VecDeque::new();
    for i in 0..5 {
        push_bounded(&mut b, 3, format!("{i}"));
        assert!(b.len() <= 3);
        assert_eq!(b.back().unwrap(), &format!("{i}"));
    }
    assert_eq!(b, VecDeque::from(vec!["2".to_string(), "3".to_string(), "4".to_string()]));
    let mut z: VecDeque<String> = VecDeque::new();
    push_bounded(&mut z, 0, "a".to_string());
    push_bounded(&mut z, 0, "b".to_string());
    assert_eq!(z, VecDeque::from(vec!["b".to_string()]));
}
