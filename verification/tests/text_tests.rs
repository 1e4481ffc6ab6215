use autodebugger::config::{RotatingFileConfig, VerbosityConfig};
use autodebugger::text::{
    contains_ci, contains_str, ends_with, join_lines, join_with, split_lines, starts_with,
    strip_prefix_all, strip_suffix_all, trim_str, u32_to_string, u64_to_string, usize_to_string,
};

#[test]
fn decimal_rendering() {
    assert_eq!(u64_to_string(0), "0");
    assert_eq!(u64_to_string(7), "7");
    assert_eq!(u64_to_string(10), "10");
    assert_eq!(u64_to_string(1234567890), "1234567890");
    assert_eq!(u64_to_string(u64::MAX), "18446744073709551615");
    assert_eq!(usize_to_string(4096), "4096");
    assert_eq!(u32_to_string(42), "42");
}

#[test]
fn line_splitting_matches_lines_semantics() {
    let lines = split_lines("a\r\nb\nc");
    assert_eq!(lines, vec!["a".to_string(), "b".to_string(), "c".to_string()]);
    // A final line ending is optional and adds no empty line.
    assert_eq!(split_lines("a\nb\n"), vec!["a".to_string(), "b".to_string()]);
    assert_eq!(split_lines(""), Vec::<String>::new());
    // Interior empty lines are kept.
    assert_eq!(split_lines("a\n\nb"), vec!["a".to_string(), "".to_string(), "b".to_string()]);
    // A carriage return is stripped only just before a newline.
    assert_eq!(split_lines("a\rb\nc\r"), vec!["a\rb".to_string(), "c\r".to_string()]);
}

#[test]
fn joining_lines() {
    let lines = vec!["a".to_string(), "b".to_string(), "c".to_string()];
    assert_eq!(join_lines(&lines), "a\nb\nc");
    assert_eq!(join_lines(&Vec::new()), "");
    assert_eq!(join_with(&lines, ", "), "a, b, c");
    assert_eq!(join_with(&vec!["x".to_string()], ", "), "x");
}

#[test]
fn searching_and_affixes() {
    assert!(contains_str("hello world", "lo wo"));
    assert!(!contains_str("hello", "world"));
    assert!(contains_str("abc", ""));
    assert!(contains_ci("MyApp=DEBUG,other=info", "debug"));
    assert!(!contains_ci("MyApp=WARN", "debug"));
    assert!(starts_with("## Specific Tasks", "## "));
    assert!(!starts_with("#", "## "));
    assert!(ends_with("main.rs", ".rs"));
    assert!(!ends_with("main.rc", ".rs"));
}

#[test]
fn trimming_and_stripping() {
    assert_eq!(trim_str("  \t hello \r\n"), "hello");
    assert_eq!(trim_str("   "), "");
    assert_eq!(trim_str("x"), "x");
    assert_eq!(strip_prefix_all("1.1. task", "1."), " task");
    assert_eq!(strip_prefix_all("task", "1."), "task");
    assert_eq!(strip_suffix_all("app.log.log", ".log"), "app");
    assert_eq!(strip_suffix_all("app", ".log"), "app");
}

#[test]
fn config_defaults_are_pinned() {
    let vc = VerbosityConfig::default();
    assert_eq!(vc.info_threshold, 50);
    assert_eq!(vc.debug_threshold, 100);
    assert_eq!(vc.trace_threshold, 200);
    let rc = RotatingFileConfig::default();
    assert_eq!(rc.log_directory, "logs");
    assert_eq!(rc.filename, "app.log");
    assert_eq!(rc.max_files, 10);
    assert_eq!(rc.max_size_mb, 5);
    assert!(rc.console_output);
    assert!(rc.truncate_on_limit);
}
