use autodebugger::tracing_subscriber::{ConditionalLocationFormatter, LogEvent, ScopeEntry};
use autodebugger::Level;

fn event(level: Level, message: &str) -> LogEvent {
    LogEvent {
        level,
        target: "mytarget".to_string(),
        file: None,
        line: None,
        scopes: Vec::new(),
        message: message.to_string(),
    }
}

#[test]
fn info_lines_are_terse() {
    let f = ConditionalLocationFormatter;
    let line = f.format_event(&event(Level::Info, "hello world"));
    assert_eq!(line, "hello world\n");
}

#[test]
fn error_lines_carry_target_and_location() {
    let f = ConditionalLocationFormatter;
    let mut e = event(Level::Error, "boom");
    e.file = Some("src/a.rs".to_string());
    e.line = Some(42);
    let line = f.format_event(&e);
    assert_eq!(line, "ERROR mytarget src/a.rs:42: boom\n");
}

#[test]
fn warn_without_location_keeps_target() {
    let f = ConditionalLocationFormatter;
    let line = f.format_event(&event(Level::Warn, "careful"));
    assert_eq!(line, "WARN mytarget: careful\n");
}

#[test]
fn location_needs_both_file_and_line() {
    let f = ConditionalLocationFormatter;
    let mut e = event(Level::Error, "boom");
    e.file = Some("src/a.rs".to_string());
    let line = f.format_event(&e);
    assert_eq!(line, "ERROR mytarget: boom\n");
}

#[test]
fn debug_lines_carry_level_only() {
    let f = ConditionalLocationFormatter;
    let line = f.format_event(&event(Level::Debug, "state"));
    assert_eq!(line, "DEBUG: state\n");
    let line = f.format_event(&event(Level::Trace, "deep"));
    assert_eq!(line, "TRACE: deep\n");
}

#[test]
fn scopes_render_root_first_with_fields() {
    let f = ConditionalLocationFormatter;
    let mut e = event(Level::Info, "done");
    e.scopes = vec![
        ScopeEntry { name: "outer".to_string(), fields: "a=1".to_string() },
        ScopeEntry { name: "inner".to_string(), fields: "".to_string() },
    ];
    let line = f.format_event(&e);
    assert_eq!(line, "outer{a=1}:inner done\n");
}
