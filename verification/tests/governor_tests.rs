use autodebugger::config::{Config, RemoveDebugConfig, ValidateDocsConfig, VerbosityConfig};
use autodebugger::tracing_subscriber::{level_from_filter, threshold_for, VerbosityCheckLayer};
use autodebugger::Level;

fn config_with_thresholds(info: usize, debug: usize, trace: usize) -> Config {
    Config {
        verbosity: VerbosityConfig {
            info_threshold: info,
            debug_threshold: debug,
            trace_threshold: trace,
        },
        remove_debug: RemoveDebugConfig::default(),
        validate_docs: ValidateDocsConfig::default(),
    }
}

#[test]
fn test_verbosity_check_layer() {
    let mut layer = VerbosityCheckLayer::new();

    // Generate some log events.
    layer.record(Level::Error);
    layer.record(Level::Warn);
    layer.record(Level::Info);
    layer.record(Level::Debug);
    layer.record(Level::Trace);

    let counts = layer.counts_by_level();
    assert_eq!(counts.error, 1);
    assert_eq!(counts.warn, 1);
    assert_eq!(counts.info, 1);

    assert!(layer.total_count() >= 3);
}

#[test]
fn counters_match_emitted_volumes() {
    let mut g = VerbosityCheckLayer::new();
    for _ in 0..2 {
        g.record(Level::Error);
    }
    for _ in 0..3 {
        g.record(Level::Warn);
    }
    for _ in 0..4 {
        g.record(Level::Info);
    }
    for _ in 0..5 {
        g.record(Level::Debug);
    }
    for _ in 0..6 {
        g.record(Level::Trace);
    }
    let counts = g.counts_by_level();
    assert_eq!(counts.error, 2);
    assert_eq!(counts.warn, 3);
    assert_eq!(counts.info, 4);
    assert_eq!(counts.debug, 5);
    assert_eq!(counts.trace, 6);
    assert_eq!(g.total_count(), 2 + 3 + 4 + 5 + 6);
}

#[test]
fn info_threshold_boundary() {
    let config = config_with_thresholds(50, 100, 200);
    let mut g = VerbosityCheckLayer::with_config_and_level(config, Level::Info);
    for _ in 0..50 {
        g.record(Level::Info);
    }
    // Exactly the threshold: no warning yet.
    assert!(g.check_verbosity().is_none());
    // One event past it, of any level: a warning.
    g.record(Level::Trace);
    let warning = g.check_verbosity().expect("51 events past a threshold of 50 must warn");
    assert_eq!(warning.total_count, 51);
    assert_eq!(warning.threshold, 50);
    assert_eq!(warning.configured_level, Level::Info);
    assert_eq!(warning.counts.info, 50);
    assert_eq!(warning.counts.trace, 1);
}

#[test]
fn no_warning_at_warn_or_error() {
    for level in [Level::Warn, Level::Error] {
        let config = config_with_thresholds(1, 1, 1);
        let mut g = VerbosityCheckLayer::with_config_and_level(config, level);
        for _ in 0..1000 {
            g.record(Level::Warn);
            g.record(Level::Error);
        }
        assert!(g.check_verbosity().is_none());
        assert!(g.check_and_report().is_none());
    }
}

#[test]
fn report_renders_breakdown() {
    let config = config_with_thresholds(50, 100, 200);
    let mut g = VerbosityCheckLayer::with_config_and_level(config, Level::Info);
    for _ in 0..51 {
        g.record(Level::Error);
    }
    let report = g.check_and_report().expect("past the threshold");
    let expected = "\nLOG VERBOSITY WARNING\n\
        ========================\n\
        Total log events: 51 (threshold: 50 for INFO level)\n\n\
        Breakdown by level:\n  \
        ERROR: 51\n  \
        WARN:  0\n  \
        INFO:  0\n  \
        DEBUG: 0\n  \
        TRACE: 0\n\n\
        Consider reducing log verbosity to improve performance and readability.\n\
        Recommended thresholds:\n  \
        INFO:  <50 total logs\n  \
        DEBUG: <100 total logs\n  \
        TRACE: <200 total logs";
    assert_eq!(report, expected);
}

#[test]
fn urgency_ranks_are_ordered() {
    // ERROR is the most urgent level, TRACE the least.
    assert!(Level::Error.rank() < Level::Warn.rank());
    assert!(Level::Warn.rank() < Level::Info.rank());
    assert!(Level::Info.rank() < Level::Debug.rank());
    assert!(Level::Debug.rank() < Level::Trace.rank());
}

#[test]
fn threshold_table() {
    let vc = VerbosityConfig {
        info_threshold: 11,
        debug_threshold: 22,
        trace_threshold: 33,
    };
    assert_eq!(threshold_for(&vc, Level::Info), Some(11));
    assert_eq!(threshold_for(&vc, Level::Debug), Some(22));
    assert_eq!(threshold_for(&vc, Level::Trace), Some(33));
    assert_eq!(threshold_for(&vc, Level::Warn), None);
    assert_eq!(threshold_for(&vc, Level::Error), None);
}

#[test]
fn level_detection_from_filter_directives() {
    assert_eq!(level_from_filter("info"), Level::Info);
    assert_eq!(level_from_filter("DEBUG"), Level::Debug);
    assert_eq!(level_from_filter("myapp=trace,hyper=warn"), Level::Trace);
    assert_eq!(level_from_filter("warn"), Level::Warn);
    assert_eq!(level_from_filter("error"), Level::Error);
    // The most verbose word wins, wherever it stands.
    assert_eq!(level_from_filter("error,debug"), Level::Debug);
    // Unrecognized directives default to INFO.
    assert_eq!(level_from_filter(""), Level::Info);
    assert_eq!(level_from_filter("off"), Level::Info);
}
