use autodebugger::config::RotatingFileConfig;
use autodebugger::rotating_file_logger::{
    latest_filename, timestamped_filename, RotatingFileLogger, RotatingWriter,
};

fn archive_config(max_size_mb: u64, max_files: usize) -> RotatingFileConfig {
    RotatingFileConfig {
        log_directory: "logs".to_string(),
        filename: "app.log".to_string(),
        max_files,
        max_size_mb,
        console_output: false,
        truncate_on_limit: false,
    }
}

#[test]
fn rotation_scenario_archive() {
    // max_size_mb = 1, max_files = 3, archive mode; 1.5 MB in 1 KB chunks.
    let config = archive_config(1, 3);
    let mut w = RotatingWriter::open_with_timestamp(config, "20240101_000000");
    let chunk = vec![b'x'; 1024];
    for _ in 0..1536 {
        let n = w.write(chunk.as_slice());
        assert_eq!(n, 1024);
    }
    // Exactly one rotation: one numbered backup.
    assert_eq!(w.backups.len(), 1);
    // Active file and the backup stay at or under the 1 MB limit.
    assert!(w.active.len() <= 1024 * 1024);
    assert!(w.backups[0].len() <= 1024 * 1024);
    // No byte of the 1.5 MB is lost.
    assert_eq!(w.active.len() + w.backups[0].len(), 1536 * 1024);
}

#[test]
fn truncate_mode_caps_size() {
    let mut config = archive_config(1, 3);
    config.truncate_on_limit = true;
    let mut w = RotatingWriter::open_with_timestamp(config, "20240101_000000");
    let chunk = vec![b'y'; 1024];
    for _ in 0..2000 {
        // Every write reports success, even after the limit is reached.
        let n = w.write(chunk.as_slice());
        assert_eq!(n, 1024);
        // The on-disk size never exceeds the configured limit.
        assert!(w.active.len() <= 1024 * 1024);
        assert_eq!(w.current_size as usize, w.active.len());
    }
    // Truncate mode never produces numbered backups.
    assert_eq!(w.backups.len(), 0);
    // 1023 full chunks fit strictly below the limit; the 1024th would reach it.
    assert_eq!(w.active.len(), 1023 * 1024);
}

#[test]
fn archive_chain_bounded() {
    let config = archive_config(1, 3);
    let mut w = RotatingWriter::open_with_timestamp(config, "20240101_000000");
    let big = vec![b'z'; 1024 * 1024];
    for _ in 0..5 {
        w.write(big.as_slice());
        // The numbered chain never exceeds max_files.
        assert!(w.backups.len() <= 3);
    }
    // With max_files = 3 at most two numbered backups are retained.
    assert_eq!(w.backups.len(), 2);
    // Backup .1 is always the most recently closed file (1 MB here).
    assert_eq!(w.backups[0].len(), 1024 * 1024);
}

#[test]
fn single_retained_file_still_gets_a_backup() {
    // Even with max_files = 1 a rotation leaves one .1 file, overwritten
    // at each further rotation.
    let config = archive_config(1, 1);
    let mut w = RotatingWriter::open_with_timestamp(config, "20240101_000000");
    let big = vec![b'r'; 1024 * 1024];
    for _ in 0..3 {
        w.write(big.as_slice());
        assert_eq!(w.backups.len(), 1);
    }
}

#[test]
fn latest_pointer_follows_rotation() {
    let config = archive_config(1, 3);
    let mut w = RotatingWriter::open_with_timestamp(config, "20240101_000000");
    assert_eq!(w.active_name, "app_20240101_000000.log");
    assert_eq!(w.latest_target, w.active_name);
    let big = vec![b'q'; 2 * 1024 * 1024];
    for _ in 0..4 {
        w.write(big.as_slice());
        // After any number of rotations the pointer resolves to the active file.
        assert_eq!(w.latest_target, w.active_name);
    }
}

#[test]
fn session_file_names() {
    assert_eq!(
        timestamped_filename("app.log", "20240101_121212"),
        "app_20240101_121212.log"
    );
    assert_eq!(timestamped_filename("noext", "20240101_121212"), "noext_20240101_121212.log");
    assert_eq!(latest_filename("app.log"), "app_latest.log");
    assert_eq!(latest_filename("server.log.log"), "server_latest.log");
}

#[test]
fn writer_stamps_new_sessions() {
    let config = archive_config(2, 4);
    let w = RotatingWriter::new(config);
    // The session file carries the base name and the .log suffix.
    assert!(w.active_name.starts_with("app_"));
    assert!(w.active_name.ends_with(".log"));
    assert_eq!(w.latest_target, w.active_name);
    assert_eq!(w.current_size, 0);
    assert!(w.backups.is_empty());
}

#[test]
fn sequential_line_writes_concatenate() {
    // Writers hand whole lines to one serialized writer: three writers of
    // four lines each, interleaved; the file holds all twelve lines whole.
    let config = archive_config(100, 3);
    let mut w = RotatingWriter::open_with_timestamp(config, "20240101_000000");
    let mut expected: Vec<u8> = Vec::new();
    for round in 0..4 {
        for writer in 0..3 {
            let line = format!("writer {} line {}\n", writer, round);
            let n = w.write(line.as_bytes());
            assert_eq!(n, line.len());
            expected.extend_from_slice(line.as_bytes());
        }
    }
    assert_eq!(w.active, expected);
}

#[test]
fn builder_collects_settings() {
    let b = RotatingFileLogger::init()
        .with_directory("elsewhere")
        .with_filename("svc.log")
        .with_max_files(7)
        .with_max_size_mb(3)
        .with_console(false)
        .with_truncate_on_limit(false);
    assert_eq!(b.config.log_directory, "elsewhere");
    assert_eq!(b.config.filename, "svc.log");
    assert_eq!(b.config.max_files, 7);
    assert_eq!(b.config.max_size_mb, 3);
    assert!(!b.config.console_output);
    assert!(!b.config.truncate_on_limit);
}

#[test]
fn builder_defaults() {
    let b = RotatingFileLogger::init();
    assert_eq!(b.config.log_directory, "logs");
    assert_eq!(b.config.filename, "app.log");
    assert_eq!(b.config.max_files, 10);
    assert_eq!(b.config.max_size_mb, 5);
    assert!(b.config.console_output);
    assert!(b.config.truncate_on_limit);
}
