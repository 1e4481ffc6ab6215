use autodebugger::ci::{
    CheckResults, CheckRunner, CheckStatus, ConflictPrediction, ConflictSeverity, CI,
    MergeRecommendation,
};
use autodebugger::monitor::{
    build_worktree_status, extract_task_from_content, parse_porcelain, summarize_porcelain,
    DiffTracker, MonitorStatus, WorktreeStatus,
};
use autodebugger::remove_debug::{DebugRemover, FileReport, RemovalReport};
use autodebugger::validate_docs::ValidationIssue;
use autodebugger::validate_docs::{DocValidator, ValidationReport};

#[test]
fn remove_debug_classifies_lines() {
    let remover = DebugRemover::new("src".to_string());
    let content = "fn main() {\n    debug!(\"x\");\n    let a = 1; debug!(\"y\");\n    // debug!(\"z\");\n}\n";
    let (new_content, report) = remover.remove_debug_from_content(content);
    assert_eq!(report.lines_removed, 1);
    assert_eq!(report.warnings.len(), 2);
    assert_eq!(report.warnings[0].line_number, 3);
    assert_eq!(
        report.warnings[0].message,
        "debug! found with other code on same line - skipping"
    );
    assert_eq!(report.warnings[1].line_number, 4);
    assert_eq!(report.warnings[1].message, "debug! found in comment - skipping");
    assert_eq!(
        new_content,
        "fn main() {\n    let a = 1; debug!(\"y\");\n    // debug!(\"z\");\n}"
    );
}

#[test]
fn remove_debug_respects_block_comments() {
    let remover = DebugRemover::new("src".to_string());
    let content = "/*\n    debug!(\"a\");\n*/\n    debug!(\"b\");\n";
    let (new_content, report) = remover.remove_debug_from_content(content);
    // The call inside the block comment is kept with a warning; the one
    // after it is removed.
    assert_eq!(report.lines_removed, 1);
    assert_eq!(report.warnings.len(), 1);
    assert_eq!(report.warnings[0].line_number, 2);
    assert_eq!(report.warnings[0].message, "debug! found in comment - skipping");
    assert_eq!(new_content, "/*\n    debug!(\"a\");\n*/");
}

#[test]
fn removal_report_aggregates_files() {
    let remover = DebugRemover::new("src".to_string());
    let mut total = RemovalReport::default();
    let (_, clean) = remover.remove_debug_from_content("fn f() {}\n");
    total.record_file("a.rs", clean);
    let (_, dirty) = remover.remove_debug_from_content("debug!(\"x\");\n// debug!(\"y\");\n");
    total.record_file("b.rs", dirty);
    assert_eq!(total.files_scanned, 2);
    assert_eq!(total.files_modified, 1);
    assert_eq!(total.total_lines_removed, 1);
    assert_eq!(total.total_warnings, 1);
    assert_eq!(total.file_reports.len(), 1);
    assert_eq!(total.file_reports[0].0, "b.rs");

    let quiet = total.summary_lines(false);
    assert_eq!(
        quiet,
        vec![
            "Removed 1 debug! calls from 1 files".to_string(),
            "Skipped 1 ambiguous cases (use --verbose for details)".to_string(),
        ]
    );
    let verbose = total.summary_lines(true);
    assert_eq!(
        verbose,
        vec![
            "=== Debug Removal Summary ===".to_string(),
            "Files scanned: 2".to_string(),
            "Files modified: 1".to_string(),
            "Lines removed: 1".to_string(),
            "Warnings: 1".to_string(),
        ]
    );
}

#[test]
fn removal_summary_when_clean() {
    let report = RemovalReport::default();
    assert_eq!(report.summary_lines(false), vec!["No debug! calls found".to_string()]);
}

#[test]
fn doc_lines_counted_at_file_head() {
    let v = DocValidator::new();
    let content = "//! a\n//! b\n\n// plain comment\n#![allow(dead_code)]\n//! c\nuse x;\n//! d\n";
    // Three header lines count; the one after the first code line does not.
    assert_eq!(v.count_module_doc_lines(content), 3);
    assert_eq!(v.count_module_doc_lines(""), 0);
    assert_eq!(v.count_module_doc_lines("fn main() {}\n"), 0);
}

#[test]
fn validate_content_routes_files() {
    let v = DocValidator::new().with_complexity_threshold(2).with_min_doc_lines(2);
    let mut report = ValidationReport::default();

    // Simple file: skipped.
    v.validate_content("simple.rs", "fn a() {}\n", &mut report);
    // Complex file with no docs: an issue.
    v.validate_content("bare.rs", "fn a() {}\nfn b() {}\nfn c() {}\n", &mut report);
    // Complex file with enough docs: passes.
    v.validate_content("good.rs", "//! one\n//! two\nfn a() {}\nfn b() {}\n", &mut report);

    assert_eq!(report.files_scanned, 3);
    assert_eq!(report.warnings, 1);
    assert_eq!(report.simple_files_skipped.len(), 1);
    assert_eq!(report.simple_files_skipped[0].path, "simple.rs");
    assert_eq!(report.file_issues.len(), 1);
    assert_eq!(report.file_issues[0].0.path, "bare.rs");
    assert_eq!(report.complex_files_passed.len(), 1);
    assert_eq!(report.complex_files_passed[0].path, "good.rs");
    assert_eq!(report.complex_files_passed[0].doc_lines, 2);

    assert!(report.passed(false));
    assert!(!report.passed(true));
}

#[test]
fn validation_summary_quiet_and_detailed() {
    let v = DocValidator::new().with_complexity_threshold(1).with_min_doc_lines(1);
    let mut report = ValidationReport::default();
    v.validate_content("ok.rs", "//! doc\nfn a() {}\nfn b() {}\n", &mut report);
    let quiet = report.summary_lines(false);
    assert_eq!(
        quiet,
        vec![
            "Validated 1 files: 1 complex, 0 simple (skipped)".to_string(),
            "All complex modules have appropriate documentation!".to_string(),
        ]
    );

    let mut report2 = ValidationReport::default();
    v.validate_content("bad.rs", "fn a() {}\nfn b() {}\n", &mut report2);
    let lines = report2.summary_lines(false);
    assert_eq!(lines[0], "");
    assert_eq!(lines[1], "Documentation Validation Report");
    assert_eq!(lines[2], "===============================");
    assert_eq!(lines[3], "1 files scanned: 1 complex (validated), 0 simple (skipped)");
    assert!(lines.contains(&"Warnings (1 modules):".to_string()));
    assert!(lines.contains(
        &"  bad.rs: Complex module (2 lines) has no documentation (use //! format)".to_string()
    ));
    assert!(lines.contains(&"1 warning(s) found.".to_string()));
}

#[test]
fn insufficient_and_excessive_docs_are_issues() {
    // Complex module with one doc line below a minimum of two.
    let v = DocValidator::new().with_complexity_threshold(2).with_min_doc_lines(2);
    let mut report = ValidationReport::default();
    v.validate_content("thin.rs", "//! only\nfn a() {}\nfn b() {}\nfn c() {}\n", &mut report);
    assert_eq!(report.warnings, 1);
    match &report.file_issues[0].1[0] {
        ValidationIssue::InsufficientDocs { lines, min, total_lines } => {
            assert_eq!(*lines, 1);
            assert_eq!(*min, 2);
            assert_eq!(*total_lines, 4);
        }
        other => panic!("expected insufficient docs, got {:?}", other),
    }

    // Any module with more doc lines than the maximum.
    let v2 = DocValidator::new().with_max_doc_lines(1);
    let mut report2 = ValidationReport::default();
    v2.validate_content("wordy.rs", "//! a\n//! b\nfn a() {}\n", &mut report2);
    assert_eq!(report2.warnings, 1);
    match &report2.file_issues[0].1[0] {
        ValidationIssue::ExcessiveDocs { lines, max } => {
            assert_eq!(*lines, 2);
            assert_eq!(*max, 1);
        }
        other => panic!("expected excessive docs, got {:?}", other),
    }
}

#[test]
fn ignore_patterns_filter_files() {
    let v = DocValidator::new()
        .with_ignore_patterns(vec!["**/tests/**".to_string(), "**/examples/**".to_string()])
        .expect("valid patterns");
    assert!(v.should_process_file("src/lib.rs"));
    assert!(!v.should_process_file("crates/x/tests/it.rs"));
    assert!(!v.should_process_file("demo/examples/run.rs"));
    assert!(!v.should_process_file("README.md"));
}

#[test]
fn invalid_glob_pattern_is_rejected() {
    let r = DocValidator::new().with_ignore_patterns(vec!["a[".to_string()]);
    match r {
        Err(m) => assert_eq!(m, "Invalid glob pattern: a["),
        Ok(_) => panic!("an unclosed character class must be rejected"),
    }
}

#[test]
fn porcelain_parsing_sorts_files() {
    let text = "A  f1\n M f2\nD  f3\n?? f4\nXY f5\nab\n";
    let (added, modified, deleted) = parse_porcelain(text);
    assert_eq!(added, vec!["f1".to_string(), "f4".to_string()]);
    assert_eq!(modified, vec!["f2".to_string()]);
    assert_eq!(deleted, vec!["f3".to_string()]);
    assert_eq!(
        summarize_porcelain(text),
        "Added: f1, f4\nModified: f2\nDeleted: f3"
    );
    assert_eq!(summarize_porcelain(""), "No changes");
}

#[test]
fn diff_report_sections() {
    let t = DiffTracker::new();
    assert_eq!(
        t.compose_diff_report("wt1", "", ""),
        "# Diff for worktree: wt1\n\nNo changes detected.\n"
    );
    assert_eq!(
        t.compose_diff_report("wt1", "+staged", ""),
        "# Diff for worktree: wt1\n\n## Staged Changes\n\n+staged\n\n"
    );
    assert_eq!(
        t.compose_diff_report("wt1", "+s", "+u"),
        "# Diff for worktree: wt1\n\n## Staged Changes\n\n+s\n\n## Unstaged Changes\n\n+u\n\n"
    );
}

#[test]
fn task_extraction_from_notes() {
    let notes = "# Notes\n## Specific Tasks\nsome text\n1. Fix the build\n2. Other\n";
    assert_eq!(extract_task_from_content(notes), Some("Fix the build".to_string()));
    let ended = "## Specific Tasks\n## Next Section\n1. Too late\n";
    assert_eq!(extract_task_from_content(ended), None);
    assert_eq!(extract_task_from_content("no tasks here\n1. stray\n"), None);
}

#[test]
fn worktree_status_assembly() {
    let s = build_worktree_status(
        "wt1",
        "/tmp/wt1",
        "main",
        " M a.rs\n?? b.rs\n",
        Some("2 hours ago".to_string()),
        None,
    );
    assert_eq!(s.name, "wt1");
    assert_eq!(s.path, "/tmp/wt1");
    assert_eq!(s.branch, "main");
    assert_eq!(s.files_changed, 2);
    assert_eq!(s.status, "active");
    assert_eq!(s.last_change, Some("2 hours ago".to_string()));
    assert_eq!(s.current_task, None);

    let idle = build_worktree_status("wt2", "/tmp/wt2", "dev", "", None, None);
    assert_eq!(idle.files_changed, 0);
    assert_eq!(idle.status, "idle");
}

#[test]
fn monitor_status_keeps_names_unique() {
    let mut m = MonitorStatus::new("2024-01-01T00:00:00Z".to_string());
    let s1 = build_worktree_status("wt1", "/a", "main", "", None, None);
    let s2 = build_worktree_status("wt2", "/b", "dev", "x\n", None, None);
    m.insert_status("wt1", s1);
    m.insert_status("wt2", s2);
    assert_eq!(m.worktrees.len(), 2);
    // Re-inserting a name replaces its entry.
    let s1b = build_worktree_status("wt1", "/a", "main", "y\nz\n", None, None);
    m.insert_status("wt1", s1b);
    assert_eq!(m.worktrees.len(), 2);
    let entry: &(String, WorktreeStatus) = m
        .worktrees
        .iter()
        .find(|e| e.0 == "wt1")
        .expect("wt1 present");
    assert_eq!(entry.1.files_changed, 2);
}

#[test]
fn safety_score_deductions() {
    let ci = CI::new();
    let clean = CheckResults {
        cargo_check: CheckStatus::Pass,
        cargo_test: CheckStatus::Pass,
        cargo_clippy: CheckStatus::Pass,
        debug_macros: CheckStatus::Pass,
        todo_comments: CheckStatus::Pass,
        documentation: CheckStatus::Pass,
    };
    assert_eq!(ci.calculate_safety_score(&clean, &Vec::new()), 100);

    let mut failing = clean.clone();
    failing.cargo_check = CheckStatus::Fail("broken".to_string());
    let conflicts = vec![ConflictPrediction {
        file: "a.rs".to_string(),
        overlapping_lines: 12,
        severity: ConflictSeverity::High,
    }];
    // 100 - 30 (check) - 15 (high conflict) = 55.
    assert_eq!(ci.calculate_safety_score(&failing, &conflicts), 55);

    // The score saturates at zero.
    let many: Vec<ConflictPrediction> = (0..20)
        .map(|i| ConflictPrediction {
            file: format!("f{}.rs", i),
            overlapping_lines: 1,
            severity: ConflictSeverity::High,
        })
        .collect();
    assert_eq!(ci.calculate_safety_score(&clean, &many), 0);
}

#[test]
fn recommendation_tiers() {
    let ci = CI::new();
    assert!(matches!(
        ci.generate_recommendation(100, &Vec::new()),
        MergeRecommendation::Safe
    ));
    let one = vec![ConflictPrediction {
        file: "a.rs".to_string(),
        overlapping_lines: 3,
        severity: ConflictSeverity::Low,
    }];
    match ci.generate_recommendation(65, &one) {
        MergeRecommendation::Caution(m) => {
            assert_eq!(m, "Review 1 conflicts before merging")
        }
        other => panic!("expected caution, got {:?}", other),
    }
    match ci.generate_recommendation(30, &one) {
        MergeRecommendation::Danger(m) => {
            assert_eq!(m, "Multiple issues detected. Manual review required.")
        }
        other => panic!("expected danger, got {:?}", other),
    }
    // A high score with conflicts present is still only caution.
    match ci.generate_recommendation(90, &one) {
        MergeRecommendation::Caution(_) => {}
        other => panic!("expected caution, got {:?}", other),
    }
}

#[test]
fn stub_checks_pass() {
    let runner = CheckRunner::new();
    let results = runner.run_all_checks("/tmp/wt").expect("checks run");
    assert!(matches!(results.cargo_check, CheckStatus::Pass));
    assert!(matches!(results.documentation, CheckStatus::Pass));
    let ci = CI::new();
    let conflicts = ci.analyze_conflicts("/tmp/a", "/tmp/b").expect("analysis runs");
    assert!(conflicts.is_empty());
}

#[test]
fn file_report_defaults() {
    let fr = FileReport::default();
    assert_eq!(fr.lines_removed, 0);
    assert!(fr.warnings.is_empty());
}
