//! Removal of standalone `debug!` statements from Rust source text.
//!
//! A line holding nothing but a `debug!` call is removed; a `debug!` inside
//! a comment, or sharing its line with other code, is kept and reported as a
//! warning. Reading and writing files is a caller's concern; the line
//! classification and the report aggregation happen here.

use vstd::prelude::*;
use vstd::string::StringExecFns;

use crate::text::{
    spec_contains, spec_dec, spec_join_nl, spec_lines, spec_starts_with, spec_trim, contains_str,
    join_lines, split_lines, starts_with, trim_str, usize_to_string,
};

verus! {

/// Whether a pattern is a regular expression that `regex::Regex::new`
/// accepts.
pub uninterp spec fn regex_valid(p: Seq<char>) -> bool;

/// Whether a text matches a regular expression somewhere: what
/// `regex::Regex::is_match` returns for the compiled pattern.
pub uninterp spec fn regex_matches(p: Seq<char>, text: Seq<char>) -> bool;

/// Relies on regex::Regex::new: whether a pattern compiles depends on the
/// pattern string alone.
#[verifier::external_body]
fn regex_compiles(pattern: &str) -> (r: bool)
    ensures
        r == regex_valid(pattern@),
{
    regex::Regex::new(pattern).is_ok()
}

/// Relies on regex::Regex::new and regex::Regex::is_match: for a pattern
/// that compiles, whether a text matches depends on the two strings alone.
#[verifier::external_body]
fn regex_is_match(pattern: &str, text: &str) -> (r: bool)
    requires
        regex_valid(pattern@),
    ensures
        r == regex_matches(pattern@, text@),
{
    match regex::Regex::new(pattern) {
        Ok(re) => re.is_match(text),
        Err(_) => false,
    }
}

/// The pattern for a line that holds only a `debug!` statement: optional
/// indentation, the call, its semicolon, and at most a trailing line
/// comment.
pub open spec fn spec_simple_pattern() -> Seq<char> {
    r"^\s*debug!\s*\([^;]*\)\s*;\s*(?://.*)?$"@
}

/// The pattern for a `debug!` call anywhere in a line.
pub open spec fn spec_any_pattern() -> Seq<char> {
    r"debug!\s*\("@
}

fn simple_debug_pattern() -> (r: &'static str)
    ensures
        r@ == spec_simple_pattern(),
{
    r"^\s*debug!\s*\([^;]*\)\s*;\s*(?://.*)?$"
}

fn any_debug_pattern() -> (r: &'static str)
    ensures
        r@ == spec_any_pattern(),
{
    r"debug!\s*\("
}

/// A line whose trimmed form starts a line comment.
pub open spec fn is_line_comment(l: Seq<char>) -> bool {
    spec_starts_with(spec_trim(l), "//"@)
}

/// The block-comment state while a line is examined: set as soon as the line
/// opens a block comment.
pub open spec fn during_state(inb: bool, l: Seq<char>) -> bool {
    inb || spec_contains(l, "/*"@)
}

/// The block-comment state after a line: cleared when the line closes a
/// block comment.
pub open spec fn after_state(inb: bool, l: Seq<char>) -> bool {
    if spec_contains(l, "*/"@) {
        false
    } else {
        during_state(inb, l)
    }
}

/// A line is removed when it is a standalone `debug!` statement outside any
/// comment.
pub open spec fn spec_removes(d: bool, l: Seq<char>) -> bool {
    &&& regex_matches(spec_any_pattern(), l)
    &&& regex_matches(spec_simple_pattern(), l)
    &&& !d
    &&& !is_line_comment(l)
}

/// A kept line draws the in-comment warning: it mentions `debug!` inside a
/// comment.
pub open spec fn spec_warns_comment(d: bool, l: Seq<char>) -> bool {
    regex_matches(spec_any_pattern(), l) && (d || is_line_comment(l))
}

/// A kept line draws the mixed-code warning: it mentions `debug!` beside
/// other code.
pub open spec fn spec_warns_mixed(d: bool, l: Seq<char>) -> bool {
    &&& regex_matches(spec_any_pattern(), l)
    &&& !(d || is_line_comment(l))
    &&& !regex_matches(spec_simple_pattern(), l)
}

/// The lines that survive the removal, in order.
pub open spec fn spec_kept(inb: bool, ls: Seq<Seq<char>>) -> Seq<Seq<char>>
    decreases ls.len(),
{
    if ls.len() == 0 {
        Seq::empty()
    } else {
        (if spec_removes(during_state(inb, ls[0]), ls[0]) {
            Seq::empty()
        } else {
            seq![ls[0]]
        }) + spec_kept(after_state(inb, ls[0]), ls.skip(1))
    }
}

/// How many lines the removal drops.
pub open spec fn spec_removed(inb: bool, ls: Seq<Seq<char>>) -> nat
    decreases ls.len(),
{
    if ls.len() == 0 {
        0
    } else {
        (if spec_removes(during_state(inb, ls[0]), ls[0]) {
            1nat
        } else {
            0nat
        }) + spec_removed(after_state(inb, ls[0]), ls.skip(1))
    }
}

/// The warnings the removal reports: line numbers (starting at `n`) paired
/// with their message.
pub open spec fn spec_warning_list(inb: bool, ls: Seq<Seq<char>>, n: int) -> Seq<(int, Seq<char>)>
    decreases ls.len(),
{
    if ls.len() == 0 {
        Seq::empty()
    } else {
        (if spec_warns_comment(during_state(inb, ls[0]), ls[0]) {
            seq![(n, "debug! found in comment - skipping"@)]
        } else if spec_warns_mixed(during_state(inb, ls[0]), ls[0]) {
            seq![(n, "debug! found with other code on same line - skipping"@)]
        } else {
            Seq::empty()
        }) + spec_warning_list(after_state(inb, ls[0]), ls.skip(1), n + 1)
    }
}

/// One warning: the line it points at and its message.
#[derive(Debug)]
pub struct Warning {
    pub line_number: usize,
    pub message: String,
}

/// What the removal found in one file.
#[derive(Debug)]
pub struct FileReport {
    pub lines_removed: usize,
    pub warnings: Vec<Warning>,
}

impl Default for FileReport {
    /// An empty per-file report.
    fn default() -> (r: Self)
        ensures
            r.lines_removed == 0,
            r.warnings@.len() == 0,
    {
        FileReport { lines_removed: 0, warnings: Vec::new() }
    }
}

/// The aggregated outcome of a removal run.
#[derive(Debug)]
pub struct RemovalReport {
    pub files_scanned: usize,
    pub files_modified: usize,
    pub total_lines_removed: usize,
    pub total_warnings: usize,
    pub file_reports: Vec<(String, FileReport)>,
}

impl Default for RemovalReport {
    /// An empty report.
    fn default() -> (r: Self)
        ensures
            r.files_scanned == 0,
            r.files_modified == 0,
            r.total_lines_removed == 0,
            r.total_warnings == 0,
            r.file_reports@.len() == 0,
    {
        RemovalReport {
            files_scanned: 0,
            files_modified: 0,
            total_lines_removed: 0,
            total_warnings: 0,
            file_reports: Vec::new(),
        }
    }
}

impl RemovalReport {
    /// Fold one file's outcome in: the file counts as scanned; only a file
    /// with removed lines counts as modified, carries its warnings into the
    /// totals, and keeps its per-file report.
    pub fn record_file(&mut self, path: &str, file_report: FileReport)
        requires
            old(self).files_scanned < usize::MAX,
            old(self).files_modified < usize::MAX,
            old(self).total_lines_removed + file_report.lines_removed <= usize::MAX,
            old(self).total_warnings + file_report.warnings@.len() <= usize::MAX,
        ensures
            final(self).files_scanned == old(self).files_scanned + 1,
            file_report.lines_removed > 0 ==> {
                &&& final(self).files_modified == old(self).files_modified + 1
                &&& final(self).total_lines_removed == old(self).total_lines_removed
                    + file_report.lines_removed
                &&& final(self).total_warnings == old(self).total_warnings
                    + file_report.warnings@.len()
                &&& final(self).file_reports@.len() == old(self).file_reports@.len() + 1
                &&& final(self).file_reports@.drop_last() == old(self).file_reports@
                &&& final(self).file_reports@.last().0@ == path@
                &&& final(self).file_reports@.last().1 == file_report
            },
            file_report.lines_removed == 0 ==> {
                &&& final(self).files_modified == old(self).files_modified
                &&& final(self).total_lines_removed == old(self).total_lines_removed
                &&& final(self).total_warnings == old(self).total_warnings
                &&& final(self).file_reports == old(self).file_reports
            },
    {
        if file_report.lines_removed > 0 {
            self.files_modified = self.files_modified + 1;
            self.total_lines_removed = self.total_lines_removed + file_report.lines_removed;
            self.total_warnings = self.total_warnings + file_report.warnings.len();
            self.file_reports.push((path.to_owned(), file_report));
        }
        self.files_scanned = self.files_scanned + 1;
    }

    /// The lines of the removal summary.
    pub open spec fn spec_summary_lines(&self, verbose: bool) -> Seq<Seq<char>> {
        if verbose {
            seq![
                "=== Debug Removal Summary ==="@,
                "Files scanned: "@ + spec_dec(self.files_scanned as nat),
                "Files modified: "@ + spec_dec(self.files_modified as nat),
                "Lines removed: "@ + spec_dec(self.total_lines_removed as nat),
            ] + (if self.total_warnings > 0 {
                seq!["Warnings: "@ + spec_dec(self.total_warnings as nat)]
            } else {
                Seq::empty()
            })
        } else {
            (if self.total_lines_removed > 0 {
                seq![
                    "Removed "@ + spec_dec(self.total_lines_removed as nat)
                        + " debug! calls from "@ + spec_dec(self.files_modified as nat)
                        + " files"@,
                ]
            } else {
                seq!["No debug! calls found"@]
            }) + (if self.total_warnings > 0 {
                seq![
                    "Skipped "@ + spec_dec(self.total_warnings as nat)
                        + " ambiguous cases (use --verbose for details)"@,
                ]
            } else {
                Seq::empty()
            })
        }
    }

    /// Render the removal summary, one string per output line.
    pub fn summary_lines(&self, verbose: bool) -> (r: Vec<String>)
        ensures
            r@.map_values(|l: String| l@) == self.spec_summary_lines(verbose),
    {
        let mut r: Vec<String> = Vec::new();
        if verbose {
            r.push("=== Debug Removal Summary ===".to_owned());
            let mut l1 = "Files scanned: ".to_owned();
            l1.append(usize_to_string(self.files_scanned).as_str());
            r.push(l1);
            let mut l2 = "Files modified: ".to_owned();
            l2.append(usize_to_string(self.files_modified).as_str());
            r.push(l2);
            let mut l3 = "Lines removed: ".to_owned();
            l3.append(usize_to_string(self.total_lines_removed).as_str());
            r.push(l3);
            if self.total_warnings > 0 {
                let mut l4 = "Warnings: ".to_owned();
                l4.append(usize_to_string(self.total_warnings).as_str());
                r.push(l4);
            }
        } else {
            if self.total_lines_removed > 0 {
                let mut l1 = "Removed ".to_owned();
                l1.append(usize_to_string(self.total_lines_removed).as_str());
                l1.append(" debug! calls from ");
                l1.append(usize_to_string(self.files_modified).as_str());
                l1.append(" files");
                r.push(l1);
            } else {
                r.push("No debug! calls found".to_owned());
            }
            if self.total_warnings > 0 {
                let mut l2 = "Skipped ".to_owned();
                l2.append(usize_to_string(self.total_warnings).as_str());
                l2.append(" ambiguous cases (use --verbose for details)");
                r.push(l2);
            }
        }
        proof {
            assert(r@.map_values(|l: String| l@) =~= self.spec_summary_lines(verbose));
        }
        r
    }
}

/// The debug-statement remover: where to look, and how loudly.
pub struct DebugRemover {
    /// Path searched for Rust files.
    pub path: String,
    /// Preview only: report without changing files.
    pub dry_run: bool,
    /// Verbose reporting.
    pub verbose: bool,
}

impl DebugRemover {
    /// A remover over the given path, quiet and live by default.
    pub fn new(path: String) -> (r: Self)
        ensures
            r.path@ == path@,
            r.dry_run == false,
            r.verbose == false,
    {
        DebugRemover { path, dry_run: false, verbose: false }
    }

    /// Set dry-run mode.
    pub fn with_dry_run(self, dry_run: bool) -> (r: Self)
        ensures
            r == (DebugRemover { dry_run, ..self }),
    {
        DebugRemover { dry_run, ..self }
    }

    /// Set verbose mode.
    pub fn with_verbose(self, verbose: bool) -> (r: Self)
        ensures
            r == (DebugRemover { verbose, ..self }),
    {
        DebugRemover { verbose, ..self }
    }

    /// Remove standalone `debug!` lines from one file's contents: returns
    /// the new contents and the per-file report. Should either pattern fail
    /// to compile, the contents come back unchanged with an empty report.
    pub fn remove_debug_from_content(&self, content: &str) -> (r: (String, FileReport))
        ensures
            regex_valid(spec_simple_pattern()) && regex_valid(spec_any_pattern()) ==> {
                &&& r.0@ == spec_join_nl(spec_kept(false, spec_lines(content@)))
                &&& r.1.lines_removed == spec_removed(false, spec_lines(content@))
                &&& r.1.warnings@.map_values(
                    |w: Warning| (w.line_number as int, w.message@),
                ) == spec_warning_list(false, spec_lines(content@), 1)
            },
            !(regex_valid(spec_simple_pattern()) && regex_valid(spec_any_pattern())) ==> {
                &&& r.0@ == content@
                &&& r.1.lines_removed == 0
                &&& r.1.warnings@.len() == 0
            },
    {
        if !regex_compiles(simple_debug_pattern()) || !regex_compiles(any_debug_pattern()) {
            return (content.to_owned(), FileReport { lines_removed: 0, warnings: Vec::new() });
        }
        let lines = split_lines(content);
        let ghost lsv = lines@.map_values(|l: String| l@);
        let mut kept: Vec<String> = Vec::new();
        let mut removed: usize = 0;
        let mut warnings: Vec<Warning> = Vec::new();
        let mut in_block = false;
        let mut i: usize = 0;
        proof {
            assert(lsv.skip(0) =~= lsv);
            assert(kept@.map_values(|l: String| l@) + spec_kept(false, lsv.skip(0)) =~= spec_kept(
                false,
                lsv,
            ));
            assert(warnings@.map_values(|w: Warning| (w.line_number as int, w.message@))
                + spec_warning_list(false, lsv.skip(0), 1) =~= spec_warning_list(false, lsv, 1));
        }
        while i < lines.len()
            invariant
                regex_valid(spec_simple_pattern()),
                regex_valid(spec_any_pattern()),
                lsv == lines@.map_values(|l: String| l@),
                lsv == spec_lines(content@),
                i <= lsv.len(),
                removed <= i,
                warnings@.len() <= i,
                spec_kept(false, lsv) == kept@.map_values(|l: String| l@) + spec_kept(
                    in_block,
                    lsv.skip(i as int),
                ),
                spec_removed(false, lsv) == removed + spec_removed(in_block, lsv.skip(i as int)),
                spec_warning_list(false, lsv, 1) == warnings@.map_values(
                    |w: Warning| (w.line_number as int, w.message@),
                ) + spec_warning_list(in_block, lsv.skip(i as int), i + 1),
            decreases lsv.len() - i,
        {
            let ghost rest = lsv.skip(i as int);
            let ghost h = lsv[i as int];
            let ghost old_in = in_block;
            proof {
                assert(rest[0] == h);
                assert(rest.skip(1) =~= lsv.skip(i + 1));
            }
            let during = in_block || contains_str(lines[i].as_str(), "/*");
            assert(during == during_state(old_in, h));
            let any = regex_is_match(any_debug_pattern(), lines[i].as_str());
            let ghost prev_kept = kept@;
            let ghost prev_warn = warnings@;
            if any {
                let simple = regex_is_match(simple_debug_pattern(), lines[i].as_str());
                let trimmed = trim_str(lines[i].as_str());
                let lc = starts_with(trimmed.as_str(), "//");
                assert(lc == is_line_comment(h));
                if simple && !during && !lc {
                    assert(spec_removes(during_state(old_in, h), h));
                    removed += 1;
                } else if during || lc {
                    assert(spec_warns_comment(during_state(old_in, h), h));
                    assert(!spec_removes(during_state(old_in, h), h));
                    let w = Warning {
                        line_number: i + 1,
                        message: "debug! found in comment - skipping".to_owned(),
                    };
                    let ghost wx = w;
                    warnings.push(w);
                    let k = lines[i].clone();
                    let ghost kx = k;
                    kept.push(k);
                    proof {
                        prev_warn.lemma_push_map_commute(
                            |w: Warning| (w.line_number as int, w.message@),
                            wx,
                        );
                        prev_kept.lemma_push_map_commute(|l: String| l@, kx);
                    }
                } else {
                    assert(spec_warns_mixed(during_state(old_in, h), h));
                    assert(!spec_removes(during_state(old_in, h), h));
                    assert(!spec_warns_comment(during_state(old_in, h), h));
                    let w = Warning {
                        line_number: i + 1,
                        message: "debug! found with other code on same line - skipping"
                            .to_owned(),
                    };
                    let ghost wx = w;
                    warnings.push(w);
                    let k = lines[i].clone();
                    let ghost kx = k;
                    kept.push(k);
                    proof {
                        prev_warn.lemma_push_map_commute(
                            |w: Warning| (w.line_number as int, w.message@),
                            wx,
                        );
                        prev_kept.lemma_push_map_commute(|l: String| l@, kx);
                    }
                }
            } else {
                assert(!spec_removes(during_state(old_in, h), h));
                assert(!spec_warns_comment(during_state(old_in, h), h));
                assert(!spec_warns_mixed(during_state(old_in, h), h));
                let k = lines[i].clone();
                let ghost kx = k;
                kept.push(k);
                proof {
                    prev_kept.lemma_push_map_commute(|l: String| l@, kx);
                }
            }
            in_block = during && !contains_str(lines[i].as_str(), "*/");
            proof {
                assert(in_block == after_state(old_in, h));
                assert(spec_kept(old_in, rest) == (if spec_removes(during_state(old_in, h), h) {
                    Seq::<Seq<char>>::empty()
                } else {
                    seq![h]
                }) + spec_kept(in_block, lsv.skip(i + 1)));
                assert(kept@.map_values(|l: String| l@) + spec_kept(in_block, lsv.skip(i + 1))
                    =~= prev_kept.map_values(|l: String| l@) + spec_kept(old_in, rest));
                assert(warnings@.map_values(|w: Warning| (w.line_number as int, w.message@))
                    + spec_warning_list(in_block, lsv.skip(i + 1), i + 2) =~= prev_warn.map_values(
                    |w: Warning| (w.line_number as int, w.message@),
                ) + spec_warning_list(old_in, rest, i + 1));
            }
            i += 1;
        }
        proof {
            assert(lsv.skip(lsv.len() as int) =~= Seq::<Seq<char>>::empty());
            assert(kept@.map_values(|l: String| l@) =~= spec_kept(false, lsv));
            assert(warnings@.map_values(|w: Warning| (w.line_number as int, w.message@))
                =~= spec_warning_list(false, lsv, 1));
        }
        let new_content = join_lines(&kept);
        (new_content, FileReport { lines_removed: removed, warnings })
    }
}

} // verus!
