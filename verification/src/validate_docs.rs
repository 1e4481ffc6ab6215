//! Documentation validation for Rust modules: counts the `//!` header block
//! of a file and holds complex modules to a minimum and every module to a
//! maximum.
//!
//! Reading files and walking directories is a caller's concern; classifying
//! a file's contents, applying the thresholds, and aggregating the report
//! happen here.

use vstd::prelude::*;
use vstd::string::StringExecFns;

use crate::text::{
    spec_dec, spec_ends_with, spec_lines, spec_starts_with, spec_trim, ends_with, split_lines,
    starts_with, trim_str, usize_to_string,
};

verus! {

/// Whether a pattern is a valid glob: what `glob::Pattern::new` accepts.
pub uninterp spec fn glob_pattern_valid(p: Seq<char>) -> bool;

/// Whether a path matches a glob pattern: what `glob::Pattern::matches`
/// returns for the compiled pattern.
pub uninterp spec fn glob_matches(p: Seq<char>, path: Seq<char>) -> bool;

/// Relies on glob::Pattern::new: whether a pattern compiles depends on the
/// pattern string alone.
#[verifier::external_body]
fn glob_compiles(pattern: &str) -> (r: bool)
    ensures
        r == glob_pattern_valid(pattern@),
{
    glob::Pattern::new(pattern).is_ok()
}

/// Relies on glob::Pattern::new and glob::Pattern::matches: for a pattern
/// that compiles, whether a path matches depends on the two strings alone.
#[verifier::external_body]
fn glob_match(pattern: &str, path: &str) -> (r: bool)
    requires
        glob_pattern_valid(pattern@),
    ensures
        r == glob_matches(pattern@, path@),
{
    match glob::Pattern::new(pattern) {
        Ok(p) => p.matches(path),
        Err(_) => false,
    }
}

/// Information about one validated file.
#[derive(Debug)]
pub struct FileInfo {
    pub path: String,
    pub doc_lines: usize,
    pub total_lines: usize,
    pub is_complex: bool,
}

/// One way a file can fall short of the documentation standards.
#[derive(Debug)]
pub enum ValidationIssue {
    NoDocs { total_lines: usize },
    InsufficientDocs { lines: usize, min: usize, total_lines: usize },
    ExcessiveDocs { lines: usize, max: usize },
}

/// The aggregated outcome of a validation run.
#[derive(Debug)]
pub struct ValidationReport {
    pub files_scanned: usize,
    pub warnings: usize,
    pub complex_files_passed: Vec<FileInfo>,
    pub simple_files_skipped: Vec<FileInfo>,
    pub file_issues: Vec<(FileInfo, Vec<ValidationIssue>)>,
}

impl Default for ValidationReport {
    /// An empty report.
    fn default() -> (r: Self)
        ensures
            r.files_scanned == 0,
            r.warnings == 0,
            r.complex_files_passed@.len() == 0,
            r.simple_files_skipped@.len() == 0,
            r.file_issues@.len() == 0,
    {
        ValidationReport {
            files_scanned: 0,
            warnings: 0,
            complex_files_passed: Vec::new(),
            simple_files_skipped: Vec::new(),
            file_issues: Vec::new(),
        }
    }
}

impl ValidationReport {
    /// Whether the run passed: warnings fail it only in strict mode.
    pub fn passed(&self, strict: bool) -> (r: bool)
        ensures
            r == (!strict || self.warnings == 0),
    {
        !strict || self.warnings == 0
    }
}

/// The documentation validator and its thresholds.
pub struct DocValidator {
    pub min_doc_lines_complex: usize,
    pub max_doc_lines: usize,
    pub complexity_threshold: usize,
    pub ignore_patterns: Vec<String>,
    pub verbose: bool,
    pub strict: bool,
}

/// A line counts as module documentation when it is a trimmed `//!` line.
pub open spec fn is_doc_line(l: Seq<char>) -> bool {
    spec_starts_with(spec_trim(l), "//!"@)
}

/// A line that neither counts nor ends the header block: blank, a
/// module-level attribute, or a plain comment.
pub open spec fn is_neutral_line(l: Seq<char>) -> bool {
    &&& !is_doc_line(l)
    &&& {
        ||| spec_trim(l).len() == 0
        ||| spec_starts_with(spec_trim(l), "#!["@)
        ||| spec_starts_with(spec_trim(l), "//"@)
    }
}

/// The number of `//!` lines in the header block: counting stops at the
/// first line that is neither documentation nor neutral.
pub open spec fn spec_doc_lines(ls: Seq<Seq<char>>) -> nat
    decreases ls.len(),
{
    if ls.len() == 0 {
        0
    } else if is_doc_line(ls[0]) {
        1 + spec_doc_lines(ls.skip(1))
    } else if is_neutral_line(ls[0]) {
        spec_doc_lines(ls.skip(1))
    } else {
        0
    }
}

impl DocValidator {
    /// Every ignore pattern is a valid glob.
    pub open spec fn wf(&self) -> bool {
        forall|i: int|
            0 <= i < self.ignore_patterns@.len() ==> glob_pattern_valid(
                self.ignore_patterns@[i]@,
            )
    }

    /// A validator with the default thresholds and no ignore patterns.
    pub fn new() -> (r: Self)
        ensures
            r.wf(),
            r.min_doc_lines_complex == 50,
            r.max_doc_lines == 200,
            r.complexity_threshold == 200,
            r.ignore_patterns@.len() == 0,
            r.verbose == false,
            r.strict == false,
    {
        DocValidator {
            min_doc_lines_complex: 50,
            max_doc_lines: 200,
            complexity_threshold: 200,
            ignore_patterns: Vec::new(),
            verbose: false,
            strict: false,
        }
    }

    /// Set the minimum documentation lines for complex modules.
    pub fn with_min_doc_lines(self, lines: usize) -> (r: Self)
        ensures
            r == (DocValidator { min_doc_lines_complex: lines, ..self }),
    {
        DocValidator { min_doc_lines_complex: lines, ..self }
    }

    /// Set the maximum documentation lines.
    pub fn with_max_doc_lines(self, lines: usize) -> (r: Self)
        ensures
            r == (DocValidator { max_doc_lines: lines, ..self }),
    {
        DocValidator { max_doc_lines: lines, ..self }
    }

    /// Set the complexity threshold.
    pub fn with_complexity_threshold(self, lines: usize) -> (r: Self)
        ensures
            r == (DocValidator { complexity_threshold: lines, ..self }),
    {
        DocValidator { complexity_threshold: lines, ..self }
    }

    /// Set verbose mode.
    pub fn with_verbose(self, verbose: bool) -> (r: Self)
        ensures
            r == (DocValidator { verbose, ..self }),
    {
        DocValidator { verbose, ..self }
    }

    /// Set strict mode.
    pub fn with_strict(self, strict: bool) -> (r: Self)
        ensures
            r == (DocValidator { strict, ..self }),
    {
        DocValidator { strict, ..self }
    }

    /// Set the ignore patterns, rejecting the first pattern that is not a
    /// valid glob.
    pub fn with_ignore_patterns(self, patterns: Vec<String>) -> (r: Result<Self, String>)
        ensures
            r is Ok <==> (forall|i: int|
                0 <= i < patterns@.len() ==> glob_pattern_valid(patterns@[i]@)),
            r matches Ok(v) ==> v == (DocValidator { ignore_patterns: patterns, ..self })
                && v.wf(),
    {
        let mut i: usize = 0;
        while i < patterns.len()
            invariant
                i <= patterns@.len(),
                forall|j: int| 0 <= j < i ==> glob_pattern_valid(patterns@[j]@),
            decreases patterns@.len() - i,
        {
            if !glob_compiles(patterns[i].as_str()) {
                let mut m = "Invalid glob pattern: ".to_owned();
                m.append(patterns[i].as_str());
                return Err(m);
            }
            i += 1;
        }
        Ok(DocValidator { ignore_patterns: patterns, ..self })
    }

    /// Which files the validator looks at: `.rs` files not matching any
    /// ignore pattern.
    pub open spec fn spec_should_process(&self, path: Seq<char>) -> bool {
        &&& spec_ends_with(path, ".rs"@)
        &&& !exists|i: int|
            0 <= i < self.ignore_patterns@.len() && glob_matches(
                self.ignore_patterns@[i]@,
                path,
            )
    }

    /// Should this file be processed?
    pub fn should_process_file(&self, path: &str) -> (r: bool)
        requires
            self.wf(),
        ensures
            r == self.spec_should_process(path@),
    {
        if !ends_with(path, ".rs") {
            return false;
        }
        let mut i: usize = 0;
        while i < self.ignore_patterns.len()
            invariant
                self.wf(),
                i <= self.ignore_patterns@.len(),
                forall|j: int|
                    0 <= j < i ==> !glob_matches(self.ignore_patterns@[j]@, path@),
            decreases self.ignore_patterns@.len() - i,
        {
            if glob_match(self.ignore_patterns[i].as_str(), path) {
                return false;
            }
            i += 1;
        }
        true
    }

    /// Count the `//!` documentation lines at the head of a file.
    pub fn count_module_doc_lines(&self, content: &str) -> (r: usize)
        ensures
            r == spec_doc_lines(spec_lines(content@)),
    {
        let lines = split_lines(content);
        let ghost lsv = lines@.map_values(|l: String| l@);
        let mut count: usize = 0;
        let mut i: usize = 0;
        proof {
            assert(lsv.skip(0) =~= lsv);
        }
        while i < lines.len()
            invariant
                lsv == lines@.map_values(|l: String| l@),
                lsv == spec_lines(content@),
                i <= lsv.len(),
                count <= i,
                count + spec_doc_lines(lsv.skip(i as int)) == spec_doc_lines(lsv),
            decreases lsv.len() - i,
        {
            proof {
                assert(lsv.skip(i as int)[0] == lsv[i as int]);
                assert(lsv.skip(i as int).skip(1) =~= lsv.skip(i + 1));
            }
            let trimmed = trim_str(lines[i].as_str());
            if starts_with(trimmed.as_str(), "//!") {
                count += 1;
            } else if trimmed.as_str().is_empty() {
            } else if starts_with(trimmed.as_str(), "#![") {
            } else if starts_with(trimmed.as_str(), "//") {
            } else {
                assert(spec_doc_lines(lsv.skip(i as int)) == 0);
                return count;
            }
            i += 1;
        }
        proof {
            assert(lsv.skip(lsv.len() as int) =~= Seq::<Seq<char>>::empty());
        }
        count
    }

    /// Is a module of this many lines complex?
    pub open spec fn spec_is_complex(&self, total: nat) -> bool {
        total > self.complexity_threshold
    }

    /// The issues a file with this documentation draws: complex modules must
    /// have documentation and enough of it, and every module must stay under
    /// the maximum.
    pub open spec fn spec_issues(&self, doc: nat, total: nat) -> Seq<ValidationIssue> {
        (if self.spec_is_complex(total) {
            if doc == 0 {
                seq![(ValidationIssue::NoDocs { total_lines: total as usize })]
            } else if doc < self.min_doc_lines_complex {
                seq![
                    (ValidationIssue::InsufficientDocs {
                        lines: doc as usize,
                        min: self.min_doc_lines_complex,
                        total_lines: total as usize,
                    }),
                ]
            } else {
                Seq::empty()
            }
        } else {
            Seq::empty()
        }) + if doc > self.max_doc_lines {
            seq![(ValidationIssue::ExcessiveDocs { lines: doc as usize, max: self.max_doc_lines })]
        } else {
            Seq::empty()
        }
    }

    /// Validate one file's contents and fold the outcome into the report:
    /// the file is counted as scanned; a file with issues goes to
    /// `file_issues` and raises `warnings` by their number; a clean complex
    /// file goes to `complex_files_passed`; a simple file goes to
    /// `simple_files_skipped`.
    pub fn validate_content(&self, path: &str, content: &str, report: &mut ValidationReport)
        requires
            old(report).files_scanned < usize::MAX,
            old(report).warnings + 2 <= usize::MAX,
        ensures
            ({
                let total = spec_lines(content@).len();
                let doc = spec_doc_lines(spec_lines(content@));
                let issues = self.spec_issues(doc, total);
                let complex = self.spec_is_complex(total);
                &&& final(report).files_scanned == old(report).files_scanned + 1
                &&& (issues.len() > 0 ==> {
                    &&& final(report).warnings == old(report).warnings + issues.len()
                    &&& final(report).file_issues@.len() == old(report).file_issues@.len() + 1
                    &&& final(report).file_issues@.drop_last() == old(report).file_issues@
                    &&& final(report).file_issues@.last().0.path@ == path@
                    &&& final(report).file_issues@.last().0.doc_lines == doc
                    &&& final(report).file_issues@.last().0.total_lines == total
                    &&& final(report).file_issues@.last().0.is_complex == complex
                    &&& final(report).file_issues@.last().1@ == issues
                    &&& final(report).complex_files_passed == old(report).complex_files_passed
                    &&& final(report).simple_files_skipped == old(report).simple_files_skipped
                })
                &&& (issues.len() == 0 && complex ==> {
                    &&& final(report).warnings == old(report).warnings
                    &&& final(report).file_issues == old(report).file_issues
                    &&& final(report).complex_files_passed@.len() == old(
                        report,
                    ).complex_files_passed@.len() + 1
                    &&& final(report).complex_files_passed@.drop_last() == old(
                        report,
                    ).complex_files_passed@
                    &&& final(report).complex_files_passed@.last().path@ == path@
                    &&& final(report).complex_files_passed@.last().doc_lines == doc
                    &&& final(report).complex_files_passed@.last().total_lines == total
                    &&& final(report).complex_files_passed@.last().is_complex == complex
                    &&& final(report).simple_files_skipped == old(report).simple_files_skipped
                })
                &&& (issues.len() == 0 && !complex ==> {
                    &&& final(report).warnings == old(report).warnings
                    &&& final(report).file_issues == old(report).file_issues
                    &&& final(report).complex_files_passed == old(report).complex_files_passed
                    &&& final(report).simple_files_skipped@.len() == old(
                        report,
                    ).simple_files_skipped@.len() + 1
                    &&& final(report).simple_files_skipped@.drop_last() == old(
                        report,
                    ).simple_files_skipped@
                    &&& final(report).simple_files_skipped@.last().path@ == path@
                    &&& final(report).simple_files_skipped@.last().doc_lines == doc
                    &&& final(report).simple_files_skipped@.last().total_lines == total
                    &&& final(report).simple_files_skipped@.last().is_complex == complex
                })
            }),
    {
        let lines = split_lines(content);
        let total_lines = lines.len();
        let doc_lines = self.count_module_doc_lines(content);
        report.files_scanned = report.files_scanned + 1;
        let is_complex = total_lines > self.complexity_threshold;
        let file_info = FileInfo {
            path: path.to_owned(),
            doc_lines,
            total_lines,
            is_complex,
        };
        let mut issues: Vec<ValidationIssue> = Vec::new();
        if is_complex {
            if doc_lines == 0 {
                issues.push(ValidationIssue::NoDocs { total_lines });
            } else if doc_lines < self.min_doc_lines_complex {
                issues.push(
                    ValidationIssue::InsufficientDocs {
                        lines: doc_lines,
                        min: self.min_doc_lines_complex,
                        total_lines,
                    },
                );
            }
        }
        if doc_lines > self.max_doc_lines {
            issues.push(ValidationIssue::ExcessiveDocs { lines: doc_lines, max: self.max_doc_lines });
        }
        proof {
            assert(issues@ =~= self.spec_issues(
                spec_doc_lines(spec_lines(content@)),
                spec_lines(content@).len(),
            ));
        }
        if issues.len() > 0 {
            report.warnings = report.warnings + issues.len();
            report.file_issues.push((file_info, issues));
        } else if is_complex {
            report.complex_files_passed.push(file_info);
        } else {
            report.simple_files_skipped.push(file_info);
        }
    }
}

/// The detail line for one passing complex module, verbose form.
pub open spec fn spec_passed_line_verbose(f: FileInfo) -> Seq<char> {
    "  "@ + f.path@ + " ("@ + spec_dec(f.total_lines as nat) + " lines, "@ + spec_dec(
        f.doc_lines as nat,
    ) + " doc lines)"@
}

/// The detail line for one passing complex module, plain form.
pub open spec fn spec_passed_line_plain(f: FileInfo) -> Seq<char> {
    "  "@ + f.path@
}

/// The detail line for one skipped simple module.
pub open spec fn spec_skipped_line(f: FileInfo) -> Seq<char> {
    "  "@ + f.path@ + " ("@ + spec_dec(f.total_lines as nat) + " lines)"@
}

/// The detail line for one issue of one file.
pub open spec fn spec_issue_line(path: Seq<char>, i: ValidationIssue) -> Seq<char> {
    match i {
        ValidationIssue::NoDocs { total_lines } => "  "@ + path + ": Complex module ("@
            + spec_dec(total_lines as nat) + " lines) has no documentation (use //! format)"@,
        ValidationIssue::InsufficientDocs { lines, min, total_lines } => "  "@ + path
            + ": Complex module ("@ + spec_dec(total_lines as nat)
            + " lines) has insufficient documentation ("@ + spec_dec(lines as nat)
            + " lines, minimum "@ + spec_dec(min as nat) + ")"@,
        ValidationIssue::ExcessiveDocs { lines, max } => "  "@ + path
            + ": Excessive documentation ("@ + spec_dec(lines as nat) + " lines, maximum "@
            + spec_dec(max as nat) + ")"@,
    }
}

/// The detail lines for the files with issues, in order.
pub open spec fn spec_issue_lines(es: Seq<(FileInfo, Vec<ValidationIssue>)>) -> Seq<Seq<char>>
    decreases es.len(),
{
    if es.len() == 0 {
        Seq::empty()
    } else {
        es[0].1@.map_values(|i: ValidationIssue| spec_issue_line(es[0].0.path@, i))
            + spec_issue_lines(es.skip(1))
    }
}

/// One more entry appends its issue lines.
pub proof fn lemma_issue_lines_push(
    es: Seq<(FileInfo, Vec<ValidationIssue>)>,
    e: (FileInfo, Vec<ValidationIssue>),
)
    ensures
        spec_issue_lines(es.push(e)) == spec_issue_lines(es) + e.1@.map_values(
            |i: ValidationIssue| spec_issue_line(e.0.path@, i),
        ),
    decreases es.len(),
{
    if es.len() == 0 {
        assert(es.push(e)[0] == e);
        assert(es.push(e).skip(1) =~= Seq::<(FileInfo, Vec<ValidationIssue>)>::empty());
        assert(spec_issue_lines(es.push(e).skip(1)) == Seq::<Seq<char>>::empty());
        assert(spec_issue_lines(es) == Seq::<Seq<char>>::empty());
        assert(es.push(e)[0].1@.map_values(
            |i: ValidationIssue| spec_issue_line(es.push(e)[0].0.path@, i),
        ) =~= e.1@.map_values(|i: ValidationIssue| spec_issue_line(e.0.path@, i)));
        assert(spec_issue_lines(es.push(e)) =~= spec_issue_lines(es) + e.1@.map_values(
            |i: ValidationIssue| spec_issue_line(e.0.path@, i),
        ));
    } else {
        lemma_issue_lines_push(es.skip(1), e);
        assert(es.push(e).skip(1) =~= es.skip(1).push(e));
        assert(es.push(e)[0] == es[0]);
        assert(es.push(e)[0].1@.map_values(
            |i: ValidationIssue| spec_issue_line(es.push(e)[0].0.path@, i),
        ) =~= es[0].1@.map_values(|i: ValidationIssue| spec_issue_line(es[0].0.path@, i)));
        assert(spec_issue_lines(es.push(e)) =~= spec_issue_lines(es) + e.1@.map_values(
            |i: ValidationIssue| spec_issue_line(e.0.path@, i),
        ));
    }
}

/// Render the detail lines of the passing complex modules.
fn passed_lines(files: &Vec<FileInfo>, verbose: bool) -> (r: Vec<String>)
    ensures
        verbose ==> r@.map_values(|l: String| l@) == files@.map_values(
            |f: FileInfo| spec_passed_line_verbose(f),
        ),
        !verbose ==> r@.map_values(|l: String| l@) == files@.map_values(
            |f: FileInfo| spec_passed_line_plain(f),
        ),
{
    let mut r: Vec<String> = Vec::new();
    let mut i: usize = 0;
    while i < files.len()
        invariant
            i <= files@.len(),
            verbose ==> r@.map_values(|l: String| l@) =~= files@.take(i as int).map_values(
                |f: FileInfo| spec_passed_line_verbose(f),
            ),
            !verbose ==> r@.map_values(|l: String| l@) =~= files@.take(i as int).map_values(
                |f: FileInfo| spec_passed_line_plain(f),
            ),
        decreases files@.len() - i,
    {
        let mut line = "  ".to_owned();
        line.append(files[i].path.as_str());
        if verbose {
            line.append(" (");
            line.append(usize_to_string(files[i].total_lines).as_str());
            line.append(" lines, ");
            line.append(usize_to_string(files[i].doc_lines).as_str());
            line.append(" doc lines)");
            assert(line@ == spec_passed_line_verbose(files@[i as int]));
        } else {
            assert(line@ == spec_passed_line_plain(files@[i as int]));
        }
        let ghost prev = r@;
        let ghost lx = line;
        r.push(line);
        proof {
            if verbose {
                prev.lemma_push_map_commute(|l: String| l@, lx);
                files@.lemma_map_take_succ(
                    |f: FileInfo| spec_passed_line_verbose(f),
                    i as int,
                );
                assert(r@.map_values(|l: String| l@) =~= files@.take(i + 1).map_values(
                    |f: FileInfo| spec_passed_line_verbose(f),
                ));
            } else {
                prev.lemma_push_map_commute(|l: String| l@, lx);
                files@.lemma_map_take_succ(|f: FileInfo| spec_passed_line_plain(f), i as int);
                assert(r@.map_values(|l: String| l@) =~= files@.take(i + 1).map_values(
                    |f: FileInfo| spec_passed_line_plain(f),
                ));
            }
        }
        i += 1;
    }
    proof {
        assert(files@.take(files@.len() as int) =~= files@);
    }
    r
}

/// Render the detail lines of the skipped simple modules.
fn skipped_lines(files: &Vec<FileInfo>) -> (r: Vec<String>)
    ensures
        r@.map_values(|l: String| l@) == files@.map_values(|f: FileInfo| spec_skipped_line(f)),
{
    let mut r: Vec<String> = Vec::new();
    let mut i: usize = 0;
    while i < files.len()
        invariant
            i <= files@.len(),
            r@.map_values(|l: String| l@) =~= files@.take(i as int).map_values(
                |f: FileInfo| spec_skipped_line(f),
            ),
        decreases files@.len() - i,
    {
        let mut line = "  ".to_owned();
        line.append(files[i].path.as_str());
        line.append(" (");
        line.append(usize_to_string(files[i].total_lines).as_str());
        line.append(" lines)");
        assert(line@ == spec_skipped_line(files@[i as int]));
        let ghost prev = r@;
        let ghost lx = line;
        r.push(line);
        proof {
            prev.lemma_push_map_commute(|l: String| l@, lx);
            files@.lemma_map_take_succ(|f: FileInfo| spec_skipped_line(f), i as int);
            assert(r@.map_values(|l: String| l@) =~= files@.take(i + 1).map_values(
                |f: FileInfo| spec_skipped_line(f),
            ));
        }
        i += 1;
    }
    proof {
        assert(files@.take(files@.len() as int) =~= files@);
    }
    r
}

/// Render one issue's detail line.
fn issue_line(path: &str, issue: &ValidationIssue) -> (r: String)
    ensures
        r@ == spec_issue_line(path@, *issue),
{
    let mut line = "  ".to_owned();
    line.append(path);
    match issue {
        ValidationIssue::NoDocs { total_lines } => {
            line.append(": Complex module (");
            line.append(usize_to_string(*total_lines).as_str());
            line.append(" lines) has no documentation (use //! format)");
        },
        ValidationIssue::InsufficientDocs { lines, min, total_lines } => {
            line.append(": Complex module (");
            line.append(usize_to_string(*total_lines).as_str());
            line.append(" lines) has insufficient documentation (");
            line.append(usize_to_string(*lines).as_str());
            line.append(" lines, minimum ");
            line.append(usize_to_string(*min).as_str());
            line.append(")");
        },
        ValidationIssue::ExcessiveDocs { lines, max } => {
            line.append(": Excessive documentation (");
            line.append(usize_to_string(*lines).as_str());
            line.append(" lines, maximum ");
            line.append(usize_to_string(*max).as_str());
            line.append(")");
        },
    }
    line
}

/// Render the detail lines of the files with issues.
fn issue_lines(entries: &Vec<(FileInfo, Vec<ValidationIssue>)>) -> (r: Vec<String>)
    ensures
        r@.map_values(|l: String| l@) == spec_issue_lines(entries@),
{
    let mut r: Vec<String> = Vec::new();
    let mut i: usize = 0;
    proof {
        assert(r@.map_values(|l: String| l@) =~= spec_issue_lines(entries@.take(0)));
    }
    while i < entries.len()
        invariant
            i <= entries@.len(),
            r@.map_values(|l: String| l@) == spec_issue_lines(entries@.take(i as int)),
        decreases entries@.len() - i,
    {
        let ghost before = r@.map_values(|l: String| l@);
        let issues = &entries[i].1;
        let mut j: usize = 0;
        while j < issues.len()
            invariant
                i < entries@.len(),
                issues == &entries@[i as int].1,
                j <= issues@.len(),
                before == spec_issue_lines(entries@.take(i as int)),
                r@.map_values(|l: String| l@) =~= before + issues@.take(j as int).map_values(
                    |x: ValidationIssue| spec_issue_line(entries@[i as int].0.path@, x),
                ),
            decreases issues@.len() - j,
        {
            let line = issue_line(entries[i].0.path.as_str(), &issues[j]);
            let ghost prev = r@;
            let ghost lx = line;
            r.push(line);
            proof {
                prev.lemma_push_map_commute(|l: String| l@, lx);
                issues@.lemma_map_take_succ(
                    |x: ValidationIssue| spec_issue_line(entries@[i as int].0.path@, x),
                    j as int,
                );
                assert(r@.map_values(|l: String| l@) =~= before + issues@.take(
                    j + 1,
                ).map_values(
                    |x: ValidationIssue| spec_issue_line(entries@[i as int].0.path@, x),
                ));
            }
            j += 1;
        }
        proof {
            lemma_issue_lines_push(entries@.take(i as int), entries@[i as int]);
            assert(entries@.take(i as int).push(entries@[i as int]) =~= entries@.take(i + 1));
            assert(issues@.take(issues@.len() as int) =~= issues@);
            assert(r@.map_values(|l: String| l@) =~= spec_issue_lines(entries@.take(i + 1)));
        }
        i += 1;
    }
    proof {
        assert(entries@.take(entries@.len() as int) =~= entries@);
    }
    r
}

impl ValidationReport {
    /// The header of the quiet all-clear form.
    pub open spec fn spec_quiet_lines(&self) -> Seq<Seq<char>> {
        seq![
            "Validated "@ + spec_dec(self.files_scanned as nat) + " files: "@ + spec_dec(
                (self.complex_files_passed@.len() + self.file_issues@.len()) as nat,
            ) + " complex, "@ + spec_dec(self.simple_files_skipped@.len() as nat)
                + " simple (skipped)"@,
            "All complex modules have appropriate documentation!"@,
        ]
    }

    /// The lines of the full report form.
    pub open spec fn spec_detailed_lines(&self, verbose: bool) -> Seq<Seq<char>> {
        let complex_count = self.complex_files_passed@.len() + self.file_issues@.len();
        let simple_count = self.simple_files_skipped@.len();
        seq![
            ""@,
            "Documentation Validation Report"@,
            "==============================="@,
            spec_dec(self.files_scanned as nat) + " files scanned: "@ + spec_dec(
                complex_count as nat,
            ) + " complex (validated), "@ + spec_dec(simple_count as nat) + " simple (skipped)"@,
        ] + (if self.complex_files_passed@.len() > 0 && (verbose || self.warnings > 0) {
            seq![
                ""@,
                "Passed ("@ + spec_dec(self.complex_files_passed@.len() as nat)
                    + " complex modules):"@,
            ] + (if verbose {
                self.complex_files_passed@.map_values(|f: FileInfo| spec_passed_line_verbose(f))
            } else {
                self.complex_files_passed@.map_values(|f: FileInfo| spec_passed_line_plain(f))
            })
        } else {
            Seq::empty()
        }) + (if self.file_issues@.len() > 0 {
            seq![
                ""@,
                "Warnings ("@ + spec_dec(self.file_issues@.len() as nat) + " modules):"@,
            ] + spec_issue_lines(self.file_issues@)
        } else {
            Seq::empty()
        }) + (if verbose && self.simple_files_skipped@.len() > 0 {
            seq![
                ""@,
                "Skipped ("@ + spec_dec(self.simple_files_skipped@.len() as nat)
                    + " simple modules under 200 lines):"@,
            ] + self.simple_files_skipped@.map_values(|f: FileInfo| spec_skipped_line(f))
        } else {
            Seq::empty()
        }) + (if verbose || self.warnings > 0 {
            if self.warnings == 0 && complex_count > 0 {
                seq![""@, "All complex modules have appropriate documentation!"@]
            } else if self.warnings == 0 && complex_count == 0 {
                seq![""@, "No complex modules found requiring validation."@]
            } else {
                seq![""@, spec_dec(self.warnings as nat) + " warning(s) found."@]
            }
        } else {
            Seq::empty()
        })
    }

    /// The lines of the summary: the quiet two-line all-clear when not
    /// verbose and nothing warned, the full report otherwise.
    pub open spec fn spec_summary_lines(&self, verbose: bool) -> Seq<Seq<char>> {
        if !verbose && self.warnings == 0 {
            self.spec_quiet_lines()
        } else {
            self.spec_detailed_lines(verbose)
        }
    }

    /// Render the validation summary, one string per output line.
    #[verifier::rlimit(60)]
    pub fn summary_lines(&self, verbose: bool) -> (r: Vec<String>)
        requires
            self.complex_files_passed@.len() + self.file_issues@.len() < usize::MAX,
        ensures
            r@.map_values(|l: String| l@) == self.spec_summary_lines(verbose),
    {
        let complex_count = self.complex_files_passed.len() + self.file_issues.len();
        let simple_count = self.simple_files_skipped.len();
        let mut r: Vec<String> = Vec::new();
        if !verbose && self.warnings == 0 {
            let mut line = "Validated ".to_owned();
            line.append(usize_to_string(self.files_scanned).as_str());
            line.append(" files: ");
            line.append(usize_to_string(complex_count).as_str());
            line.append(" complex, ");
            line.append(usize_to_string(simple_count).as_str());
            line.append(" simple (skipped)");
            r.push(line);
            r.push("All complex modules have appropriate documentation!".to_owned());
            proof {
                assert(r@.map_values(|l: String| l@) =~= self.spec_quiet_lines());
            }
            return r;
        }
        r.push("".to_owned());
        r.push("Documentation Validation Report".to_owned());
        r.push("===============================".to_owned());
        let mut line = usize_to_string(self.files_scanned);
        line.append(" files scanned: ");
        line.append(usize_to_string(complex_count).as_str());
        line.append(" complex (validated), ");
        line.append(usize_to_string(simple_count).as_str());
        line.append(" simple (skipped)");
        r.push(line);
        let ghost s0 = seq![
            ""@,
            "Documentation Validation Report"@,
            "==============================="@,
            spec_dec(self.files_scanned as nat) + " files scanned: "@ + spec_dec(
                (self.complex_files_passed@.len() + self.file_issues@.len()) as nat,
            ) + " complex (validated), "@ + spec_dec(self.simple_files_skipped@.len() as nat)
                + " simple (skipped)"@,
        ];
        proof {
            assert(r@.map_values(|l: String| l@) =~= s0);
        }
        let ghost s1 = s0 + (if self.complex_files_passed@.len() > 0 && (verbose
            || self.warnings > 0) {
            seq![
                ""@,
                "Passed ("@ + spec_dec(self.complex_files_passed@.len() as nat)
                    + " complex modules):"@,
            ] + (if verbose {
                self.complex_files_passed@.map_values(
                    |f: FileInfo| spec_passed_line_verbose(f),
                )
            } else {
                self.complex_files_passed@.map_values(|f: FileInfo| spec_passed_line_plain(f))
            })
        } else {
            Seq::empty()
        });
        if self.complex_files_passed.len() > 0 && (verbose || self.warnings > 0) {
            r.push("".to_owned());
            let mut h = "Passed (".to_owned();
            h.append(usize_to_string(self.complex_files_passed.len()).as_str());
            h.append(" complex modules):");
            r.push(h);
            let mut section = passed_lines(&self.complex_files_passed, verbose);
            r.append(&mut section);
        }
        proof {
            assert(r@.map_values(|l: String| l@) =~= s1);
        }
        let ghost s2 = s1 + (if self.file_issues@.len() > 0 {
            seq![
                ""@,
                "Warnings ("@ + spec_dec(self.file_issues@.len() as nat) + " modules):"@,
            ] + spec_issue_lines(self.file_issues@)
        } else {
            Seq::empty()
        });
        if self.file_issues.len() > 0 {
            r.push("".to_owned());
            let mut h = "Warnings (".to_owned();
            h.append(usize_to_string(self.file_issues.len()).as_str());
            h.append(" modules):");
            r.push(h);
            let mut section = issue_lines(&self.file_issues);
            r.append(&mut section);
        }
        proof {
            assert(r@.map_values(|l: String| l@) =~= s2);
        }
        let ghost s3 = s2 + (if verbose && self.simple_files_skipped@.len() > 0 {
            seq![
                ""@,
                "Skipped ("@ + spec_dec(self.simple_files_skipped@.len() as nat)
                    + " simple modules under 200 lines):"@,
            ] + self.simple_files_skipped@.map_values(|f: FileInfo| spec_skipped_line(f))
        } else {
            Seq::empty()
        });
        if verbose && self.simple_files_skipped.len() > 0 {
            r.push("".to_owned());
            let mut h = "Skipped (".to_owned();
            h.append(usize_to_string(self.simple_files_skipped.len()).as_str());
            h.append(" simple modules under 200 lines):");
            r.push(h);
            let mut section = skipped_lines(&self.simple_files_skipped);
            r.append(&mut section);
        }
        proof {
            assert(r@.map_values(|l: String| l@) =~= s3);
        }
        let ghost s4 = s3 + (if verbose || self.warnings > 0 {
            if self.warnings == 0 && self.complex_files_passed@.len() + self.file_issues@.len()
                > 0 {
                seq![""@, "All complex modules have appropriate documentation!"@]
            } else if self.warnings == 0 && self.complex_files_passed@.len()
                + self.file_issues@.len() == 0 {
                seq![""@, "No complex modules found requiring validation."@]
            } else {
                seq![""@, spec_dec(self.warnings as nat) + " warning(s) found."@]
            }
        } else {
            Seq::empty()
        });
        if verbose || self.warnings > 0 {
            if self.warnings == 0 && complex_count > 0 {
                r.push("".to_owned());
                r.push("All complex modules have appropriate documentation!".to_owned());
            } else if self.warnings == 0 && complex_count == 0 {
                r.push("".to_owned());
                r.push("No complex modules found requiring validation.".to_owned());
            } else {
                r.push("".to_owned());
                let mut w = usize_to_string(self.warnings);
                w.append(" warning(s) found.");
                r.push(w);
            }
        }
        proof {
            assert(r@.map_values(|l: String| l@) =~= s4);
            assert(s4 == self.spec_detailed_lines(verbose));
        }
        r
    }
}

} // verus!
