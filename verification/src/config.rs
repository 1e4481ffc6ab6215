//! Configuration data for the logging pipeline and the surrounding tools.
//!
//! These types carry plain values only; reading them from a configuration
//! file is a caller's concern. Every default value is stated by a function
//! with an exact contract, so the defaults callers observe are pinned down.

use vstd::prelude::*;
use vstd::string::StringExecFns;

verus! {

/// Verbosity thresholds for the governor, one per low-urgency level.
#[derive(Debug, Clone)]
pub struct VerbosityConfig {
    /// Threshold applied when the configured level is INFO.
    pub info_threshold: usize,
    /// Threshold applied when the configured level is DEBUG.
    pub debug_threshold: usize,
    /// Threshold applied when the configured level is TRACE.
    pub trace_threshold: usize,
}

/// Configuration for the debug-statement removal tool.
#[derive(Debug, Clone)]
pub struct RemoveDebugConfig {
    /// Paths searched when the caller names none.
    pub default_paths: Vec<String>,
}

/// Configuration for the documentation validation tool.
#[derive(Debug, Clone)]
pub struct ValidateDocsConfig {
    /// Paths validated when the caller names none.
    pub default_paths: Vec<String>,
    /// Minimum documentation lines for complex modules.
    pub min_doc_lines_complex: usize,
    /// Maximum documentation lines for any module.
    pub max_doc_lines: usize,
    /// Line count above which a module counts as complex.
    pub complexity_threshold: usize,
    /// Glob patterns naming files to skip.
    pub ignore_patterns: Vec<String>,
}

/// Top-level configuration.
#[derive(Debug, Clone)]
pub struct Config {
    pub verbosity: VerbosityConfig,
    pub remove_debug: RemoveDebugConfig,
    pub validate_docs: ValidateDocsConfig,
}

/// Plain single-file logging configuration.
#[derive(Debug, Clone)]
pub struct FileLogConfig {
    /// Path of the log file.
    pub file_path: String,
    /// Whether the file is truncated on startup.
    pub truncate: bool,
}

/// Configuration of the rotating file writer.
#[derive(Debug, Clone)]
pub struct RotatingFileConfig {
    /// Directory that holds the log files.
    pub log_directory: String,
    /// Base filename for logs.
    pub filename: String,
    /// Maximum number of retained files.
    pub max_files: usize,
    /// Maximum file size in MB before the limit policy applies.
    pub max_size_mb: u64,
    /// Whether events are mirrored to the console.
    pub console_output: bool,
    /// Limit policy: stop persisting (true) or rotate into numbered
    /// backups (false).
    pub truncate_on_limit: bool,
}

/// Default threshold when the configured level is INFO.
pub fn default_info_threshold() -> (r: usize)
    ensures
        r == 50,
{
    50
}

/// Default threshold when the configured level is DEBUG.
pub fn default_debug_threshold() -> (r: usize)
    ensures
        r == 100,
{
    100
}

/// Default threshold when the configured level is TRACE.
pub fn default_trace_threshold() -> (r: usize)
    ensures
        r == 200,
{
    200
}

/// Default startup truncation for plain file logging.
pub fn default_truncate() -> (r: bool)
    ensures
        r == true,
{
    true
}

/// Default log directory.
pub fn default_log_directory() -> (r: String)
    ensures
        r@ == "logs"@,
{
    "logs".to_owned()
}

/// Default base filename for logs.
pub fn default_log_filename() -> (r: String)
    ensures
        r@ == "app.log"@,
{
    "app.log".to_owned()
}

/// Default count of retained files.
pub fn default_max_files() -> (r: usize)
    ensures
        r == 10,
{
    10
}

/// Default size limit in MB.
pub fn default_max_size_mb() -> (r: u64)
    ensures
        r == 5,
{
    5
}

/// Console mirroring is on by default.
pub fn default_console_output() -> (r: bool)
    ensures
        r == true,
{
    true
}

/// The limit policy defaults to truncate.
pub fn default_truncate_on_limit() -> (r: bool)
    ensures
        r == true,
{
    true
}

/// Default search paths for debug-statement removal.
pub fn default_remove_debug_paths() -> (r: Vec<String>)
    ensures
        r@.len() == 2,
        r@[0]@ == "src"@,
        r@[1]@ == "tests"@,
{
    let mut v: Vec<String> = Vec::new();
    v.push("src".to_owned());
    v.push("tests".to_owned());
    v
}

/// Default paths for documentation validation.
pub fn default_validate_docs_paths() -> (r: Vec<String>)
    ensures
        r@.len() == 1,
        r@[0]@ == "src"@,
{
    let mut v: Vec<String> = Vec::new();
    v.push("src".to_owned());
    v
}

/// Default minimum documentation lines for complex modules.
pub fn default_min_doc_lines_complex() -> (r: usize)
    ensures
        r == 50,
{
    50
}

/// Default maximum documentation lines.
pub fn default_max_doc_lines() -> (r: usize)
    ensures
        r == 200,
{
    200
}

/// Default complexity threshold in lines.
pub fn default_complexity_threshold() -> (r: usize)
    ensures
        r == 200,
{
    200
}

/// Default glob patterns naming files that validation skips.
pub fn default_ignore_patterns() -> (r: Vec<String>)
    ensures
        r@.len() == 2,
        r@[0]@ == "**/tests/**"@,
        r@[1]@ == "**/examples/**"@,
{
    let mut v: Vec<String> = Vec::new();
    v.push("**/tests/**".to_owned());
    v.push("**/examples/**".to_owned());
    v
}

/// The default verbosity thresholds.
pub open spec fn verbosity_defaults(c: VerbosityConfig) -> bool {
    c.info_threshold == 50 && c.debug_threshold == 100 && c.trace_threshold == 200
}

impl Default for VerbosityConfig {
    fn default() -> (r: Self)
        ensures
            verbosity_defaults(r),
    {
        VerbosityConfig {
            info_threshold: default_info_threshold(),
            debug_threshold: default_debug_threshold(),
            trace_threshold: default_trace_threshold(),
        }
    }
}

impl Default for RemoveDebugConfig {
    fn default() -> (r: Self)
        ensures
            r.default_paths@.len() == 2,
            r.default_paths@[0]@ == "src"@,
            r.default_paths@[1]@ == "tests"@,
    {
        RemoveDebugConfig { default_paths: default_remove_debug_paths() }
    }
}

impl Default for ValidateDocsConfig {
    fn default() -> (r: Self)
        ensures
            r.default_paths@.len() == 1,
            r.min_doc_lines_complex == 50,
            r.max_doc_lines == 200,
            r.complexity_threshold == 200,
            r.ignore_patterns@.len() == 2,
    {
        ValidateDocsConfig {
            default_paths: default_validate_docs_paths(),
            min_doc_lines_complex: default_min_doc_lines_complex(),
            max_doc_lines: default_max_doc_lines(),
            complexity_threshold: default_complexity_threshold(),
            ignore_patterns: default_ignore_patterns(),
        }
    }
}

impl Default for Config {
    fn default() -> (r: Self)
        ensures
            verbosity_defaults(r.verbosity),
            r.validate_docs.complexity_threshold == 200,
    {
        Config {
            verbosity: VerbosityConfig::default(),
            remove_debug: RemoveDebugConfig::default(),
            validate_docs: ValidateDocsConfig::default(),
        }
    }
}

impl Default for FileLogConfig {
    fn default() -> (r: Self)
        ensures
            r.file_path@ == "logs/app.log"@,
            r.truncate == true,
    {
        FileLogConfig { file_path: "logs/app.log".to_owned(), truncate: default_truncate() }
    }
}

impl Default for RotatingFileConfig {
    fn default() -> (r: Self)
        ensures
            r.log_directory@ == "logs"@,
            r.filename@ == "app.log"@,
            r.max_files == 10,
            r.max_size_mb == 5,
            r.console_output == true,
            r.truncate_on_limit == true,
    {
        RotatingFileConfig {
            log_directory: default_log_directory(),
            filename: default_log_filename(),
            max_files: default_max_files(),
            max_size_mb: default_max_size_mb(),
            console_output: default_console_output(),
            truncate_on_limit: default_truncate_on_limit(),
        }
    }
}

} // verus!
