//! The verbosity governor and the event formatter.
//!
//! The governor observes every event that survives the active severity
//! filter, keeps one monotonically increasing counter per level, and warns
//! when the total volume passes the threshold selected by the configured
//! level; WARN and ERROR have no threshold, so high-severity logging never
//! draws a warning. The formatter renders one event to its output line.

use vstd::prelude::*;
use vstd::string::StringExecFns;

use crate::Level;
use crate::config::Config;
use crate::config::VerbosityConfig;
use crate::text::{spec_contains_ci, contains_ci, spec_dec, u32_to_string, usize_to_string};

verus! {

/// How many events of `events` carry the level `l`.
pub open spec fn spec_tally(events: Seq<Level>, l: Level) -> nat
    decreases events.len(),
{
    if events.len() == 0 {
        0
    } else {
        spec_tally(events.drop_last(), l) + if events.last() == l {
            1nat
        } else {
            0nat
        }
    }
}

/// Recording one more event raises exactly the tally of its level.
pub proof fn lemma_tally_push(events: Seq<Level>, l: Level, x: Level)
    ensures
        spec_tally(events.push(x), l) == spec_tally(events, l) + if x == l {
            1nat
        } else {
            0nat
        },
{
    assert(events.push(x).drop_last() =~= events);
    assert(events.push(x).last() == x);
}

/// A tally never exceeds the number of events.
pub proof fn lemma_tally_le_len(events: Seq<Level>, l: Level)
    ensures
        spec_tally(events, l) <= events.len(),
    decreases events.len(),
{
    if events.len() > 0 {
        lemma_tally_le_len(events.drop_last(), l);
    }
}

/// The five per-level tallies partition the events: they sum to the total
/// count, so no event is double-counted or dropped.
pub proof fn lemma_tally_partition(events: Seq<Level>)
    ensures
        spec_tally(events, Level::Error) + spec_tally(events, Level::Warn) + spec_tally(
            events,
            Level::Info,
        ) + spec_tally(events, Level::Debug) + spec_tally(events, Level::Trace) == events.len(),
    decreases events.len(),
{
    if events.len() > 0 {
        lemma_tally_partition(events.drop_last());
    }
}

/// The level that a filter directive selects: the most verbose level word
/// the directive mentions, compared ASCII-case-insensitively, with INFO as
/// the default when no level word occurs. This is a heuristic substring
/// match, not a parse of the full filter syntax; compound directives with
/// per-module overrides are matched on their first-found word.
pub open spec fn spec_level_from_filter(s: Seq<char>) -> Level {
    if spec_contains_ci(s, "trace"@) {
        Level::Trace
    } else if spec_contains_ci(s, "debug"@) {
        Level::Debug
    } else if spec_contains_ci(s, "info"@) {
        Level::Info
    } else if spec_contains_ci(s, "warn"@) {
        Level::Warn
    } else if spec_contains_ci(s, "error"@) {
        Level::Error
    } else {
        Level::Info
    }
}

/// Detect the configured level from a filter directive string.
pub fn level_from_filter(directive: &str) -> (l: Level)
    ensures
        l == spec_level_from_filter(directive@),
{
    if contains_ci(directive, "trace") {
        Level::Trace
    } else if contains_ci(directive, "debug") {
        Level::Debug
    } else if contains_ci(directive, "info") {
        Level::Info
    } else if contains_ci(directive, "warn") {
        Level::Warn
    } else if contains_ci(directive, "error") {
        Level::Error
    } else {
        Level::Info
    }
}

/// The threshold that applies at a configured level: the per-level entry for
/// TRACE, DEBUG and INFO, and none at all for WARN and ERROR.
pub open spec fn spec_threshold(vc: VerbosityConfig, l: Level) -> Option<usize> {
    match l {
        Level::Trace => Some(vc.trace_threshold),
        Level::Debug => Some(vc.debug_threshold),
        Level::Info => Some(vc.info_threshold),
        Level::Warn => None,
        Level::Error => None,
    }
}

/// The threshold table, keyed by the severity enum.
pub fn threshold_for(vc: &VerbosityConfig, l: Level) -> (r: Option<usize>)
    ensures
        r == spec_threshold(*vc, l),
{
    match l {
        Level::Trace => Some(vc.trace_threshold),
        Level::Debug => Some(vc.debug_threshold),
        Level::Info => Some(vc.info_threshold),
        Level::Warn => None,
        Level::Error => None,
    }
}

/// Counts of observed events, broken down by level.
#[derive(Clone, Copy, Debug, PartialEq, Eq, Structural)]
pub struct LogCounts {
    pub error: usize,
    pub warn: usize,
    pub info: usize,
    pub debug: usize,
    pub trace: usize,
}

/// What a verbosity warning reports: the total volume, the threshold it
/// passed, the configured level the threshold belongs to, and the per-level
/// breakdown.
#[derive(Clone, Copy, Debug, PartialEq, Eq, Structural)]
pub struct VerbosityWarning {
    pub total_count: usize,
    pub threshold: usize,
    pub configured_level: Level,
    pub counts: LogCounts,
}

/// The verbosity governor: one counter per level, the configured level whose
/// threshold applies, and the thresholds themselves. The ghost `history`
/// holds every event ever recorded; the invariant ties each counter to it.
pub struct VerbosityCheckLayer {
    pub error_count: usize,
    pub warn_count: usize,
    pub info_count: usize,
    pub debug_count: usize,
    pub trace_count: usize,
    pub configured_level: Level,
    pub config: Config,
    pub history: Ghost<Seq<Level>>,
}

impl VerbosityCheckLayer {
    /// The governor's invariant: every counter equals the tally of its level
    /// over the recorded history.
    pub open spec fn wf(&self) -> bool {
        &&& self.error_count == spec_tally(self.history@, Level::Error)
        &&& self.warn_count == spec_tally(self.history@, Level::Warn)
        &&& self.info_count == spec_tally(self.history@, Level::Info)
        &&& self.debug_count == spec_tally(self.history@, Level::Debug)
        &&& self.trace_count == spec_tally(self.history@, Level::Trace)
        &&& self.history@.len() <= usize::MAX
    }

    /// The total volume recorded so far.
    pub open spec fn total(&self) -> int {
        self.error_count + self.warn_count + self.info_count + self.debug_count
            + self.trace_count
    }

    /// A governor with the default configuration and the default configured
    /// level, INFO. Callers that read a configuration source or a filter
    /// directive use `with_config_and_level`.
    pub fn new() -> (g: Self)
        ensures
            g.wf(),
            g.history@ == Seq::<Level>::empty(),
            g.total() == 0,
            g.configured_level == Level::Info,
            crate::config::verbosity_defaults(g.config.verbosity),
    {
        Self::with_config(Config::default())
    }

    /// A governor with the given configuration; the configured level
    /// defaults to INFO, as when no filter directive is set.
    pub fn with_config(config: Config) -> (g: Self)
        ensures
            g.wf(),
            g.history@ == Seq::<Level>::empty(),
            g.total() == 0,
            g.configured_level == Level::Info,
            g.config == config,
    {
        Self::with_config_and_level(config, Level::Info)
    }

    /// A governor with the given configuration and a configured level that
    /// the caller detected (see `level_from_filter`).
    pub fn with_config_and_level(config: Config, level: Level) -> (g: Self)
        ensures
            g.wf(),
            g.history@ == Seq::<Level>::empty(),
            g.total() == 0,
            g.configured_level == level,
            g.config == config,
    {
        let g = VerbosityCheckLayer {
            error_count: 0,
            warn_count: 0,
            info_count: 0,
            debug_count: 0,
            trace_count: 0,
            configured_level: level,
            config,
            history: Ghost(Seq::empty()),
        };
        g
    }

    /// Observe one event that passed the severity filter: the counter of its
    /// level rises by one, the others stand.
    pub fn record(&mut self, level: Level)
        requires
            old(self).wf(),
            old(self).history@.len() < usize::MAX,
        ensures
            final(self).wf(),
            final(self).history@ == old(self).history@.push(level),
            final(self).configured_level == old(self).configured_level,
            final(self).config == old(self).config,
            final(self).error_count == old(self).error_count + if level == Level::Error {
                1int
            } else {
                0int
            },
            final(self).warn_count == old(self).warn_count + if level == Level::Warn {
                1int
            } else {
                0int
            },
            final(self).info_count == old(self).info_count + if level == Level::Info {
                1int
            } else {
                0int
            },
            final(self).debug_count == old(self).debug_count + if level == Level::Debug {
                1int
            } else {
                0int
            },
            final(self).trace_count == old(self).trace_count + if level == Level::Trace {
                1int
            } else {
                0int
            },
    {
        proof {
            lemma_tally_le_len(self.history@, Level::Error);
            lemma_tally_le_len(self.history@, Level::Warn);
            lemma_tally_le_len(self.history@, Level::Info);
            lemma_tally_le_len(self.history@, Level::Debug);
            lemma_tally_le_len(self.history@, Level::Trace);
            lemma_tally_push(self.history@, Level::Error, level);
            lemma_tally_push(self.history@, Level::Warn, level);
            lemma_tally_push(self.history@, Level::Info, level);
            lemma_tally_push(self.history@, Level::Debug, level);
            lemma_tally_push(self.history@, Level::Trace, level);
        }
        match level {
            Level::Error => {
                self.error_count = self.error_count + 1;
            },
            Level::Warn => {
                self.warn_count = self.warn_count + 1;
            },
            Level::Info => {
                self.info_count = self.info_count + 1;
            },
            Level::Debug => {
                self.debug_count = self.debug_count + 1;
            },
            Level::Trace => {
                self.trace_count = self.trace_count + 1;
            },
        }
        proof {
            self.history@ = self.history@.push(level);
        }
    }

    /// The total count of all recorded events: exactly the sum of the five
    /// counters, and exactly the number of events recorded.
    pub fn total_count(&self) -> (r: usize)
        requires
            self.wf(),
        ensures
            r == self.total(),
            r == self.history@.len(),
    {
        proof {
            lemma_tally_partition(self.history@);
        }
        self.error_count + self.warn_count + self.info_count + self.debug_count
            + self.trace_count
    }

    /// The per-level breakdown.
    pub fn counts_by_level(&self) -> (r: LogCounts)
        ensures
            r.error == self.error_count,
            r.warn == self.warn_count,
            r.info == self.info_count,
            r.debug == self.debug_count,
            r.trace == self.trace_count,
    {
        LogCounts {
            error: self.error_count,
            warn: self.warn_count,
            info: self.info_count,
            debug: self.debug_count,
            trace: self.trace_count,
        }
    }

    /// A warning is owed exactly when the configured level has a threshold
    /// and the total volume passed it.
    pub open spec fn spec_warns(&self) -> bool {
        match spec_threshold(self.config.verbosity, self.configured_level) {
            Some(t) => self.total() > t,
            None => false,
        }
    }

    /// The warning value that a governor in a warning state reports.
    pub open spec fn spec_warning_of(&self) -> VerbosityWarning {
        (VerbosityWarning {
            total_count: self.total() as usize,
            threshold: spec_threshold(self.config.verbosity, self.configured_level)->Some_0,
            configured_level: self.configured_level,
            counts: (LogCounts {
                error: self.error_count,
                warn: self.warn_count,
                info: self.info_count,
                debug: self.debug_count,
                trace: self.trace_count,
            }),
        })
    }

    /// Check whether the recorded volume exceeds the threshold of the
    /// configured level. WARN and ERROR have no threshold and never warn.
    pub fn check_verbosity(&self) -> (r: Option<VerbosityWarning>)
        requires
            self.wf(),
        ensures
            r is Some <==> self.spec_warns(),
            r matches Some(w) ==> w == self.spec_warning_of(),
    {
        let threshold = threshold_for(&self.config.verbosity, self.configured_level);
        match threshold {
            Some(threshold_value) => {
                let total = self.total_count();
                if total > threshold_value {
                    Some(
                        VerbosityWarning {
                            total_count: total,
                            threshold: threshold_value,
                            configured_level: self.configured_level,
                            counts: self.counts_by_level(),
                        },
                    )
                } else {
                    None
                }
            },
            None => None,
        }
    }
}

/// The label of a level, as rendered.
pub open spec fn spec_level_label(l: Level) -> Seq<char> {
    match l {
        Level::Error => "ERROR"@,
        Level::Warn => "WARN"@,
        Level::Info => "INFO"@,
        Level::Debug => "DEBUG"@,
        Level::Trace => "TRACE"@,
    }
}

/// Render a level's label.
pub fn level_label(l: Level) -> (r: &'static str)
    ensures
        r@ == spec_level_label(l),
{
    match l {
        Level::Error => "ERROR",
        Level::Warn => "WARN",
        Level::Info => "INFO",
        Level::Debug => "DEBUG",
        Level::Trace => "TRACE",
    }
}

/// The text of a verbosity warning report.
pub open spec fn spec_report(w: VerbosityWarning) -> Seq<char> {
    "\nLOG VERBOSITY WARNING\n========================\nTotal log events: "@ + spec_dec(
        w.total_count as nat,
    ) + " (threshold: "@ + spec_dec(w.threshold as nat) + " for "@ + spec_level_label(
        w.configured_level,
    ) + " level)\n\nBreakdown by level:\n  ERROR: "@ + spec_dec(w.counts.error as nat)
        + "\n  WARN:  "@ + spec_dec(w.counts.warn as nat) + "\n  INFO:  "@ + spec_dec(
        w.counts.info as nat,
    ) + "\n  DEBUG: "@ + spec_dec(w.counts.debug as nat) + "\n  TRACE: "@ + spec_dec(
        w.counts.trace as nat,
    )
        + "\n\nConsider reducing log verbosity to improve performance and readability.\nRecommended thresholds:\n  INFO:  <50 total logs\n  DEBUG: <100 total logs\n  TRACE: <200 total logs"@
}

/// Render a verbosity warning as the multi-line end-of-run report block.
pub fn render_report(w: &VerbosityWarning) -> (r: String)
    ensures
        r@ == spec_report(*w),
{
    let mut r = "\nLOG VERBOSITY WARNING\n========================\nTotal log events: "
        .to_owned();
    r.append(usize_to_string(w.total_count).as_str());
    r.append(" (threshold: ");
    r.append(usize_to_string(w.threshold).as_str());
    r.append(" for ");
    r.append(level_label(w.configured_level));
    r.append(" level)\n\nBreakdown by level:\n  ERROR: ");
    r.append(usize_to_string(w.counts.error).as_str());
    r.append("\n  WARN:  ");
    r.append(usize_to_string(w.counts.warn).as_str());
    r.append("\n  INFO:  ");
    r.append(usize_to_string(w.counts.info).as_str());
    r.append("\n  DEBUG: ");
    r.append(usize_to_string(w.counts.debug).as_str());
    r.append("\n  TRACE: ");
    r.append(usize_to_string(w.counts.trace).as_str());
    r.append(
        "\n\nConsider reducing log verbosity to improve performance and readability.\nRecommended thresholds:\n  INFO:  <50 total logs\n  DEBUG: <100 total logs\n  TRACE: <200 total logs",
    );
    r
}

impl VerbosityCheckLayer {
    /// Check verbosity and render the warning report when one is owed.
    pub fn check_and_report(&self) -> (r: Option<String>)
        requires
            self.wf(),
        ensures
            r is Some <==> self.spec_warns(),
            r matches Some(s) ==> s@ == spec_report(self.spec_warning_of()),
    {
        match self.check_verbosity() {
            Some(warning) => Some(render_report(&warning)),
            None => None,
        }
    }
}

/// One nested scope around an event: its name and its formatted fields
/// (empty when the scope carries none).
pub struct ScopeEntry {
    pub name: String,
    pub fields: String,
}

/// One log event, as handed to the formatter: its level, the target it was
/// emitted from, its source location when known, the scopes around it from
/// the root inward, and the rendered message.
pub struct LogEvent {
    pub level: Level,
    pub target: String,
    pub file: Option<String>,
    pub line: Option<u32>,
    pub scopes: Vec<ScopeEntry>,
    pub message: String,
}

/// How one scope renders: its name, then its fields in braces when any.
pub open spec fn spec_scope_entry(e: ScopeEntry) -> Seq<char> {
    e.name@ + if e.fields@.len() > 0 {
        seq!['{'] + e.fields@ + seq!['}']
    } else {
        Seq::empty()
    }
}

/// The scope chain, root first, joined with ':'.
pub open spec fn spec_scope_chain(es: Seq<ScopeEntry>) -> Seq<char>
    decreases es.len(),
{
    if es.len() == 0 {
        Seq::empty()
    } else if es.len() == 1 {
        spec_scope_entry(es[0])
    } else {
        spec_scope_entry(es[0]) + seq![':'] + spec_scope_chain(es.skip(1))
    }
}

/// Extending the chain by one scope appends a separator and that scope.
pub proof fn lemma_scope_chain_push(es: Seq<ScopeEntry>, e: ScopeEntry)
    ensures
        es.len() == 0 ==> spec_scope_chain(es.push(e)) == spec_scope_entry(e),
        es.len() > 0 ==> spec_scope_chain(es.push(e)) == spec_scope_chain(es) + seq![':']
            + spec_scope_entry(e),
    decreases es.len(),
{
    if es.len() == 0 {
        assert(es.push(e)[0] == e);
    } else if es.len() == 1 {
        assert(es.push(e).skip(1) =~= seq![e]);
        assert(seq![e].len() == 1 && seq![e][0] == e);
        assert(spec_scope_chain(seq![e]) == spec_scope_entry(e));
        assert(es.push(e)[0] == es[0]);
    } else {
        lemma_scope_chain_push(es.skip(1), e);
        assert(es.push(e).skip(1) =~= es.skip(1).push(e));
        assert(spec_scope_chain(es) + seq![':'] + spec_scope_entry(e) =~= es[0].name@
            + (if es[0].fields@.len() > 0 {
            seq!['{'] + es[0].fields@ + seq!['}']
        } else {
            Seq::empty()
        }) + seq![':'] + (spec_scope_chain(es.skip(1)) + seq![':'] + spec_scope_entry(e)));
    }
}

/// The severity-and-location prefix of a rendered line: nothing at INFO;
/// otherwise the level label, with the target and the `file:line` location
/// added for ERROR and WARN only, then `": "`.
pub open spec fn spec_line_prefix(e: LogEvent) -> Seq<char> {
    if e.level == Level::Info {
        Seq::empty()
    } else {
        spec_level_label(e.level) + (if e.level == Level::Error || e.level == Level::Warn {
            seq![' '] + e.target@ + (match (e.file, e.line) {
                (Some(f), Some(l)) => seq![' '] + f@ + seq![':'] + spec_dec(l as nat),
                _ => Seq::empty(),
            })
        } else {
            Seq::empty()
        }) + ": "@
    }
}

/// The whole rendered line: the prefix, the scope chain and a space when any
/// scopes stand around the event, the message, and a newline.
pub open spec fn spec_format_event(e: LogEvent) -> Seq<char> {
    spec_line_prefix(e) + (if e.scopes@.len() > 0 {
        spec_scope_chain(e.scopes@) + seq![' ']
    } else {
        Seq::empty()
    }) + e.message@ + seq!['\n']
}

/// The event formatter: terse at INFO, located at ERROR and WARN.
pub struct ConditionalLocationFormatter;

impl ConditionalLocationFormatter {
    /// Render one event to its output line. Pure: no rotation or counting
    /// happens here.
    pub fn format_event(&self, event: &LogEvent) -> (r: String)
        ensures
            r@ == spec_format_event(*event),
    {
        let mut r = String::new();
        if !matches!(event.level, Level::Info) {
            r.append(level_label(event.level));
            if matches!(event.level, Level::Error | Level::Warn) {
                r.append(" ");
                r.append(event.target.as_str());
                match (&event.file, &event.line) {
                    (Some(file), Some(line)) => {
                        r.append(" ");
                        r.append(file.as_str());
                        r.append(":");
                        r.append(u32_to_string(*line).as_str());
                        proof {
                            reveal_strlit(" ");
                            reveal_strlit(":");
                        }
                    },
                    _ => {},
                }
            }
            r.append(": ");
            proof {
                reveal_strlit(" ");
            }
        }
        proof {
            assert(r@ =~= spec_line_prefix(*event));
        }
        if event.scopes.len() > 0 {
            let ghost es = event.scopes@;
            let mut i: usize = 0;
            let mut chain = String::new();
            while i < event.scopes.len()
                invariant
                    es == event.scopes@,
                    i <= es.len(),
                    chain@ == spec_scope_chain(es.take(i as int)),
                decreases es.len() - i,
            {
                proof {
                    lemma_scope_chain_push(es.take(i as int), es[i as int]);
                    assert(es.take(i as int).push(es[i as int]) =~= es.take(i + 1));
                    reveal_strlit(":");
                    reveal_strlit("{");
                    reveal_strlit("}");
                }
                if i > 0 {
                    assert(es.take(i as int).len() > 0);
                    chain.append(":");
                }
                chain.append(event.scopes[i].name.as_str());
                if !event.scopes[i].fields.as_str().is_empty() {
                    chain.append("{");
                    chain.append(event.scopes[i].fields.as_str());
                    chain.append("}");
                }
                assert(chain@ =~= spec_scope_chain(es.take(i + 1)));
                i += 1;
            }
            proof {
                assert(es.take(es.len() as int) =~= es);
            }
            r.append(chain.as_str());
            r.append(" ");
            proof {
                reveal_strlit(" ");
            }
        }
        r.append(event.message.as_str());
        r.append("\n");
        proof {
            reveal_strlit("\n");
            assert(r@ =~= spec_format_event(*event));
        }
        r
    }
}

/// A governor configured at WARN or ERROR never warns, whatever volume
/// of events was recorded.
pub proof fn lemma_no_warning_at_high_severity(g: &VerbosityCheckLayer)
    requires
        g.configured_level == Level::Warn || g.configured_level == Level::Error,
    ensures
        !g.spec_warns(),
{
}

/// The boundary at the configured level INFO: the governor warns exactly
/// when the total volume strictly exceeds `info_threshold` — one event past
/// the threshold warns, the threshold itself does not.
pub proof fn lemma_info_threshold_boundary(g: &VerbosityCheckLayer)
    requires
        g.configured_level == Level::Info,
    ensures
        g.spec_warns() <==> g.total() > g.config.verbosity.info_threshold,
{
}

/// In a well-formed governor the counters are exactly the per-level
/// tallies of everything recorded, and they sum to the total.
pub proof fn lemma_counters_are_exact(g: &VerbosityCheckLayer)
    requires
        g.wf(),
    ensures
        g.error_count == spec_tally(g.history@, Level::Error),
        g.warn_count == spec_tally(g.history@, Level::Warn),
        g.info_count == spec_tally(g.history@, Level::Info),
        g.debug_count == spec_tally(g.history@, Level::Debug),
        g.trace_count == spec_tally(g.history@, Level::Trace),
        g.total() == g.history@.len(),
{
    lemma_tally_partition(g.history@);
}

} // verus!
