//! Pre-merge checking: check results, conflict predictions, the safety
//! score computed from them, and the merge recommendation derived from the
//! score.
//!
//! Running the underlying tools (builds, tests, lints) and reading
//! repositories is a caller's concern; the aggregation and scoring rules
//! live here.

use vstd::prelude::*;
use vstd::string::StringExecFns;

use crate::text::{spec_dec, usize_to_string};

verus! {

/// The outcome of one check.
#[derive(Debug, Clone)]
pub enum CheckStatus {
    Pass,
    Fail(String),
    Skipped,
}

/// The outcomes of the pre-merge checks.
#[derive(Debug, Clone)]
pub struct CheckResults {
    pub cargo_check: CheckStatus,
    pub cargo_test: CheckStatus,
    pub cargo_clippy: CheckStatus,
    pub debug_macros: CheckStatus,
    pub todo_comments: CheckStatus,
    pub documentation: CheckStatus,
}

/// How severe a predicted conflict is.
#[derive(Debug, Clone, Copy, PartialEq, Eq, Structural)]
pub enum ConflictSeverity {
    Low,
    Medium,
    High,
}

/// One predicted merge conflict.
#[derive(Debug, Clone)]
pub struct ConflictPrediction {
    pub file: String,
    pub overlapping_lines: usize,
    pub severity: ConflictSeverity,
}

/// The recommendation derived from the safety score.
#[derive(Debug, Clone)]
pub enum MergeRecommendation {
    Safe,
    Caution(String),
    Danger(String),
}

/// A full pre-merge report.
#[derive(Debug, Clone)]
pub struct CIReport {
    pub worktree: String,
    pub checks: CheckResults,
    pub conflicts: Vec<ConflictPrediction>,
    pub safety_score: u8,
    pub recommendation: MergeRecommendation,
}

/// Runs the individual checks. Each check currently reports a pass;
/// executing the real tools is a caller's concern.
pub struct CheckRunner;

impl CheckRunner {
    pub fn new() -> Self {
        CheckRunner
    }

    /// Run every check and collect the results.
    pub fn run_all_checks(&self, worktree_path: &str) -> (r: Result<CheckResults, String>)
        ensures
            r matches Ok(c) && c.cargo_check is Pass && c.cargo_test is Pass
                && c.cargo_clippy is Pass && c.debug_macros is Pass && c.todo_comments is Pass
                && c.documentation is Pass,
    {
        Ok(
            CheckResults {
                cargo_check: self.run_cargo_check(worktree_path)?,
                cargo_test: self.run_cargo_test(worktree_path)?,
                cargo_clippy: self.run_cargo_clippy(worktree_path)?,
                debug_macros: self.check_debug_macros(worktree_path)?,
                todo_comments: self.check_todo_comments(worktree_path)?,
                documentation: self.check_documentation(worktree_path)?,
            },
        )
    }

    /// Currently always passes.
    fn run_cargo_check(&self, path: &str) -> (r: Result<CheckStatus, String>)
        ensures
            r matches Ok(s) && s is Pass,
    {
        Ok(CheckStatus::Pass)
    }

    /// Currently always passes.
    fn run_cargo_test(&self, path: &str) -> (r: Result<CheckStatus, String>)
        ensures
            r matches Ok(s) && s is Pass,
    {
        Ok(CheckStatus::Pass)
    }

    /// Currently always passes.
    fn run_cargo_clippy(&self, path: &str) -> (r: Result<CheckStatus, String>)
        ensures
            r matches Ok(s) && s is Pass,
    {
        Ok(CheckStatus::Pass)
    }

    /// Currently always passes.
    fn check_debug_macros(&self, path: &str) -> (r: Result<CheckStatus, String>)
        ensures
            r matches Ok(s) && s is Pass,
    {
        Ok(CheckStatus::Pass)
    }

    /// Currently always passes.
    fn check_todo_comments(&self, path: &str) -> (r: Result<CheckStatus, String>)
        ensures
            r matches Ok(s) && s is Pass,
    {
        Ok(CheckStatus::Pass)
    }

    /// Currently always passes.
    fn check_documentation(&self, path: &str) -> (r: Result<CheckStatus, String>)
        ensures
            r matches Ok(s) && s is Pass,
    {
        Ok(CheckStatus::Pass)
    }
}

/// Predicts merge conflicts between two trees. Currently predicts none;
/// reading the trees is a caller's concern.
pub struct ConflictAnalyzer;

impl ConflictAnalyzer {
    pub fn new() -> Self {
        ConflictAnalyzer
    }

    /// Predict the conflicts a merge would hit. Currently none.
    pub fn predict_conflicts(&self, base: &str, incoming: &str) -> (r: Result<
        Vec<ConflictPrediction>,
        String,
    >)
        ensures
            r matches Ok(v) && v@.len() == 0,
    {
        Ok(Vec::new())
    }
}

/// What a failed check deducts from the safety score.
pub open spec fn spec_check_deduction(c: CheckResults) -> int {
    (if c.cargo_check is Fail {
        30int
    } else {
        0int
    }) + (if c.cargo_test is Fail {
        20int
    } else {
        0int
    }) + (if c.cargo_clippy is Fail {
        10int
    } else {
        0int
    }) + (if c.debug_macros is Fail {
        5int
    } else {
        0int
    })
}

/// What one predicted conflict deducts.
pub open spec fn spec_conflict_deduction(s: ConflictSeverity) -> int {
    match s {
        ConflictSeverity::High => 15,
        ConflictSeverity::Medium => 10,
        ConflictSeverity::Low => 5,
    }
}

/// Deduction clamped at a floor of zero.
pub open spec fn spec_sat_sub(x: int, d: int) -> int {
    if x >= d {
        x - d
    } else {
        0
    }
}

/// The score left after deducting each conflict in turn, never below zero.
pub open spec fn spec_score_after(start: int, cs: Seq<ConflictPrediction>) -> int
    decreases cs.len(),
{
    if cs.len() == 0 {
        start
    } else {
        spec_score_after(spec_sat_sub(start, spec_conflict_deduction(cs[0].severity)), cs.skip(1))
    }
}

/// The safety score: 100, less the check deductions, less the conflict
/// deductions with a floor of zero.
pub open spec fn spec_safety_score(checks: CheckResults, cs: Seq<ConflictPrediction>) -> int {
    spec_score_after(100 - spec_check_deduction(checks), cs)
}

/// Ties the pre-merge pieces together.
pub struct CI {
    check_runner: CheckRunner,
    conflict_analyzer: ConflictAnalyzer,
}

impl CI {
    pub fn new() -> Self {
        CI { check_runner: CheckRunner::new(), conflict_analyzer: ConflictAnalyzer::new() }
    }

    /// Run the pre-merge checks.
    pub fn pre_merge_checks(&self, worktree_path: &str) -> (r: Result<CheckResults, String>)
        ensures
            r matches Ok(c) && c.cargo_check is Pass && c.cargo_test is Pass
                && c.cargo_clippy is Pass && c.debug_macros is Pass && c.todo_comments is Pass
                && c.documentation is Pass,
    {
        self.check_runner.run_all_checks(worktree_path)
    }

    /// Predict the conflicts a merge would hit.
    pub fn analyze_conflicts(&self, base: &str, incoming: &str) -> (r: Result<
        Vec<ConflictPrediction>,
        String,
    >)
        ensures
            r matches Ok(v) && v@.len() == 0,
    {
        self.conflict_analyzer.predict_conflicts(base, incoming)
    }

    /// Compute the safety score from the check results and the predicted
    /// conflicts.
    pub fn calculate_safety_score(
        &self,
        checks: &CheckResults,
        conflicts: &Vec<ConflictPrediction>,
    ) -> (score: u8)
        ensures
            score as int == spec_safety_score(*checks, conflicts@),
    {
        let mut score: u8 = 100;
        if matches!(checks.cargo_check, CheckStatus::Fail(_)) {
            score = score - 30;
        }
        if matches!(checks.cargo_test, CheckStatus::Fail(_)) {
            score = score - 20;
        }
        if matches!(checks.cargo_clippy, CheckStatus::Fail(_)) {
            score = score - 10;
        }
        if matches!(checks.debug_macros, CheckStatus::Fail(_)) {
            score = score - 5;
        }
        assert(score as int == 100 - spec_check_deduction(*checks));
        let ghost cs = conflicts@;
        let ghost start = score as int;
        let mut i: usize = 0;
        proof {
            assert(cs.skip(0) =~= cs);
        }
        while i < conflicts.len()
            invariant
                cs == conflicts@,
                i <= cs.len(),
                0 <= score <= 100,
                spec_score_after(score as int, cs.skip(i as int)) == spec_score_after(start, cs),
            decreases cs.len() - i,
        {
            let d: u8 = match conflicts[i].severity {
                ConflictSeverity::High => 15,
                ConflictSeverity::Medium => 10,
                ConflictSeverity::Low => 5,
            };
            proof {
                assert(cs.skip(i as int)[0] == cs[i as int]);
                assert(cs.skip(i as int).skip(1) =~= cs.skip(i + 1));
            }
            score = if score >= d {
                score - d
            } else {
                0
            };
            i += 1;
        }
        proof {
            assert(cs.skip(cs.len() as int) =~= Seq::<ConflictPrediction>::empty());
        }
        score
    }

    /// Derive the recommendation: safe at a high score with no conflicts,
    /// caution at a middling score, danger below that.
    pub fn generate_recommendation(
        &self,
        score: u8,
        conflicts: &Vec<ConflictPrediction>,
    ) -> (r: MergeRecommendation)
        ensures
            (score >= 80 && conflicts@.len() == 0) <==> r is Safe,
            (!(score >= 80 && conflicts@.len() == 0) && score >= 60) <==> r is Caution,
            r matches MergeRecommendation::Caution(m) ==> m@ == "Review "@ + spec_dec(
                conflicts@.len(),
            ) + " conflicts before merging"@,
            r matches MergeRecommendation::Danger(m) ==> m@
                == "Multiple issues detected. Manual review required."@,
    {
        if score >= 80 && conflicts.len() == 0 {
            MergeRecommendation::Safe
        } else if score >= 60 {
            let mut m = "Review ".to_owned();
            m.append(usize_to_string(conflicts.len()).as_str());
            m.append(" conflicts before merging");
            MergeRecommendation::Caution(m)
        } else {
            MergeRecommendation::Danger(
                "Multiple issues detected. Manual review required.".to_owned(),
            )
        }
    }
}

} // verus!
