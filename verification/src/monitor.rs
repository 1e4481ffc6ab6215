//! Worktree monitoring: status records for a workspace of git worktrees,
//! parsing of porcelain status output, diff-report composition, and task
//! extraction from worktree notes.
//!
//! Running git and reading directories is a caller's concern; a caller hands
//! the command output in as text and receives the parsed or composed result.

use vstd::prelude::*;
use vstd::string::StringExecFns;

use crate::text::{
    spec_join_sep, spec_lines, spec_starts_with, spec_strip_prefix_all, spec_trim, join_with,
    split_lines, starts_with, strip_prefix_all, trim_str,
};

verus! {

/// One git worktree: its name and its path.
#[derive(Debug, Clone)]
pub struct Worktree {
    pub name: String,
    pub path: String,
}

/// The observed state of one worktree.
#[derive(Debug, Clone)]
pub struct WorktreeStatus {
    pub name: String,
    pub path: String,
    pub status: String,
    pub last_change: Option<String>,
    pub files_changed: usize,
    pub current_task: Option<String>,
    pub branch: String,
}

/// The state of a whole workspace: one entry per worktree, keyed by name,
/// and the time the snapshot was taken.
#[derive(Debug, Clone)]
pub struct MonitorStatus {
    pub worktrees: Vec<(String, WorktreeStatus)>,
    pub timestamp: String,
}

impl MonitorStatus {
    /// Each worktree name appears at most once.
    pub open spec fn names_unique(&self) -> bool {
        forall|i: int, j: int|
            0 <= i < j < self.worktrees@.len() ==> self.worktrees@[i].0@ != self.worktrees@[j].0@
    }

    /// An empty snapshot with the given timestamp.
    pub fn new(timestamp: String) -> (r: Self)
        ensures
            r.names_unique(),
            r.worktrees@.len() == 0,
            r.timestamp == timestamp,
    {
        MonitorStatus { worktrees: Vec::new(), timestamp }
    }

    /// The index of the entry stored under a name, if any.
    fn find_name(&self, name: &str) -> (r: Option<usize>)
        ensures
            r matches Some(i) ==> i < self.worktrees@.len() && self.worktrees@[i as int].0@
                == name@,
            r is None ==> forall|k: int|
                0 <= k < self.worktrees@.len() ==> self.worktrees@[k].0@ != name@,
    {
        let mut i: usize = 0;
        while i < self.worktrees.len()
            invariant
                i <= self.worktrees@.len(),
                forall|k: int| 0 <= k < i ==> self.worktrees@[k].0@ != name@,
            decreases self.worktrees@.len() - i,
        {
            if crate::text::str_eq(self.worktrees[i].0.as_str(), name) {
                return Some(i);
            }
            i += 1;
        }
        None
    }

    /// Insert one worktree's status under its name, replacing any entry of
    /// the same name, as a map insertion would: afterwards the name maps to
    /// exactly this status, and every other entry is kept.
    pub fn insert_status(&mut self, name: &str, status: WorktreeStatus)
        requires
            old(self).names_unique(),
        ensures
            final(self).names_unique(),
            final(self).timestamp == old(self).timestamp,
            final(self).worktrees@.len() > 0,
            final(self).worktrees@.last().0@ == name@,
            final(self).worktrees@.last().1 == status,
            forall|k: int|
                0 <= k < final(self).worktrees@.len() - 1 ==> (#[trigger] final(self).worktrees@[k]).0@
                    != name@ && old(self).worktrees@.contains(final(self).worktrees@[k]),
            forall|j: int|
                0 <= j < old(self).worktrees@.len() && old(self).worktrees@[j].0@ != name@
                    ==> final(self).worktrees@.contains(#[trigger] old(self).worktrees@[j]),
    {
        let found = self.find_name(name);
        let ghost prev = self.worktrees@;
        match found {
            Some(i) => {
                self.worktrees.remove(i);
                proof {
                    assert forall|k: int|
                        0 <= k < self.worktrees@.len() implies self.worktrees@[k].0@ != name@
                        && prev.contains(self.worktrees@[k]) by {
                        if k < i {
                            assert(self.worktrees@[k] == prev[k]);
                            assert(prev[k].0@ != prev[i as int].0@);
                        } else {
                            assert(self.worktrees@[k] == prev[k + 1]);
                            assert(prev[i as int].0@ != prev[k + 1].0@);
                        }
                    }
                    assert forall|j: int|
                        0 <= j < prev.len() && prev[j].0@ != name@ implies self.worktrees@
                            .contains(#[trigger] prev[j]) by {
                        if j < i {
                            assert(self.worktrees@[j] == prev[j]);
                        } else {
                            assert(j != i);
                            assert(self.worktrees@[j - 1] == prev[j]);
                        }
                    }
                }
            },
            None => {},
        }
        let ghost mid = self.worktrees@;
        assert(forall|k: int| 0 <= k < mid.len() ==> mid[k].0@ != name@);
        self.worktrees.push((name.to_owned(), status));
        proof {
            assert forall|a: int, b: int|
                0 <= a < b < self.worktrees@.len() implies self.worktrees@[a].0@
                != self.worktrees@[b].0@ by {
                if b == mid.len() {
                    assert(self.worktrees@[a] == mid[a]);
                    assert(self.worktrees@[b].0@ == name@);
                } else {
                    assert(self.worktrees@[a] == mid[a]);
                    assert(self.worktrees@[b] == mid[b]);
                }
            }
            assert forall|k: int|
                0 <= k < self.worktrees@.len() - 1 implies self.worktrees@[k].0@ != name@
                && prev.contains(#[trigger] self.worktrees@[k]) by {
                assert(self.worktrees@[k] == mid[k]);
                if found is None {
                    assert(mid == prev);
                    assert(prev.contains(prev[k]));
                }
            }
            assert forall|j: int|
                0 <= j < prev.len() && prev[j].0@ != name@ implies self.worktrees@.contains(
                #[trigger] prev[j],
            ) by {
                if found is None {
                    assert(self.worktrees@[j] == prev[j]);
                } else {
                    let w = choose|m: int| 0 <= m < mid.len() && mid[m] == prev[j];
                    assert(self.worktrees@[w] == mid[w]);
                }
            }
        }
    }
}

/// Composes diff reports from the staged and unstaged diff texts.
pub struct DiffTracker;

impl DiffTracker {
    pub fn new() -> Self {
        DiffTracker
    }

    /// The report for one worktree: its header, then a section per
    /// non-empty diff, or a no-changes note when both are empty.
    pub open spec fn spec_diff_report(
        name: Seq<char>,
        staged: Seq<char>,
        unstaged: Seq<char>,
    ) -> Seq<char> {
        "# Diff for worktree: "@ + name + "\n\n"@ + (if staged.len() > 0 {
            "## Staged Changes\n\n"@ + staged + "\n\n"@
        } else {
            Seq::empty()
        }) + (if unstaged.len() > 0 {
            "## Unstaged Changes\n\n"@ + unstaged + "\n\n"@
        } else {
            Seq::empty()
        }) + (if staged.len() == 0 && unstaged.len() == 0 {
            "No changes detected.\n"@
        } else {
            Seq::empty()
        })
    }

    /// Compose the diff report for one worktree from the two diff texts.
    pub fn compose_diff_report(&self, name: &str, staged: &str, unstaged: &str) -> (r: String)
        ensures
            r@ == Self::spec_diff_report(name@, staged@, unstaged@),
    {
        let mut r = "# Diff for worktree: ".to_owned();
        r.append(name);
        r.append("\n\n");
        if !staged.is_empty() {
            r.append("## Staged Changes\n\n");
            r.append(staged);
            r.append("\n\n");
        }
        if !unstaged.is_empty() {
            r.append("## Unstaged Changes\n\n");
            r.append(unstaged);
            r.append("\n\n");
        }
        if staged.is_empty() && unstaged.is_empty() {
            r.append("No changes detected.\n");
        }
        proof {
            assert(r@ =~= Self::spec_diff_report(name@, staged@, unstaged@));
        }
        r
    }
}

/// A porcelain status line marks an added file.
pub open spec fn is_added_status(st: Seq<char>) -> bool {
    st == "A "@ || st == " A"@ || st == "??"@
}

/// A porcelain status line marks a modified file.
pub open spec fn is_modified_status(st: Seq<char>) -> bool {
    st == "M "@ || st == " M"@ || st == "MM"@
}

/// A porcelain status line marks a deleted file.
pub open spec fn is_deleted_status(st: Seq<char>) -> bool {
    st == "D "@ || st == " D"@
}

/// The files whose porcelain line carries an added status.
pub open spec fn spec_added_files(ls: Seq<Seq<char>>) -> Seq<Seq<char>>
    decreases ls.len(),
{
    if ls.len() == 0 {
        Seq::empty()
    } else {
        (if ls[0].len() >= 3 && is_added_status(ls[0].take(2)) {
            seq![ls[0].skip(3)]
        } else {
            Seq::empty()
        }) + spec_added_files(ls.skip(1))
    }
}

/// The files whose porcelain line carries a modified status.
pub open spec fn spec_modified_files(ls: Seq<Seq<char>>) -> Seq<Seq<char>>
    decreases ls.len(),
{
    if ls.len() == 0 {
        Seq::empty()
    } else {
        (if ls[0].len() >= 3 && is_modified_status(ls[0].take(2)) {
            seq![ls[0].skip(3)]
        } else {
            Seq::empty()
        }) + spec_modified_files(ls.skip(1))
    }
}

/// The files whose porcelain line carries a deleted status.
pub open spec fn spec_deleted_files(ls: Seq<Seq<char>>) -> Seq<Seq<char>>
    decreases ls.len(),
{
    if ls.len() == 0 {
        Seq::empty()
    } else {
        (if ls[0].len() >= 3 && is_deleted_status(ls[0].take(2)) {
            seq![ls[0].skip(3)]
        } else {
            Seq::empty()
        }) + spec_deleted_files(ls.skip(1))
    }
}

/// Parse `git status --porcelain` output into the added, modified and
/// deleted file lists. Lines shorter than three characters and lines with
/// any other status are ignored.
pub fn parse_porcelain(status_text: &str) -> (r: (Vec<String>, Vec<String>, Vec<String>))
    ensures
        r.0@.map_values(|l: String| l@) == spec_added_files(spec_lines(status_text@)),
        r.1@.map_values(|l: String| l@) == spec_modified_files(spec_lines(status_text@)),
        r.2@.map_values(|l: String| l@) == spec_deleted_files(spec_lines(status_text@)),
{
    let lines = split_lines(status_text);
    let ghost lsv = lines@.map_values(|l: String| l@);
    let mut added: Vec<String> = Vec::new();
    let mut modified: Vec<String> = Vec::new();
    let mut deleted: Vec<String> = Vec::new();
    let mut i: usize = 0;
    proof {
        reveal_strlit("A ");
        reveal_strlit(" A");
        reveal_strlit("??");
        reveal_strlit("M ");
        reveal_strlit(" M");
        reveal_strlit("MM");
        reveal_strlit("D ");
        reveal_strlit(" D");
        assert(lsv.skip(0) =~= lsv);
        assert(added@.map_values(|l: String| l@) + spec_added_files(lsv.skip(0)) =~= spec_added_files(lsv));
        assert(modified@.map_values(|l: String| l@) + spec_modified_files(lsv.skip(0))
            =~= spec_modified_files(lsv));
        assert(deleted@.map_values(|l: String| l@) + spec_deleted_files(lsv.skip(0))
            =~= spec_deleted_files(lsv));
    }
    while i < lines.len()
        invariant
            lsv == lines@.map_values(|l: String| l@),
            lsv == spec_lines(status_text@),
            i <= lsv.len(),
            spec_added_files(lsv) == added@.map_values(|l: String| l@) + spec_added_files(
                lsv.skip(i as int),
            ),
            spec_modified_files(lsv) == modified@.map_values(|l: String| l@)
                + spec_modified_files(lsv.skip(i as int)),
            spec_deleted_files(lsv) == deleted@.map_values(|l: String| l@) + spec_deleted_files(
                lsv.skip(i as int),
            ),
        decreases lsv.len() - i,
    {
        let ghost h = lsv[i as int];
        proof {
            reveal_strlit("A ");
            reveal_strlit(" A");
            reveal_strlit("??");
            reveal_strlit("M ");
            reveal_strlit(" M");
            reveal_strlit("MM");
            reveal_strlit("D ");
            reveal_strlit(" D");
            assert(lsv.skip(i as int)[0] == h);
            assert(lsv.skip(i as int).skip(1) =~= lsv.skip(i + 1));
        }
        let n = lines[i].as_str().unicode_len();
        if n >= 3 {
            let st = lines[i].as_str().substring_char(0, 2);
            let file = lines[i].as_str().substring_char(3, n);
            proof {
                assert(st@ =~= h.take(2));
                assert(file@ =~= h.skip(3));
            }
            let is_a = crate::text::str_eq(st, "A ") || crate::text::str_eq(st, " A")
                || crate::text::str_eq(st, "??");
            let is_m = crate::text::str_eq(st, "M ") || crate::text::str_eq(st, " M")
                || crate::text::str_eq(st, "MM");
            let is_d = crate::text::str_eq(st, "D ") || crate::text::str_eq(st, " D");
            proof {
                assert(is_a == is_added_status(h.take(2)));
                assert(is_m == is_modified_status(h.take(2)));
                assert(is_d == is_deleted_status(h.take(2)));
                assert(("A "@)[0] == 'A' && (" A"@)[1] == 'A' && ("??"@)[0] == '?');
                assert(("M "@)[0] == 'M' && (" M"@)[1] == 'M' && ("MM"@)[0] == 'M');
                assert(("D "@)[0] == 'D' && (" D"@)[1] == 'D');
                assert((" A"@)[0] == ' ' && (" M"@)[0] == ' ' && (" D"@)[0] == ' ');
                assert(!(is_a && is_m) && !(is_a && is_d) && !(is_m && is_d));
            }
            if is_a {
                let ghost prev = added@;
                let f = file.to_owned();
                let ghost fx = f;
                added.push(f);
                proof {
                    prev.lemma_push_map_commute(|l: String| l@, fx);
                    assert(added@.map_values(|l: String| l@) =~= prev.map_values(|l: String| l@)
                        + seq![h.skip(3)]);
                }
            } else if is_m {
                let ghost prev = modified@;
                let f = file.to_owned();
                let ghost fx = f;
                modified.push(f);
                proof {
                    prev.lemma_push_map_commute(|l: String| l@, fx);
                    assert(modified@.map_values(|l: String| l@) =~= prev.map_values(
                        |l: String| l@,
                    ) + seq![h.skip(3)]);
                }
            } else if is_d {
                let ghost prev = deleted@;
                let f = file.to_owned();
                let ghost fx = f;
                deleted.push(f);
                proof {
                    prev.lemma_push_map_commute(|l: String| l@, fx);
                    assert(deleted@.map_values(|l: String| l@) =~= prev.map_values(
                        |l: String| l@,
                    ) + seq![h.skip(3)]);
                }
            }
        }
        proof {
            assert(spec_added_files(lsv) =~= added@.map_values(|l: String| l@)
                + spec_added_files(lsv.skip(i + 1)));
            assert(spec_modified_files(lsv) =~= modified@.map_values(|l: String| l@)
                + spec_modified_files(lsv.skip(i + 1)));
            assert(spec_deleted_files(lsv) =~= deleted@.map_values(|l: String| l@)
                + spec_deleted_files(lsv.skip(i + 1)));
        }
        i += 1;
    }
    proof {
        assert(lsv.skip(lsv.len() as int) =~= Seq::<Seq<char>>::empty());
        assert(added@.map_values(|l: String| l@) =~= spec_added_files(lsv));
        assert(modified@.map_values(|l: String| l@) =~= spec_modified_files(lsv));
        assert(deleted@.map_values(|l: String| l@) =~= spec_deleted_files(lsv));
    }
    (added, modified, deleted)
}

/// The change summary: a section per non-empty category, files joined with
/// commas, sections joined with newlines; or a no-changes note.
pub open spec fn spec_porcelain_summary(ls: Seq<Seq<char>>) -> Seq<char> {
    let a = spec_added_files(ls);
    let m = spec_modified_files(ls);
    let d = spec_deleted_files(ls);
    let sections = (if a.len() > 0 {
        seq!["Added: "@ + spec_join_sep(a, ", "@)]
    } else {
        Seq::empty()
    }) + (if m.len() > 0 {
        seq!["Modified: "@ + spec_join_sep(m, ", "@)]
    } else {
        Seq::empty()
    }) + (if d.len() > 0 {
        seq!["Deleted: "@ + spec_join_sep(d, ", "@)]
    } else {
        Seq::empty()
    });
    if sections.len() == 0 {
        "No changes"@
    } else {
        spec_join_sep(sections, "\n"@)
    }
}

/// Summarize `git status --porcelain` output.
pub fn summarize_porcelain(status_text: &str) -> (r: String)
    ensures
        r@ == spec_porcelain_summary(spec_lines(status_text@)),
{
    let (added, modified, deleted) = parse_porcelain(status_text);
    let mut sections: Vec<String> = Vec::new();
    let ghost a = spec_added_files(spec_lines(status_text@));
    let ghost m = spec_modified_files(spec_lines(status_text@));
    let ghost d = spec_deleted_files(spec_lines(status_text@));
    if added.len() > 0 {
        let mut s = "Added: ".to_owned();
        s.append(join_with(&added, ", ").as_str());
        sections.push(s);
    }
    if modified.len() > 0 {
        let mut s = "Modified: ".to_owned();
        s.append(join_with(&modified, ", ").as_str());
        sections.push(s);
    }
    if deleted.len() > 0 {
        let mut s = "Deleted: ".to_owned();
        s.append(join_with(&deleted, ", ").as_str());
        sections.push(s);
    }
    proof {
        assert(sections@.map_values(|l: String| l@) =~= (if a.len() > 0 {
            seq!["Added: "@ + spec_join_sep(a, ", "@)]
        } else {
            Seq::<Seq<char>>::empty()
        }) + (if m.len() > 0 {
            seq!["Modified: "@ + spec_join_sep(m, ", "@)]
        } else {
            Seq::<Seq<char>>::empty()
        }) + (if d.len() > 0 {
            seq!["Deleted: "@ + spec_join_sep(d, ", "@)]
        } else {
            Seq::<Seq<char>>::empty()
        }));
    }
    if sections.len() == 0 {
        "No changes".to_owned()
    } else {
        join_with(&sections, "\n")
    }
}

/// Count the lines of a command's output.
pub fn count_lines(s: &str) -> (r: usize)
    ensures
        r == spec_lines(s@).len(),
{
    let lines = split_lines(s);
    let ghost lsv = lines@.map_values(|l: String| l@);
    assert(lsv.len() == lines@.len());
    lines.len()
}

/// Assemble one worktree's status record from what the caller observed: the
/// worktree is active exactly when its porcelain status output has lines.
pub fn build_worktree_status(
    name: &str,
    path: &str,
    branch: &str,
    status_output: &str,
    last_change: Option<String>,
    current_task: Option<String>,
) -> (r: WorktreeStatus)
    ensures
        r.name@ == name@,
        r.path@ == path@,
        r.branch@ == branch@,
        r.files_changed == spec_lines(status_output@).len(),
        spec_lines(status_output@).len() > 0 ==> r.status@ == "active"@,
        spec_lines(status_output@).len() == 0 ==> r.status@ == "idle"@,
        r.last_change == last_change,
        r.current_task == current_task,
{
    let files_changed = count_lines(status_output);
    WorktreeStatus {
        name: name.to_owned(),
        path: path.to_owned(),
        status: if files_changed > 0 {
            "active".to_owned()
        } else {
            "idle".to_owned()
        },
        last_change,
        files_changed,
        current_task,
        branch: branch.to_owned(),
    }
}

/// The first task listed under a `## Specific Tasks` heading: the first
/// following line that starts with `1.`, with that numbering and the
/// surrounding whitespace stripped. A later heading ends the search.
pub open spec fn spec_task(ls: Seq<Seq<char>>, in_tasks: bool) -> Option<Seq<char>>
    decreases ls.len(),
{
    if ls.len() == 0 {
        None
    } else if spec_starts_with(ls[0], "## Specific Tasks"@) {
        spec_task(ls.skip(1), true)
    } else if in_tasks && spec_starts_with(ls[0], "1."@) {
        Some(spec_trim(spec_strip_prefix_all(ls[0], "1."@)))
    } else if in_tasks && spec_starts_with(ls[0], "##"@) {
        None
    } else {
        spec_task(ls.skip(1), in_tasks)
    }
}

/// Extract the current task from a worktree's notes file.
pub fn extract_task_from_content(content: &str) -> (r: Option<String>)
    ensures
        r matches Some(s) ==> spec_task(spec_lines(content@), false) matches Some(t) && s@ == t,
        r is None ==> spec_task(spec_lines(content@), false) is None,
{
    let lines = split_lines(content);
    let ghost lsv = lines@.map_values(|l: String| l@);
    let mut in_tasks = false;
    let mut i: usize = 0;
    proof {
        assert(lsv.skip(0) =~= lsv);
    }
    while i < lines.len()
        invariant
            lsv == lines@.map_values(|l: String| l@),
            lsv == spec_lines(content@),
            i <= lsv.len(),
            spec_task(lsv.skip(i as int), in_tasks) == spec_task(lsv, false),
        decreases lsv.len() - i,
    {
        let ghost h = lsv[i as int];
        proof {
            assert(lsv.skip(i as int)[0] == h);
            assert(lsv.skip(i as int).skip(1) =~= lsv.skip(i + 1));
        }
        if starts_with(lines[i].as_str(), "## Specific Tasks") {
            in_tasks = true;
        } else if in_tasks && starts_with(lines[i].as_str(), "1.") {
            let stripped = strip_prefix_all(lines[i].as_str(), "1.");
            let trimmed = trim_str(stripped.as_str());
            return Some(trimmed);
        } else if in_tasks && starts_with(lines[i].as_str(), "##") {
            return None;
        }
        i += 1;
    }
    proof {
        assert(lsv.skip(lsv.len() as int) =~= Seq::<Seq<char>>::empty());
    }
    None
}

/// The section heading for one worktree's aggregated tasks.
pub open spec fn spec_task_section(name: Seq<char>, content: Seq<char>) -> Seq<char> {
    "## Worktree: "@ + name + "\n\n"@ + content
}

/// Aggregate the task notes of many worktrees: one headed section each,
/// joined with horizontal rules.
pub fn aggregate_task_sections(entries: &Vec<(String, String)>) -> (r: String)
    ensures
        r@ == spec_join_sep(
            entries@.map_values(|e: (String, String)| spec_task_section(e.0@, e.1@)),
            "\n\n---\n\n"@,
        ),
{
    let mut sections: Vec<String> = Vec::new();
    let mut i: usize = 0;
    while i < entries.len()
        invariant
            i <= entries@.len(),
            sections@.map_values(|l: String| l@) =~= entries@.take(i as int).map_values(
                |e: (String, String)| spec_task_section(e.0@, e.1@),
            ),
        decreases entries@.len() - i,
    {
        let mut s = "## Worktree: ".to_owned();
        s.append(entries[i].0.as_str());
        s.append("\n\n");
        s.append(entries[i].1.as_str());
        assert(s@ == spec_task_section(entries@[i as int].0@, entries@[i as int].1@));
        let ghost prev = sections@;
        let ghost sx = s;
        sections.push(s);
        proof {
            prev.lemma_push_map_commute(|l: String| l@, sx);
            entries@.lemma_map_take_succ(
                |e: (String, String)| spec_task_section(e.0@, e.1@),
                i as int,
            );
            assert(sections@.map_values(|l: String| l@) =~= entries@.take(i + 1).map_values(
                |e: (String, String)| spec_task_section(e.0@, e.1@),
            ));
        }
        i += 1;
    }
    proof {
        assert(entries@.take(entries@.len() as int) =~= entries@);
    }
    join_with(&sections, "\n\n---\n\n")
}

} // verus!
