//! Verified text utilities shared by the logging pipeline and the
//! text-processing tools: line splitting and joining, substring search,
//! ASCII case folding, prefix and suffix stripping, and decimal rendering.

use vstd::prelude::*;
use vstd::string::StringExecFns;
use vstd::string::StrSliceExecFns;

verus! {

/// ASCII lower-casing of a single character; characters outside 'A'..'Z'
/// are unchanged.
pub open spec fn spec_lower_char(c: char) -> char {
    if 'A' <= c && c <= 'Z' {
        ((c as u8) + 32) as char
    } else {
        c
    }
}

/// Executable ASCII lower-casing of one character.
pub fn lower_char(c: char) -> (r: char)
    ensures
        r == spec_lower_char(c),
{
    if 'A' <= c && c <= 'Z' {
        ((c as u8) + 32) as char
    } else {
        c
    }
}

/// `pat` occurs in `text` at position `i`, comparing ASCII-case-insensitively
/// on the `text` side (`pat` is expected to be lower-case already).
pub open spec fn ci_matches_at(text: Seq<char>, pat: Seq<char>, i: int) -> bool {
    &&& 0 <= i
    &&& i + pat.len() <= text.len()
    &&& forall|j: int| 0 <= j < pat.len() ==> spec_lower_char(text[i + j]) == pat[j]
}

/// `pat` occurs somewhere in `text`, ASCII-case-insensitively.
pub open spec fn spec_contains_ci(text: Seq<char>, pat: Seq<char>) -> bool {
    exists|i: int| ci_matches_at(text, pat, i)
}

/// Case-insensitive substring search: does `text`, lower-cased ASCII-wise,
/// contain `pat`?
pub fn contains_ci(text: &str, pat: &str) -> (r: bool)
    ensures
        r == spec_contains_ci(text@, pat@),
{
    let n = text.unicode_len();
    let m = pat.unicode_len();
    if m > n {
        assert(forall|i: int| !ci_matches_at(text@, pat@, i));
        return false;
    }
    let mut i: usize = 0;
    while i <= n - m
        invariant
            m <= n,
            n == text@.len(),
            m == pat@.len(),
            i <= n - m + 1,
            forall|k: int| 0 <= k < i ==> !ci_matches_at(text@, pat@, k),
        decreases n - m + 1 - i,
    {
        let mut j: usize = 0;
        let mut hit = true;
        while j < m
            invariant
                m <= n,
                n == text@.len(),
                m == pat@.len(),
                i + m <= n,
                j <= m,
                hit ==> forall|l: int| 0 <= l < j ==> spec_lower_char(text@[i + l]) == pat@[l],
                !hit ==> !ci_matches_at(text@, pat@, i as int),
            decreases m - j,
        {
            if hit {
                let tc = lower_char(text.get_char(i + j));
                let pc = pat.get_char(j);
                if tc != pc {
                    assert(spec_lower_char(text@[i as int + j as int]) != pat@[j as int]);
                    hit = false;
                }
            }
            j += 1;
        }
        if hit {
            assert(ci_matches_at(text@, pat@, i as int));
            return true;
        }
        i += 1;
    }
    assert forall|k: int| !ci_matches_at(text@, pat@, k) by {
        if 0 <= k < i {
        } else if k >= i {
            assert(k + pat@.len() > text@.len());
        }
    }
    false
}

/// `pat` occurs in `text` at position `i`.
pub open spec fn matches_at(text: Seq<char>, pat: Seq<char>, i: int) -> bool {
    &&& 0 <= i
    &&& i + pat.len() <= text.len()
    &&& forall|j: int| 0 <= j < pat.len() ==> text[i + j] == pat[j]
}

/// `pat` occurs somewhere in `text`.
pub open spec fn spec_contains(text: Seq<char>, pat: Seq<char>) -> bool {
    exists|i: int| matches_at(text, pat, i)
}

/// Substring search: does `text` contain `pat`?
pub fn contains_str(text: &str, pat: &str) -> (r: bool)
    ensures
        r == spec_contains(text@, pat@),
{
    let n = text.unicode_len();
    let m = pat.unicode_len();
    if m > n {
        assert(forall|i: int| !matches_at(text@, pat@, i));
        return false;
    }
    let mut i: usize = 0;
    while i <= n - m
        invariant
            m <= n,
            n == text@.len(),
            m == pat@.len(),
            i <= n - m + 1,
            forall|k: int| 0 <= k < i ==> !matches_at(text@, pat@, k),
        decreases n - m + 1 - i,
    {
        let mut j: usize = 0;
        let mut hit = true;
        while j < m
            invariant
                m <= n,
                n == text@.len(),
                m == pat@.len(),
                i + m <= n,
                j <= m,
                hit ==> forall|l: int| 0 <= l < j ==> text@[i + l] == pat@[l],
                !hit ==> !matches_at(text@, pat@, i as int),
            decreases m - j,
        {
            if hit {
                let tc = text.get_char(i + j);
                let pc = pat.get_char(j);
                if tc != pc {
                    assert(text@[i as int + j as int] != pat@[j as int]);
                    hit = false;
                }
            }
            j += 1;
        }
        if hit {
            assert(matches_at(text@, pat@, i as int));
            return true;
        }
        i += 1;
    }
    assert forall|k: int| !matches_at(text@, pat@, k) by {
        if 0 <= k < i {
        } else if k >= i {
            assert(k + pat@.len() > text@.len());
        }
    }
    false
}

/// `p` is a prefix of `s`.
pub open spec fn spec_starts_with(s: Seq<char>, p: Seq<char>) -> bool {
    p.len() <= s.len() && s.take(p.len() as int) == p
}

/// `p` is a suffix of `s`.
pub open spec fn spec_ends_with(s: Seq<char>, p: Seq<char>) -> bool {
    p.len() <= s.len() && s.skip(s.len() - p.len()) == p
}

/// Does `s` start with `p`?
pub fn starts_with(s: &str, p: &str) -> (r: bool)
    ensures
        r == spec_starts_with(s@, p@),
{
    let n = s.unicode_len();
    let m = p.unicode_len();
    if m > n {
        return false;
    }
    let mut j: usize = 0;
    while j < m
        invariant
            m <= n,
            n == s@.len(),
            m == p@.len(),
            j <= m,
            forall|l: int| 0 <= l < j ==> s@[l] == p@[l],
        decreases m - j,
    {
        if s.get_char(j) != p.get_char(j) {
            assert(s@.take(m as int)[j as int] != p@[j as int]);
            return false;
        }
        j += 1;
    }
    assert(s@.take(m as int) =~= p@);
    true
}

/// Does `s` end with `p`?
pub fn ends_with(s: &str, p: &str) -> (r: bool)
    ensures
        r == spec_ends_with(s@, p@),
{
    let n = s.unicode_len();
    let m = p.unicode_len();
    if m > n {
        return false;
    }
    let off = n - m;
    let mut j: usize = 0;
    while j < m
        invariant
            m <= n,
            n == s@.len(),
            m == p@.len(),
            off == n - m,
            j <= m,
            forall|l: int| 0 <= l < j ==> s@[off + l] == p@[l],
        decreases m - j,
    {
        if s.get_char(off + j) != p.get_char(j) {
            assert(s@.skip(off as int)[j as int] != p@[j as int]);
            return false;
        }
        j += 1;
    }
    assert(s@.skip(off as int) =~= p@);
    true
}

/// Are two string slices equal as character sequences?
pub fn str_eq(a: &str, b: &str) -> (r: bool)
    ensures
        r == (a@ == b@),
{
    let x = a.to_owned();
    let y = b.to_owned();
    x == y
}

/// ASCII whitespace, as stripped by trimming.
pub open spec fn is_ws(c: char) -> bool {
    c == ' ' || c == '\t' || c == '\r' || c == '\n'
}

/// Executable test for ASCII whitespace.
pub fn is_ws_char(c: char) -> (b: bool)
    ensures
        b == is_ws(c),
{
    c == ' ' || c == '\t' || c == '\r' || c == '\n'
}

/// Number of whitespace characters at the front of `s`.
pub open spec fn leading_ws(s: Seq<char>) -> int
    decreases s.len(),
{
    if s.len() > 0 && is_ws(s[0]) {
        1 + leading_ws(s.skip(1))
    } else {
        0
    }
}

/// Number of whitespace characters at the back of `s`.
pub open spec fn trailing_ws(s: Seq<char>) -> int
    decreases s.len(),
{
    if s.len() > 0 && is_ws(s.last()) {
        1 + trailing_ws(s.drop_last())
    } else {
        0
    }
}

/// `s` with ASCII whitespace removed from both ends.
pub open spec fn spec_trim(s: Seq<char>) -> Seq<char> {
    if leading_ws(s) == s.len() {
        Seq::empty()
    } else {
        s.subrange(leading_ws(s), s.len() - trailing_ws(s))
    }
}

/// The scan characterization of `leading_ws`: if everything before `a` is
/// whitespace and position `a` (when it exists) is not, the whitespace prefix
/// has length exactly `a`.
pub proof fn lemma_leading_ws_at(s: Seq<char>, a: int)
    requires
        0 <= a <= s.len(),
        forall|j: int| 0 <= j < a ==> is_ws(s[j]),
        a < s.len() ==> !is_ws(s[a]),
    ensures
        leading_ws(s) == a,
    decreases a,
{
    if a == 0 {
    } else {
        assert(is_ws(s[0]));
        lemma_leading_ws_at(s.skip(1), a - 1);
    }
}

/// The scan characterization of `trailing_ws`, counting from the back.
pub proof fn lemma_trailing_ws_at(s: Seq<char>, b: int)
    requires
        0 <= b <= s.len(),
        forall|j: int| b <= j < s.len() ==> is_ws(s[j]),
        b > 0 ==> !is_ws(s[b - 1]),
    ensures
        trailing_ws(s) == s.len() - b,
    decreases s.len() - b,
{
    if b == s.len() {
    } else {
        assert(is_ws(s.last()));
        lemma_trailing_ws_at(s.drop_last(), b);
    }
}

/// `s` with ASCII whitespace trimmed from both ends.
pub fn trim_str(s: &str) -> (r: String)
    ensures
        r@ == spec_trim(s@),
{
    let n = s.unicode_len();
    let mut a: usize = 0;
    while a < n && is_ws_char(s.get_char(a))
        invariant
            n == s@.len(),
            a <= n,
            forall|j: int| 0 <= j < a ==> is_ws(s@[j]),
        decreases n - a,
    {
        a += 1;
    }
    if a == n {
        proof {
            lemma_leading_ws_at(s@, a as int);
        }
        return String::new();
    }
    proof {
        lemma_leading_ws_at(s@, a as int);
    }
    let mut b: usize = n;
    while b > a && is_ws_char(s.get_char(b - 1))
        invariant
            n == s@.len(),
            a < n,
            a <= b <= n,
            !is_ws(s@[a as int]),
            forall|j: int| b <= j < n ==> is_ws(s@[j]),
        decreases b,
    {
        b -= 1;
    }
    assert(b > a);
    proof {
        lemma_trailing_ws_at(s@, b as int);
    }
    let piece = s.substring_char(a, b);
    piece.to_owned()
}

/// `s` with every leading occurrence of `p` removed.
pub open spec fn spec_strip_prefix_all(s: Seq<char>, p: Seq<char>) -> Seq<char>
    decreases s.len(),
{
    if p.len() > 0 && spec_starts_with(s, p) {
        spec_strip_prefix_all(s.skip(p.len() as int), p)
    } else {
        s
    }
}

/// `s` with every trailing occurrence of `p` removed.
pub open spec fn spec_strip_suffix_all(s: Seq<char>, p: Seq<char>) -> Seq<char>
    decreases s.len(),
{
    if p.len() > 0 && spec_ends_with(s, p) {
        spec_strip_suffix_all(s.take(s.len() - p.len()), p)
    } else {
        s
    }
}

/// Remove every leading occurrence of `p` from `s`.
pub fn strip_prefix_all(s: &str, p: &str) -> (r: String)
    ensures
        r@ == spec_strip_prefix_all(s@, p@),
{
    let mut cur = s.to_owned();
    let m = p.unicode_len();
    loop
        invariant
            m == p@.len(),
            spec_strip_prefix_all(cur@, p@) == spec_strip_prefix_all(s@, p@),
        decreases cur@.len(),
    {
        if m == 0 || !starts_with(cur.as_str(), p) {
            return cur;
        }
        let n = cur.unicode_len();
        assert(cur@.skip(m as int) == cur@.subrange(m as int, n as int));
        cur = cur.as_str().substring_char(m, n).to_owned();
    }
}

/// Remove every trailing occurrence of `p` from `s`.
pub fn strip_suffix_all(s: &str, p: &str) -> (r: String)
    ensures
        r@ == spec_strip_suffix_all(s@, p@),
{
    let mut cur = s.to_owned();
    let m = p.unicode_len();
    loop
        invariant
            m == p@.len(),
            spec_strip_suffix_all(cur@, p@) == spec_strip_suffix_all(s@, p@),
        decreases cur@.len(),
    {
        if m == 0 || !ends_with(cur.as_str(), p) {
            return cur;
        }
        let n = cur.unicode_len();
        assert(cur@.take(n - m) == cur@.subrange(0, n as int - m as int));
        cur = cur.as_str().substring_char(0, n - m).to_owned();
    }
}

/// Position of the first newline in `s`, or `s.len()` if there is none.
pub open spec fn first_nl(s: Seq<char>) -> int
    decreases s.len(),
{
    if s.len() == 0 {
        0
    } else if s[0] == '\n' {
        0
    } else {
        1 + first_nl(s.skip(1))
    }
}

/// `first_nl` lies between 0 and the length, marks a newline when it is
/// interior, and everything before it is newline-free.
pub proof fn lemma_first_nl_range(s: Seq<char>)
    ensures
        0 <= first_nl(s) <= s.len(),
        first_nl(s) < s.len() ==> s[first_nl(s)] == '\n',
        forall|j: int| 0 <= j < first_nl(s) ==> s[j] != '\n',
    decreases s.len(),
{
    if s.len() == 0 {
    } else if s[0] == '\n' {
    } else {
        lemma_first_nl_range(s.skip(1));
        assert forall|j: int| 0 <= j < first_nl(s) implies s[j] != '\n' by {
            if j > 0 {
                assert(s.skip(1)[j - 1] != '\n');
            }
        }
    }
}

/// The scan characterization of `first_nl`: if no newline stands before `k`
/// and `k` is a newline (or the end), the first newline is at `k`.
pub proof fn lemma_first_nl_at(s: Seq<char>, k: int)
    requires
        0 <= k <= s.len(),
        forall|j: int| 0 <= j < k ==> s[j] != '\n',
        k < s.len() ==> s[k] == '\n',
    ensures
        first_nl(s) == k,
    decreases k,
{
    if k == 0 {
        if s.len() > 0 && s[0] != '\n' {
            lemma_first_nl_range(s.skip(1));
        }
    } else {
        assert(s[0] != '\n');
        lemma_first_nl_at(s.skip(1), k - 1);
    }
}

/// Drop one carriage return from the end of a line, if present.
pub open spec fn strip_cr(l: Seq<char>) -> Seq<char> {
    if l.len() > 0 && l.last() == '\r' {
        l.drop_last()
    } else {
        l
    }
}

/// The lines of `s`, split at `'\n'` terminators; a terminator and one
/// carriage return just before it are dropped, and a final unterminated line
/// is kept whole. An empty text has no lines.
pub open spec fn spec_lines(s: Seq<char>) -> Seq<Seq<char>>
    decreases s.len(),
    via spec_lines_dec
{
    if s.len() == 0 {
        Seq::empty()
    } else if first_nl(s) == s.len() {
        seq![s]
    } else {
        seq![strip_cr(s.take(first_nl(s)))] + spec_lines(s.skip(first_nl(s) + 1))
    }
}

#[via_fn]
proof fn spec_lines_dec(s: Seq<char>) {
    lemma_first_nl_range(s);
}

/// Split `s` into its lines.
pub fn split_lines(s: &str) -> (r: Vec<String>)
    ensures
        r@.map_values(|l: String| l@) == spec_lines(s@),
{
    let n = s.unicode_len();
    let mut res: Vec<String> = Vec::new();
    let mut start: usize = 0;
    let mut i: usize = 0;
    proof {
        assert(s@.skip(0) =~= s@);
        assert(res@.map_values(|l: String| l@) + spec_lines(s@.skip(0)) =~= spec_lines(s@));
    }
    while i < n
        invariant
            n == s@.len(),
            start <= i <= n,
            forall|j: int| start <= j < i ==> s@[j] != '\n',
            res@.map_values(|l: String| l@) + spec_lines(s@.skip(start as int)) == spec_lines(
                s@,
            ),
        decreases n - i,
    {
        let c = s.get_char(i);
        if c == '\n' {
            let ghost rest = s@.skip(start as int);
            proof {
                lemma_first_nl_at(rest, i - start);
                assert(rest.take(i - start) =~= s@.subrange(start as int, i as int));
                assert(rest.skip(i - start + 1) =~= s@.skip(i + 1));
            }
            let end: usize = if i > start && s.get_char(i - 1) == '\r' {
                proof {
                    assert(rest.take(i - start).last() == '\r');
                    assert(strip_cr(rest.take(i - start)) =~= s@.subrange(
                        start as int,
                        i - 1,
                    ));
                }
                i - 1
            } else {
                proof {
                    if rest.take(i - start).len() > 0 {
                        assert(rest.take(i - start).last() == s@[i - 1]);
                    }
                    assert(strip_cr(rest.take(i - start)) =~= s@.subrange(
                        start as int,
                        i as int,
                    ));
                }
                i
            };
            let line = s.substring_char(start, end).to_owned();
            proof {
                assert(line@ == strip_cr(rest.take(i - start)));
            }
            res.push(line);
            proof {
                assert(res@.map_values(|l: String| l@) =~= old_map_plus(
                    res@.drop_last().map_values(|l: String| l@),
                    line@,
                ));
            }
            start = i + 1;
            i += 1;
            proof {
                assert(res@.map_values(|l: String| l@) + spec_lines(s@.skip(start as int))
                    =~= spec_lines(s@));
            }
        } else {
            i += 1;
        }
    }
    if start < n {
        let ghost rest = s@.skip(start as int);
        proof {
            lemma_first_nl_at(rest, n - start);
        }
        let line = s.substring_char(start, n).to_owned();
        proof {
            assert(line@ =~= rest);
        }
        res.push(line);
        proof {
            assert(res@.map_values(|l: String| l@) =~= old_map_plus(
                res@.drop_last().map_values(|l: String| l@),
                line@,
            ));
            assert(res@.map_values(|l: String| l@) =~= spec_lines(s@));
        }
    } else {
        proof {
            assert(s@.skip(start as int).len() == 0);
            assert(res@.map_values(|l: String| l@) =~= spec_lines(s@));
        }
    }
    res
}

/// A sequence extended by one element; spelled out so that proofs about
/// pushing onto a mapped sequence have a stable shape.
pub open spec fn old_map_plus(m: Seq<Seq<char>>, l: Seq<char>) -> Seq<Seq<char>> {
    m.push(l)
}

/// The lines of `ls` joined with single `'\n'` separators (no terminator at
/// the end).
pub open spec fn spec_join_nl(ls: Seq<Seq<char>>) -> Seq<char>
    decreases ls.len(),
{
    if ls.len() == 0 {
        Seq::empty()
    } else if ls.len() == 1 {
        ls[0]
    } else {
        ls[0] + seq!['\n'] + spec_join_nl(ls.skip(1))
    }
}

/// Joining after appending one line appends a separator and that line.
pub proof fn lemma_join_nl_push(ls: Seq<Seq<char>>, l: Seq<char>)
    ensures
        ls.len() == 0 ==> spec_join_nl(ls.push(l)) == l,
        ls.len() > 0 ==> spec_join_nl(ls.push(l)) == spec_join_nl(ls) + seq!['\n'] + l,
    decreases ls.len(),
{
    if ls.len() == 0 {
        assert(ls.push(l)[0] == l);
    } else if ls.len() == 1 {
        assert(ls.push(l).skip(1) =~= seq![l]);
        assert(seq![l].len() == 1 && seq![l][0] == l);
        assert(spec_join_nl(seq![l]) == l);
        assert(ls.push(l)[0] == ls[0]);
        assert(spec_join_nl(ls.push(l)) == ls[0] + seq!['\n'] + l);
    } else {
        lemma_join_nl_push(ls.skip(1), l);
        assert(ls.push(l).skip(1) =~= ls.skip(1).push(l));
        assert(spec_join_nl(ls) + seq!['\n'] + l =~= ls[0] + seq!['\n'] + (spec_join_nl(
            ls.skip(1),
        ) + seq!['\n'] + l));
    }
}

/// Join lines with `'\n'` separators.
pub fn join_lines(lines: &Vec<String>) -> (r: String)
    ensures
        r@ == spec_join_nl(lines@.map_values(|l: String| l@)),
{
    let ghost ls = lines@.map_values(|l: String| l@);
    let mut acc = String::new();
    let mut i: usize = 0;
    while i < lines.len()
        invariant
            ls == lines@.map_values(|l: String| l@),
            i <= lines@.len(),
            acc@ == spec_join_nl(ls.take(i as int)),
        decreases lines@.len() - i,
    {
        proof {
            reveal_strlit("\n");
            lemma_join_nl_push(ls.take(i as int), ls[i as int]);
            assert(ls.take(i as int).push(ls[i as int]) =~= ls.take(i + 1));
        }
        if i > 0 {
            assert(ls.take(i as int).len() > 0);
            acc.append("\n");
            proof {
                assert("\n"@ =~= seq!['\n']);
            }
        }
        acc.append(lines[i].as_str());
        assert(acc@ =~= spec_join_nl(ls.take(i + 1)));
        i += 1;
    }
    proof {
        assert(ls.take(lines@.len() as int) =~= ls);
    }
    acc
}

/// The pieces of `ls` joined with the separator `sep`.
pub open spec fn spec_join_sep(ls: Seq<Seq<char>>, sep: Seq<char>) -> Seq<char>
    decreases ls.len(),
{
    if ls.len() == 0 {
        Seq::empty()
    } else if ls.len() == 1 {
        ls[0]
    } else {
        ls[0] + sep + spec_join_sep(ls.skip(1), sep)
    }
}

/// Joining after appending one piece appends a separator and that piece.
pub proof fn lemma_join_sep_push(ls: Seq<Seq<char>>, sep: Seq<char>, l: Seq<char>)
    ensures
        ls.len() == 0 ==> spec_join_sep(ls.push(l), sep) == l,
        ls.len() > 0 ==> spec_join_sep(ls.push(l), sep) == spec_join_sep(ls, sep) + sep + l,
    decreases ls.len(),
{
    if ls.len() == 0 {
        assert(ls.push(l)[0] == l);
    } else if ls.len() == 1 {
        assert(ls.push(l).skip(1) =~= seq![l]);
        assert(seq![l].len() == 1 && seq![l][0] == l);
        assert(spec_join_sep(seq![l], sep) == l);
        assert(ls.push(l)[0] == ls[0]);
        assert(spec_join_sep(ls.push(l), sep) == ls[0] + sep + l);
    } else {
        lemma_join_sep_push(ls.skip(1), sep, l);
        assert(ls.push(l).skip(1) =~= ls.skip(1).push(l));
        assert(spec_join_sep(ls, sep) + sep + l =~= ls[0] + sep + (spec_join_sep(
            ls.skip(1),
            sep,
        ) + sep + l));
    }
}

/// Join pieces with a separator.
pub fn join_with(lines: &Vec<String>, sep: &str) -> (r: String)
    ensures
        r@ == spec_join_sep(lines@.map_values(|l: String| l@), sep@),
{
    let ghost ls = lines@.map_values(|l: String| l@);
    let mut acc = String::new();
    let mut i: usize = 0;
    while i < lines.len()
        invariant
            ls == lines@.map_values(|l: String| l@),
            i <= lines@.len(),
            acc@ == spec_join_sep(ls.take(i as int), sep@),
        decreases lines@.len() - i,
    {
        proof {
            lemma_join_sep_push(ls.take(i as int), sep@, ls[i as int]);
            assert(ls.take(i as int).push(ls[i as int]) =~= ls.take(i + 1));
        }
        if i > 0 {
            assert(ls.take(i as int).len() > 0);
            acc.append(sep);
        }
        acc.append(lines[i].as_str());
        assert(acc@ =~= spec_join_sep(ls.take(i + 1), sep@));
        i += 1;
    }
    proof {
        assert(ls.take(lines@.len() as int) =~= ls);
    }
    acc
}

/// The character for one decimal digit.
pub open spec fn spec_digit_char(d: int) -> char {
    if d == 0 {
        '0'
    } else if d == 1 {
        '1'
    } else if d == 2 {
        '2'
    } else if d == 3 {
        '3'
    } else if d == 4 {
        '4'
    } else if d == 5 {
        '5'
    } else if d == 6 {
        '6'
    } else if d == 7 {
        '7'
    } else if d == 8 {
        '8'
    } else {
        '9'
    }
}

/// Decimal rendering of a natural number, most significant digit first and
/// without leading zeros (a lone zero for 0).
pub open spec fn spec_dec(n: nat) -> Seq<char>
    decreases n,
{
    if n < 10 {
        seq![spec_digit_char(n as int)]
    } else {
        spec_dec(n / 10).push(spec_digit_char((n % 10) as int))
    }
}

fn digit_str(d: u64) -> (r: &'static str)
    requires
        d < 10,
    ensures
        r@ =~= seq![spec_digit_char(d as int)],
{
    proof {
        reveal_strlit("0");
        reveal_strlit("1");
        reveal_strlit("2");
        reveal_strlit("3");
        reveal_strlit("4");
        reveal_strlit("5");
        reveal_strlit("6");
        reveal_strlit("7");
        reveal_strlit("8");
        reveal_strlit("9");
    }
    match d {
        0 => "0",
        1 => "1",
        2 => "2",
        3 => "3",
        4 => "4",
        5 => "5",
        6 => "6",
        7 => "7",
        8 => "8",
        _ => "9",
    }
}

/// Decimal rendering of a `u64`.
pub fn u64_to_string(n: u64) -> (s: String)
    ensures
        s@ == spec_dec(n as nat),
    decreases n,
{
    if n < 10 {
        digit_str(n).to_owned()
    } else {
        let mut s = u64_to_string(n / 10);
        s.append(digit_str(n % 10));
        assert(s@ =~= spec_dec(n as nat));
        s
    }
}

/// Decimal rendering of a `usize`.
pub fn usize_to_string(n: usize) -> (s: String)
    ensures
        s@ == spec_dec(n as nat),
{
    let w = n as u64;
    u64_to_string(w)
}

/// Decimal rendering of a `u32`.
pub fn u32_to_string(n: u32) -> (s: String)
    ensures
        s@ == spec_dec(n as nat),
{
    let w = n as u64;
    u64_to_string(w)
}

} // verus!
