//! Raw-text line accounting: splitting source into lines, the
//! trimmed-emptiness blank test, and the prefix heuristic used for comment
//! lines when no syntax tree is available.

use vstd::prelude::*;

use crate::text::{is_space, spec_is_space, str_chars_vec, string_from_chars};

verus! {

/// A line with a trailing carriage return dropped.
pub open spec fn spec_strip_cr(l: Seq<char>) -> Seq<char> {
    if l.len() > 0 && l[l.len() - 1] == '\r' {
        l.drop_last()
    } else {
        l
    }
}

/// The lines of `s` from an accumulated open line `cur`: lines split at
/// `\n`, each with a trailing `\r` dropped, the final line ending optional.
pub open spec fn spec_lines_from(s: Seq<char>, cur: Seq<char>) -> Seq<Seq<char>>
    decreases s.len(),
{
    if s.len() == 0 {
        if cur.len() == 0 {
            Seq::<Seq<char>>::empty()
        } else {
            seq![cur]
        }
    } else if s[0] == '\n' {
        seq![spec_strip_cr(cur)] + spec_lines_from(s.skip(1), Seq::<char>::empty())
    } else {
        spec_lines_from(s.skip(1), cur.push(s[0]))
    }
}

/// The lines of a source text.
pub open spec fn spec_lines(s: Seq<char>) -> Seq<Seq<char>> {
    spec_lines_from(s, Seq::<char>::empty())
}

/// The views of a list of line strings.
pub open spec fn line_views(v: Seq<String>) -> Seq<Seq<char>> {
    v.map_values(|l: String| l@)
}

/// Splits source text into its lines.
pub fn split_source_lines(source: &str) -> (r: Vec<String>)
    ensures
        line_views(r@) == spec_lines(source@),
{
    let cs = str_chars_vec(source);
    let n = cs.len();
    let mut out: Vec<String> = Vec::new();
    let mut cur: Vec<char> = Vec::new();
    let mut i: usize = 0;
    proof {
        assert(source@.skip(0) =~= source@);
        assert(line_views(out@) + spec_lines_from(source@, cur@) =~~= spec_lines(source@));
    }
    while i < n
        invariant
            n == cs@.len(),
            cs@ == source@,
            i <= n,
            line_views(out@) + spec_lines_from(source@.skip(i as int), cur@) == spec_lines(
                source@,
            ),
        decreases n - i,
    {
        let c = cs[i];
        let ghost rest = source@.skip(i as int);
        let ghost cur0 = cur@;
        let ghost views0 = line_views(out@);
        proof {
            assert(rest[0] == source@[i as int]);
            assert(rest.skip(1) =~= source@.skip(i + 1));
        }
        if c == '\n' {
            let mut line = cur;
            if line.len() > 0 && line[line.len() - 1] == '\r' {
                line.pop();
            }
            proof {
                assert(line@ == spec_strip_cr(cur0));
            }
            let s = string_from_chars(&line);
            out.push(s);
            cur = Vec::new();
            proof {
                assert(line_views(out@) =~~= views0 + seq![spec_strip_cr(cur0)]);
                assert(spec_lines_from(rest, cur0) == seq![spec_strip_cr(cur0)]
                    + spec_lines_from(source@.skip(i + 1), Seq::<char>::empty()));
                assert(line_views(out@) + spec_lines_from(source@.skip(i + 1), cur@)
                    =~~= spec_lines(source@));
            }
        } else {
            cur.push(c);
            proof {
                assert(cur@ == cur0.push(c));
                assert(spec_lines_from(rest, cur0) == spec_lines_from(
                    source@.skip(i + 1),
                    cur@,
                ));
            }
        }
        i += 1;
    }
    proof {
        assert(source@.skip(n as int) =~= Seq::<char>::empty());
    }
    if cur.len() > 0 {
        let ghost views0 = line_views(out@);
        let ghost cur0 = cur@;
        let s = string_from_chars(&cur);
        out.push(s);
        proof {
            assert(line_views(out@) =~~= views0 + seq![cur0]);
            assert(spec_lines_from(Seq::<char>::empty(), cur0) == seq![cur0]);
            assert(line_views(out@) =~~= spec_lines(source@));
        }
    } else {
        proof {
            assert(cur@.len() == 0);
            assert(spec_lines_from(Seq::<char>::empty(), cur@) =~~= Seq::<Seq<char>>::empty());
            assert(line_views(out@) =~~= spec_lines(source@));
        }
    }
    out
}

/// Leading whitespace dropped.
pub open spec fn spec_trim_start(s: Seq<char>) -> Seq<char>
    decreases s.len(),
{
    if s.len() > 0 && spec_is_space(s[0]) {
        spec_trim_start(s.skip(1))
    } else {
        s
    }
}

/// Trailing whitespace dropped.
pub open spec fn spec_trim_end(s: Seq<char>) -> Seq<char>
    decreases s.len(),
{
    if s.len() > 0 && spec_is_space(s[s.len() - 1]) {
        spec_trim_end(s.drop_last())
    } else {
        s
    }
}

/// Leading and trailing whitespace dropped.
pub open spec fn spec_trim(s: Seq<char>) -> Seq<char> {
    spec_trim_end(spec_trim_start(s))
}

/// A line is blank when nothing is left after trimming.
pub open spec fn spec_is_blank(l: Seq<char>) -> bool {
    spec_trim(l).len() == 0
}

proof fn lemma_trim_start_skip(s: Seq<char>, a: int)
    requires
        0 <= a <= s.len(),
        forall|j: int| 0 <= j < a ==> spec_is_space(s[j]),
        a < s.len() ==> !spec_is_space(s[a]),
    ensures
        spec_trim_start(s) == s.skip(a),
    decreases a,
{
    if a == 0 {
        if s.len() > 0 {
        }
        assert(s.skip(0) =~= s);
    } else {
        assert(spec_is_space(s[0]));
        assert(spec_trim_start(s) == spec_trim_start(s.skip(1)));
        lemma_trim_start_skip(s.skip(1), a - 1);
        assert(s.skip(1).skip(a - 1) =~= s.skip(a));
    }
}

pub(crate) proof fn lemma_trim_end_take(s: Seq<char>, b: int)
    requires
        0 <= b <= s.len(),
        forall|j: int| b <= j < s.len() ==> spec_is_space(s[j]),
        b > 0 ==> !spec_is_space(s[b - 1]),
    ensures
        spec_trim_end(s) == s.take(b),
    decreases s.len() - b,
{
    if b == s.len() {
        if b > 0 {
        }
        assert(s.take(b) =~= s);
    } else {
        assert(spec_is_space(s[s.len() - 1]));
        assert(spec_trim_end(s) == spec_trim_end(s.drop_last()));
        lemma_trim_end_take(s.drop_last(), b);
        assert(s.drop_last().take(b) =~= s.take(b));
    }
}

/// Trims the whitespace off both ends of a line.
pub fn trim_chars(cs: &Vec<char>) -> (r: Vec<char>)
    ensures
        r@ == spec_trim(cs@),
{
    let n = cs.len();
    let mut a: usize = 0;
    while a < n && is_space(cs[a])
        invariant
            n == cs@.len(),
            a <= n,
            forall|j: int| 0 <= j < a ==> spec_is_space(cs@[j]),
        decreases n - a,
    {
        a += 1;
    }
    proof {
        lemma_trim_start_skip(cs@, a as int);
    }
    let mut b: usize = n;
    while b > a && is_space(cs[b - 1])
        invariant
            n == cs@.len(),
            a <= b <= n,
            forall|j: int| b <= j < n ==> spec_is_space(cs@[j]),
        decreases b,
    {
        b -= 1;
    }
    proof {
        lemma_trim_end_take(cs@.skip(a as int), b - a);
    }
    let mut out: Vec<char> = Vec::new();
    let mut i: usize = a;
    while i < b
        invariant
            n == cs@.len(),
            a <= i <= b <= n,
            out@ =~= cs@.subrange(a as int, i as int),
        decreases b - i,
    {
        out.push(cs[i]);
        i += 1;
    }
    proof {
        assert(cs@.subrange(a as int, b as int) =~= cs@.skip(a as int).take(b - a));
    }
    out
}

/// Whether a sequence begins with the given prefix.
pub open spec fn spec_starts_with(s: Seq<char>, p: Seq<char>) -> bool {
    p.len() <= s.len() && s.subrange(0, p.len() as int) == p
}

fn chars_start_with(cs: &Vec<char>, prefix: &Vec<char>) -> (r: bool)
    ensures
        r == spec_starts_with(cs@, prefix@),
{
    let m = prefix.len();
    if m > cs.len() {
        return false;
    }
    let mut i: usize = 0;
    while i < m
        invariant
            m == prefix@.len(),
            m <= cs@.len(),
            i <= m,
            forall|j: int| 0 <= j < i ==> cs@[j] == prefix@[j],
        decreases m - i,
    {
        if cs[i] != prefix[i] {
            proof {
                assert(cs@.subrange(0, m as int)[i as int] != prefix@[i as int]);
            }
            return false;
        }
        i += 1;
    }
    proof {
        assert(cs@.subrange(0, m as int) =~= prefix@);
    }
    true
}

/// The line-prefix heuristic for comment lines, applied to an
/// already-trimmed line.
pub open spec fn spec_is_comment_line(l: Seq<char>) -> bool {
    spec_starts_with(l, "//"@) || spec_starts_with(l, "#"@) || spec_starts_with(l, "/*"@)
        || spec_starts_with(l, "*/"@) || spec_starts_with(l, "*"@) || spec_starts_with(
        l,
        "<!--"@,
    ) || spec_starts_with(l, "-->"@)
}

/// Tests whether a line looks like a comment, by its leading characters.
pub fn is_comment_line(line: &str) -> (r: bool)
    ensures
        r == spec_is_comment_line(line@),
{
    let cs = str_chars_vec(line);
    chars_start_with(&cs, &str_chars_vec("//")) || chars_start_with(&cs, &str_chars_vec("#"))
        || chars_start_with(&cs, &str_chars_vec("/*")) || chars_start_with(
        &cs,
        &str_chars_vec("*/"),
    ) || chars_start_with(&cs, &str_chars_vec("*")) || chars_start_with(
        &cs,
        &str_chars_vec("<!--"),
    ) || chars_start_with(&cs, &str_chars_vec("-->"))
}

/// How many lines are blank.
pub open spec fn spec_blank_count(lines: Seq<Seq<char>>) -> nat
    decreases lines.len(),
{
    if lines.len() == 0 {
        0
    } else {
        spec_blank_count(lines.drop_last()) + (if spec_is_blank(lines.last()) {
            1nat
        } else {
            0nat
        })
    }
}

/// How many lines the prefix heuristic classifies as comments.
pub open spec fn spec_heuristic_comment_count(lines: Seq<Seq<char>>) -> nat
    decreases lines.len(),
{
    if lines.len() == 0 {
        0
    } else {
        spec_heuristic_comment_count(lines.drop_last()) + (if !spec_is_blank(lines.last())
            && spec_is_comment_line(spec_trim(lines.last())) {
            1nat
        } else {
            0nat
        })
    }
}

/// How many lines are neither blank nor heuristic comments.
pub open spec fn spec_heuristic_code_count(lines: Seq<Seq<char>>) -> nat
    decreases lines.len(),
{
    if lines.len() == 0 {
        0
    } else {
        spec_heuristic_code_count(lines.drop_last()) + (if !spec_is_blank(lines.last())
            && !spec_is_comment_line(spec_trim(lines.last())) {
            1nat
        } else {
            0nat
        })
    }
}

/// The number of non-blank lines.
pub open spec fn spec_non_blank_count(s: Seq<char>) -> int {
    spec_lines(s).len() - spec_blank_count(spec_lines(s))
}

/// Heuristic line-counting results, used as the fallback when no syntax tree
/// is available.
#[derive(Debug, Clone, Copy, PartialEq, Eq, Structural)]
pub struct LineCounts {
    /// Lines that are neither blank nor comment-like.
    pub code: usize,
    /// Lines empty after trimming.
    pub blank: usize,
    /// Non-blank lines that start like a comment.
    pub comments: usize,
}

/// Classifies every line of the source as code, blank or comment, by the
/// trimmed-emptiness test and the comment-prefix heuristic.
pub fn count_lines(source: &str) -> (r: LineCounts)
    ensures
        r.blank == spec_blank_count(spec_lines(source@)),
        r.comments == spec_heuristic_comment_count(spec_lines(source@)),
        r.code == spec_heuristic_code_count(spec_lines(source@)),
{
    let lines = split_source_lines(source);
    let n = lines.len();
    let mut code: usize = 0;
    let mut blank: usize = 0;
    let mut comments: usize = 0;
    let mut i: usize = 0;
    while i < n
        invariant
            n == lines@.len(),
            line_views(lines@) == spec_lines(source@),
            i <= n,
            code <= i && blank <= i && comments <= i,
            blank == spec_blank_count(line_views(lines@).take(i as int)),
            comments == spec_heuristic_comment_count(line_views(lines@).take(i as int)),
            code == spec_heuristic_code_count(line_views(lines@).take(i as int)),
        decreases n - i,
    {
        proof {
            assert(line_views(lines@).take(i + 1).drop_last() =~= line_views(lines@).take(
                i as int,
            ));
            assert(line_views(lines@).take(i + 1).last() == lines@[i as int]@);
        }
        let cs = str_chars_vec(lines[i].as_str());
        let trimmed = trim_chars(&cs);
        if trimmed.len() == 0 {
            blank += 1;
        } else {
            let t = string_from_chars(&trimmed);
            if is_comment_line(t.as_str()) {
                comments += 1;
            } else {
                code += 1;
            }
        }
        i += 1;
    }
    proof {
        assert(line_views(lines@).take(n as int) =~= line_views(lines@));
    }
    LineCounts { code, blank, comments }
}

/// Counting blanks never exceeds the number of lines.
pub proof fn lemma_blank_count_le(lines: Seq<Seq<char>>)
    ensures
        spec_blank_count(lines) <= lines.len(),
    decreases lines.len(),
{
    if lines.len() > 0 {
        lemma_blank_count_le(lines.drop_last());
    }
}

} // verus!
