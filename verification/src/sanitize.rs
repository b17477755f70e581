//! The parse-only sanitization pass: rewriting the grammar-gap re-export
//! syntax, and escaping literal ampersands inside JSX text content, which
//! the TSX grammar treats as XML-like markup.

use vstd::prelude::*;

use crate::language::SupportedLanguage;
use crate::text::{
    is_ascii_alnum_char, is_ascii_alpha_char, is_ascii_digit_char, is_ascii_hexdigit_char,
    is_space, spec_is_ascii_alnum, spec_is_ascii_alpha, spec_is_ascii_digit,
    spec_is_ascii_hexdigit, spec_is_space, str_chars_vec, string_from_chars,
};

verus! {

// ---------------------------------------------------------------------------
// Plain-text replacement for the re-export grammar gap.
// ---------------------------------------------------------------------------

/// `s` with every occurrence of `pat` replaced by `rep`, scanning left to
/// right without overlap.
pub open spec fn spec_replace(s: Seq<char>, pat: Seq<char>, rep: Seq<char>) -> Seq<char>
    decreases s.len()
        when pat.len() > 0
{
    if s.len() == 0 {
        s
    } else if pat.len() <= s.len() && s.take(pat.len() as int) == pat {
        rep + spec_replace(s.skip(pat.len() as int), pat, rep)
    } else {
        seq![s[0]] + spec_replace(s.skip(1), pat, rep)
    }
}

/// Whether `pat` occurs in `cs` starting at `i`.
fn matches_at(cs: &Vec<char>, i: usize, pat: &Vec<char>) -> (r: bool)
    requires
        i <= cs@.len(),
    ensures
        r == (pat@.len() <= cs@.len() - i && cs@.skip(i as int).take(pat@.len() as int) == pat@),
{
    let m = pat.len();
    let n = cs.len();
    if m > n - i {
        return false;
    }
    let mut k: usize = 0;
    while k < m
        invariant
            m == pat@.len(),
            n == cs@.len(),
            i + m <= n,
            k <= m,
            forall|j: int| 0 <= j < k ==> cs@[i + j] == pat@[j],
        decreases m - k,
    {
        if cs[i + k] != pat[k] {
            proof {
                assert(cs@.skip(i as int).take(m as int)[k as int] != pat@[k as int]);
            }
            return false;
        }
        k += 1;
    }
    proof {
        assert(cs@.skip(i as int).take(m as int) =~= pat@);
    }
    true
}

/// Replaces every occurrence of `pat` in `s` by `rep`.
pub fn replace_all(s: &str, pat: &str, rep: &str) -> (r: String)
    requires
        pat@.len() > 0,
    ensures
        r@ == spec_replace(s@, pat@, rep@),
{
    let cs = str_chars_vec(s);
    let pv = str_chars_vec(pat);
    let rv = str_chars_vec(rep);
    let n = cs.len();
    let m = pv.len();
    let mut out: Vec<char> = Vec::new();
    let mut i: usize = 0;
    proof {
        assert(s@.skip(0) =~= s@);
    }
    while i < n
        invariant
            n == cs@.len(),
            m == pv@.len(),
            cs@ == s@,
            pv@ == pat@,
            rv@ == rep@,
            m > 0,
            i <= n,
            out@ + spec_replace(s@.skip(i as int), pat@, rep@) == spec_replace(s@, pat@, rep@),
        decreases n - i,
    {
        let ghost rest = s@.skip(i as int);
        if matches_at(&cs, i, &pv) {
            let ghost out0 = out@;
            let mut k: usize = 0;
            while k < rv.len()
                invariant
                    rv@ == rep@,
                    k <= rv@.len(),
                    out@ =~= out0 + rv@.take(k as int),
                decreases rv@.len() - k,
            {
                out.push(rv[k]);
                k += 1;
            }
            proof {
                assert(rv@.take(rv@.len() as int) =~= rep@);
                assert(out@ =~= out0 + rep@);
                assert(rest.skip(m as int) =~= s@.skip(i + m));
                assert(spec_replace(rest, pat@, rep@) == rep@ + spec_replace(
                    s@.skip(i + m),
                    pat@,
                    rep@,
                ));
            }
            i += m;
        } else {
            out.push(cs[i]);
            proof {
                assert(rest[0] == s@[i as int]);
                assert(rest.skip(1) =~= s@.skip(i + 1));
                if m <= rest.len() && rest.take(m as int) == pat@ {
                    assert(false);
                }
                assert(spec_replace(rest, pat@, rep@) == seq![s@[i as int]] + spec_replace(
                    s@.skip(i + 1),
                    pat@,
                    rep@,
                ));
            }
            i += 1;
        }
    }
    proof {
        assert(s@.skip(n as int) =~= Seq::<char>::empty());
        assert(out@ =~= spec_replace(s@, pat@, rep@));
    }
    string_from_chars(&out)
}

// ---------------------------------------------------------------------------
// The ampersand-escaping scanner.
// ---------------------------------------------------------------------------

/// Where the scanner is inside the TSX source.
#[derive(Debug, Clone, Copy, PartialEq, Eq, Structural)]
pub enum ScanMode {
    /// Plain code, outside any JSX region.
    Normal,
    /// Inside the angle brackets of a tag.
    InTag,
    /// JSX text content between tags.
    InText,
    /// An embedded `{ ... }` expression inside JSX.
    InExpr,
}

/// The scanner's full state, at the spec level.
pub struct ScanState {
    /// Where the scanner is.
    pub mode: ScanMode,
    /// How many JSX elements are open.
    pub jsx_depth: usize,
    /// The JSX depth at which each embedded-expression region was entered.
    pub entry_stack: Seq<usize>,
    /// The quote character open inside a tag, if any.
    pub tag_quote: Option<char>,
    /// Brace depth of attribute expressions inside a tag.
    pub tag_brace_depth: usize,
    /// Brace depth inside an embedded expression.
    pub expr_depth: usize,
}

/// The scanner's initial state.
pub open spec fn init_scan_state() -> ScanState {
    ScanState {
        mode: ScanMode::Normal,
        jsx_depth: 0,
        entry_stack: Seq::<usize>::empty(),
        tag_quote: None,
        tag_brace_depth: 0,
        expr_depth: 0,
    }
}

/// Characters that can continue an identifier.
pub open spec fn spec_is_ident_char(c: char) -> bool {
    spec_is_ascii_alnum(c) || c == '_' || c == '$'
}

fn is_ident_char(c: char) -> (r: bool)
    ensures
        r == spec_is_ident_char(c),
{
    is_ascii_alnum_char(c) || c == '_' || c == '$'
}

/// The last non-whitespace character before index `i`, if any.
pub open spec fn spec_prev_non_ws(chars: Seq<char>, i: int) -> Option<char>
    decreases i,
{
    if i <= 0 || i > chars.len() {
        None
    } else if !spec_is_space(chars[i - 1]) {
        Some(chars[i - 1])
    } else {
        spec_prev_non_ws(chars, i - 1)
    }
}

fn prev_non_ws_char(cs: &Vec<char>, i: usize) -> (r: Option<char>)
    requires
        i <= cs@.len(),
    ensures
        r == spec_prev_non_ws(cs@, i as int),
{
    let mut j = i;
    while j > 0
        invariant
            j <= i <= cs@.len(),
            spec_prev_non_ws(cs@, i as int) == spec_prev_non_ws(cs@, j as int),
        decreases j,
    {
        if !is_space(cs[j - 1]) {
            return Some(cs[j - 1]);
        }
        j -= 1;
    }
    None
}

/// The index of the last non-whitespace character before `i`, or -1.
pub open spec fn spec_last_non_ws_index(chars: Seq<char>, i: int) -> int
    decreases i,
{
    if i <= 0 || i > chars.len() {
        -1
    } else if !spec_is_space(chars[i - 1]) {
        i - 1
    } else {
        spec_last_non_ws_index(chars, i - 1)
    }
}

fn last_non_ws_index(cs: &Vec<char>, i: usize) -> (r: Option<usize>)
    requires
        i <= cs@.len(),
    ensures
        match r {
            Some(j) => j == spec_last_non_ws_index(cs@, i as int) && j < i,
            None => spec_last_non_ws_index(cs@, i as int) == -1,
        },
{
    let mut j = i;
    while j > 0
        invariant
            j <= i <= cs@.len(),
            spec_last_non_ws_index(cs@, i as int) == spec_last_non_ws_index(cs@, j as int),
        decreases j,
    {
        if !is_space(cs[j - 1]) {
            return Some(j - 1);
        }
        j -= 1;
    }
    None
}

/// The index of the nearest `<` before `i`, or 0 when there is none.
pub open spec fn spec_last_lt_index(chars: Seq<char>, i: int) -> int
    decreases i,
{
    if i <= 1 || i > chars.len() {
        0
    } else if chars[i - 1] == '<' {
        i - 1
    } else {
        spec_last_lt_index(chars, i - 1)
    }
}

fn last_lt_index(cs: &Vec<char>, i: usize) -> (r: usize)
    requires
        i <= cs@.len(),
    ensures
        r == spec_last_lt_index(cs@, i as int),
        r <= i,
{
    let mut k = i;
    while k > 1
        invariant
            k <= i <= cs@.len(),
            spec_last_lt_index(cs@, i as int) == spec_last_lt_index(cs@, k as int),
        decreases k,
    {
        if cs[k - 1] == '<' {
            return k - 1;
        }
        k -= 1;
    }
    0
}

/// The first index at or after `j` that is not a decimal digit.
pub open spec fn spec_skip_digits(chars: Seq<char>, j: int) -> int
    decreases chars.len() - j,
{
    if j < 0 || j >= chars.len() || !spec_is_ascii_digit(chars[j]) {
        j
    } else {
        spec_skip_digits(chars, j + 1)
    }
}

/// The first index at or after `j` that is not a hex digit.
pub open spec fn spec_skip_hex(chars: Seq<char>, j: int) -> int
    decreases chars.len() - j,
{
    if j < 0 || j >= chars.len() || !spec_is_ascii_hexdigit(chars[j]) {
        j
    } else {
        spec_skip_hex(chars, j + 1)
    }
}

/// The first index at or after `j` that is not alphanumeric.
pub open spec fn spec_skip_alnum(chars: Seq<char>, j: int) -> int
    decreases chars.len() - j,
{
    if j < 0 || j >= chars.len() || !spec_is_ascii_alnum(chars[j]) {
        j
    } else {
        spec_skip_alnum(chars, j + 1)
    }
}

/// Whether the `&` at index `i` already begins a well-formed numeric or
/// named character reference, validated by lookahead.
pub open spec fn spec_looks_like_entity(chars: Seq<char>, i: int) -> bool {
    if i < 0 || i >= chars.len() || chars[i] != '&' || i + 1 >= chars.len() {
        false
    } else {
        let next = chars[i + 1];
        if next == '#' {
            if i + 2 < chars.len() && (chars[i + 2] == 'x' || chars[i + 2] == 'X') {
                let j = spec_skip_hex(chars, i + 3);
                j > i + 3 && j < chars.len() && chars[j] == ';'
            } else {
                let j = spec_skip_digits(chars, i + 2);
                j > i + 2 && j < chars.len() && chars[j] == ';'
            }
        } else if spec_is_ascii_alpha(next) {
            let j = spec_skip_alnum(chars, i + 2);
            j < chars.len() && chars[j] == ';'
        } else {
            false
        }
    }
}

fn skip_digits(cs: &Vec<char>, j: usize) -> (r: usize)
    requires
        j <= cs@.len(),
    ensures
        r == spec_skip_digits(cs@, j as int),
        j <= r <= cs@.len(),
{
    let n = cs.len();
    let mut k = j;
    while k < n && is_ascii_digit_char(cs[k])
        invariant
            n == cs@.len(),
            j <= k <= n,
            spec_skip_digits(cs@, j as int) == spec_skip_digits(cs@, k as int),
        decreases n - k,
    {
        k += 1;
    }
    k
}

fn skip_hex(cs: &Vec<char>, j: usize) -> (r: usize)
    requires
        j <= cs@.len(),
    ensures
        r == spec_skip_hex(cs@, j as int),
        j <= r <= cs@.len(),
{
    let n = cs.len();
    let mut k = j;
    while k < n && is_ascii_hexdigit_char(cs[k])
        invariant
            n == cs@.len(),
            j <= k <= n,
            spec_skip_hex(cs@, j as int) == spec_skip_hex(cs@, k as int),
        decreases n - k,
    {
        k += 1;
    }
    k
}

fn skip_alnum(cs: &Vec<char>, j: usize) -> (r: usize)
    requires
        j <= cs@.len(),
    ensures
        r == spec_skip_alnum(cs@, j as int),
        j <= r <= cs@.len(),
{
    let n = cs.len();
    let mut k = j;
    while k < n && is_ascii_alnum_char(cs[k])
        invariant
            n == cs@.len(),
            j <= k <= n,
            spec_skip_alnum(cs@, j as int) == spec_skip_alnum(cs@, k as int),
        decreases n - k,
    {
        k += 1;
    }
    k
}

fn looks_like_entity(cs: &Vec<char>, i: usize) -> (r: bool)
    requires
        i < cs@.len(),
    ensures
        r == spec_looks_like_entity(cs@, i as int),
{
    let n = cs.len();
    if cs[i] != '&' || i + 1 >= n {
        return false;
    }
    let next = cs[i + 1];
    if next == '#' {
        if i + 2 < n && (cs[i + 2] == 'x' || cs[i + 2] == 'X') {
            let j = skip_hex(cs, i + 3);
            j > i + 3 && j < n && cs[j] == ';'
        } else {
            let j = skip_digits(cs, i + 2);
            j > i + 2 && j < n && cs[j] == ';'
        }
    } else if is_ascii_alpha_char(next) {
        let j = skip_alnum(cs, i + 2);
        j < n && cs[j] == ';'
    } else {
        false
    }
}

/// Whether a `<` at index `i` looks like a tag start when seen from JSX
/// text: followed by a letter, `/` or `>`.
pub open spec fn spec_is_tag_start_in_text(chars: Seq<char>, i: int) -> bool {
    0 <= i < chars.len() && chars[i] == '<' && i + 1 < chars.len() && (spec_is_ascii_alpha(
        chars[i + 1],
    ) || chars[i + 1] == '/' || chars[i + 1] == '>')
}

fn is_tag_start_in_text(cs: &Vec<char>, i: usize) -> (r: bool)
    requires
        i < cs@.len(),
    ensures
        r == spec_is_tag_start_in_text(cs@, i as int),
{
    let n = cs.len();
    cs[i] == '<' && i + 1 < n && (is_ascii_alpha_char(cs[i + 1]) || cs[i + 1] == '/'
        || cs[i + 1] == '>')
}

/// Whether a `<` at index `i` probably opens markup when seen from plain
/// code: a tag start not preceded (ignoring whitespace) by an identifier
/// character, `.`, `)` or `]`, which would instead indicate a comparison or
/// generic-type operator.
pub open spec fn spec_is_probable_tag_start(chars: Seq<char>, i: int) -> bool {
    spec_is_tag_start_in_text(chars, i) && !(match spec_prev_non_ws(chars, i) {
        Some(p) => spec_is_ident_char(p) || p == '.' || p == ')' || p == ']',
        None => false,
    })
}

fn is_probable_tag_start(cs: &Vec<char>, i: usize) -> (r: bool)
    requires
        i < cs@.len(),
    ensures
        r == spec_is_probable_tag_start(cs@, i as int),
{
    if !is_tag_start_in_text(cs, i) {
        return false;
    }
    match prev_non_ws_char(cs, i) {
        Some(p) => !(is_ident_char(p) || p == '.' || p == ')' || p == ']'),
        None => true,
    }
}

/// One saturating increment.
pub open spec fn spec_inc(d: usize) -> usize {
    if d == usize::MAX {
        d
    } else {
        (d + 1) as usize
    }
}

/// One saturating decrement.
pub open spec fn spec_dec(d: usize) -> usize {
    if d == 0 {
        0
    } else {
        (d - 1) as usize
    }
}

/// One step of the scanner at index `i`: the successor state and the
/// characters emitted for `chars[i]`.
pub open spec fn scan_step(st: ScanState, chars: Seq<char>, i: int) -> (ScanState, Seq<char>) {
    let c = chars[i];
    match st.mode {
        ScanMode::Normal => {
            if spec_is_probable_tag_start(chars, i) {
                (
                    ScanState {
                        mode: ScanMode::InTag,
                        tag_quote: None,
                        tag_brace_depth: 0,
                        ..st
                    },
                    seq![c],
                )
            } else {
                (st, seq![c])
            }
        },
        ScanMode::InTag => {
            match st.tag_quote {
                Some(q) => {
                    if c == q {
                        (ScanState { tag_quote: None, ..st }, seq![c])
                    } else {
                        (st, seq![c])
                    }
                },
                None => {
                    if c == '"' || c == '\'' {
                        (ScanState { tag_quote: Some(c), ..st }, seq![c])
                    } else if c == '{' {
                        (
                            ScanState { tag_brace_depth: spec_inc(st.tag_brace_depth), ..st },
                            seq![c],
                        )
                    } else if c == '}' {
                        (
                            ScanState { tag_brace_depth: spec_dec(st.tag_brace_depth), ..st },
                            seq![c],
                        )
                    } else if c == '>' && st.tag_brace_depth == 0 {
                        (scan_close_tag(st, chars, i), seq![c])
                    } else {
                        (st, seq![c])
                    }
                },
            }
        },
        ScanMode::InText => {
            if c == '{' {
                (ScanState { mode: ScanMode::InExpr, expr_depth: 1, ..st }, seq![c])
            } else if c == '<' && spec_is_tag_start_in_text(chars, i) {
                (
                    ScanState {
                        mode: ScanMode::InTag,
                        tag_quote: None,
                        tag_brace_depth: 0,
                        ..st
                    },
                    seq![c],
                )
            } else if c == '&' {
                if spec_looks_like_entity(chars, i) {
                    (st, seq![c])
                } else {
                    (st, "&amp;"@)
                }
            } else {
                (st, seq![c])
            }
        },
        ScanMode::InExpr => {
            if c == '<' && spec_is_probable_tag_start(chars, i) {
                (
                    ScanState {
                        mode: ScanMode::InTag,
                        entry_stack: st.entry_stack.push(st.jsx_depth),
                        tag_quote: None,
                        tag_brace_depth: 0,
                        ..st
                    },
                    seq![c],
                )
            } else if c == '{' {
                (ScanState { expr_depth: spec_inc(st.expr_depth), ..st }, seq![c])
            } else if c == '}' {
                let d = spec_dec(st.expr_depth);
                if d == 0 {
                    (ScanState { mode: ScanMode::InText, expr_depth: d, ..st }, seq![c])
                } else {
                    (ScanState { expr_depth: d, ..st }, seq![c])
                }
            } else {
                (st, seq![c])
            }
        },
    }
}

/// The state change when an unquoted `>` closes a tag at brace depth zero:
/// the tag is classified as opening, closing or self-closing by the
/// characters just after its `<` and just before its `>`, the JSX depth is
/// adjusted, and the scanner returns to an embedding expression when the new
/// depth matches the top of the entry stack.
pub open spec fn scan_close_tag(st: ScanState, chars: Seq<char>, i: int) -> ScanState {
    let j = spec_last_non_ws_index(chars, i);
    let k = spec_last_lt_index(chars, i);
    let is_closing = k + 1 < chars.len() && chars[k + 1] == '/';
    let self_closing = !is_closing && j >= 0 && chars[j] == '/';
    let d = if self_closing {
        st.jsx_depth
    } else if is_closing {
        spec_dec(st.jsx_depth)
    } else {
        spec_inc(st.jsx_depth)
    };
    if st.entry_stack.len() > 0 && st.entry_stack.last() == d {
        ScanState {
            mode: ScanMode::InExpr,
            jsx_depth: d,
            entry_stack: st.entry_stack.drop_last(),
            ..st
        }
    } else if d == 0 {
        ScanState { mode: ScanMode::Normal, jsx_depth: d, ..st }
    } else {
        ScanState { mode: ScanMode::InText, jsx_depth: d, ..st }
    }
}

/// The output of the scanner from index `i` to the end, starting in `st`.
pub open spec fn spec_escape_from(chars: Seq<char>, i: int, st: ScanState) -> Seq<char>
    decreases chars.len() - i
        when 0 <= i <= chars.len()
{
    if i >= chars.len() {
        Seq::<char>::empty()
    } else {
        scan_step(st, chars, i).1 + spec_escape_from(chars, i + 1, scan_step(st, chars, i).0)
    }
}

/// The whole source with ampersands in JSX text escaped.
pub open spec fn spec_escape(chars: Seq<char>) -> Seq<char> {
    spec_escape_from(chars, 0, init_scan_state())
}

/// The scanner's executable state.
struct Scanner {
    mode: ScanMode,
    jsx_depth: usize,
    entry_stack: Vec<usize>,
    tag_quote: Option<char>,
    tag_brace_depth: usize,
    expr_depth: usize,
}

impl Scanner {
    /// The spec-level view of the state.
    spec fn view_state(&self) -> ScanState {
        ScanState {
            mode: self.mode,
            jsx_depth: self.jsx_depth,
            entry_stack: self.entry_stack@,
            tag_quote: self.tag_quote,
            tag_brace_depth: self.tag_brace_depth,
            expr_depth: self.expr_depth,
        }
    }
}

/// Escapes to `&amp;` every `&` that sits in JSX text content and does not
/// already begin a well-formed character reference; all other characters
/// pass through unchanged.
pub fn escape_ampersands_in_jsx_text(source: &str) -> (r: String)
    ensures
        r@ == spec_escape(source@),
{
    let cs = str_chars_vec(source);
    let n = cs.len();
    let mut out: Vec<char> = Vec::new();
    let mut sc = Scanner {
        mode: ScanMode::Normal,
        jsx_depth: 0,
        entry_stack: Vec::new(),
        tag_quote: None,
        tag_brace_depth: 0,
        expr_depth: 0,
    };
    proof {
        assert(sc.view_state() == init_scan_state());
    }
    let mut i: usize = 0;
    while i < n
        invariant
            n == cs@.len(),
            cs@ == source@,
            i <= n,
            out@ + spec_escape_from(source@, i as int, sc.view_state()) == spec_escape(source@),
        decreases n - i,
    {
        let ghost st0 = sc.view_state();
        let ghost step = scan_step(st0, source@, i as int);
        let ghost out0 = out@;
        let c = cs[i];
        match sc.mode {
            ScanMode::Normal => {
                if is_probable_tag_start(&cs, i) {
                    sc.mode = ScanMode::InTag;
                    sc.tag_quote = None;
                    sc.tag_brace_depth = 0;
                }
                out.push(c);
            },
            ScanMode::InTag => {
                out.push(c);
                match sc.tag_quote {
                    Some(q) => {
                        if c == q {
                            sc.tag_quote = None;
                        }
                    },
                    None => {
                        if c == '"' || c == '\'' {
                            sc.tag_quote = Some(c);
                        } else if c == '{' {
                            sc.tag_brace_depth = inc_sat(sc.tag_brace_depth);
                        } else if c == '}' {
                            sc.tag_brace_depth = dec_sat(sc.tag_brace_depth);
                        } else if c == '>' && sc.tag_brace_depth == 0 {
                            let j = last_non_ws_index(&cs, i);
                            let k = last_lt_index(&cs, i);
                            let is_closing = k + 1 < n && cs[k + 1] == '/';
                            let self_closing = !is_closing && (match j {
                                Some(jj) => cs[jj] == '/',
                                None => false,
                            });
                            if self_closing {
                            } else if is_closing {
                                sc.jsx_depth = dec_sat(sc.jsx_depth);
                            } else {
                                sc.jsx_depth = inc_sat(sc.jsx_depth);
                            }
                            let mut popped = false;
                            if sc.entry_stack.len() > 0 {
                                if sc.entry_stack[sc.entry_stack.len() - 1] == sc.jsx_depth {
                                    sc.entry_stack.pop();
                                    sc.mode = ScanMode::InExpr;
                                    popped = true;
                                }
                            }
                            if !popped {
                                if sc.jsx_depth == 0 {
                                    sc.mode = ScanMode::Normal;
                                } else {
                                    sc.mode = ScanMode::InText;
                                }
                            }
                            proof {
                                assert(sc.view_state() == scan_close_tag(st0, source@, i as int));
                            }
                        }
                    },
                }
            },
            ScanMode::InText => {
                if c == '{' {
                    sc.mode = ScanMode::InExpr;
                    sc.expr_depth = 1;
                    out.push(c);
                } else if c == '<' && is_tag_start_in_text(&cs, i) {
                    sc.mode = ScanMode::InTag;
                    sc.tag_quote = None;
                    sc.tag_brace_depth = 0;
                    out.push(c);
                } else if c == '&' {
                    if looks_like_entity(&cs, i) {
                        out.push('&');
                    } else {
                        out.push('&');
                        out.push('a');
                        out.push('m');
                        out.push('p');
                        out.push(';');
                        proof {
                            reveal_strlit("&amp;");
                        }
                    }
                } else {
                    out.push(c);
                }
            },
            ScanMode::InExpr => {
                if c == '<' && is_probable_tag_start(&cs, i) {
                    let d = sc.jsx_depth;
                    sc.entry_stack.push(d);
                    sc.mode = ScanMode::InTag;
                    sc.tag_quote = None;
                    sc.tag_brace_depth = 0;
                    out.push(c);
                } else {
                    out.push(c);
                    if c == '{' {
                        sc.expr_depth = inc_sat(sc.expr_depth);
                    } else if c == '}' {
                        sc.expr_depth = dec_sat(sc.expr_depth);
                        if sc.expr_depth == 0 {
                            sc.mode = ScanMode::InText;
                        }
                    }
                }
            },
        }
        proof {
            assert(sc.view_state() == step.0);
            assert(out@ =~= out0 + step.1);
            assert(out@ + spec_escape_from(source@, i + 1, sc.view_state()) =~= spec_escape(
                source@,
            ));
        }
        i += 1;
    }
    proof {
        assert(out@ =~= spec_escape(source@));
    }
    string_from_chars(&out)
}

fn inc_sat(d: usize) -> (r: usize)
    ensures
        r == spec_inc(d),
{
    if d == usize::MAX {
        d
    } else {
        d + 1
    }
}

fn dec_sat(d: usize) -> (r: usize)
    ensures
        r == spec_dec(d),
{
    if d == 0 {
        0
    } else {
        d - 1
    }
}

// ---------------------------------------------------------------------------
// The language-dispatching sanitization entry point.
// ---------------------------------------------------------------------------

/// What sanitization produces for each language: the re-export rewrite for
/// TypeScript, the rewrite plus ampersand escaping for TSX, and the source
/// unchanged for every other language.
pub open spec fn spec_sanitize(s: Seq<char>, l: SupportedLanguage) -> Seq<char> {
    if l == SupportedLanguage::TypeScript {
        spec_replace(s, "export type * from"@, "export * from"@)
    } else if l == SupportedLanguage::Tsx {
        spec_escape(spec_replace(s, "export type * from"@, "export * from"@))
    } else {
        s
    }
}

/// Rewrites known grammar gaps in a copy of the text, for parsing only: the
/// unsupported trailing-type-re-export syntax becomes its supported form,
/// and for the JSX-bearing variant literal ampersands in JSX text are
/// escaped.  The file on disk is never touched.
pub fn sanitize_for_tree_sitter(source: &str, language: SupportedLanguage) -> (r: String)
    ensures
        r@ == spec_sanitize(source@, language),
{
    proof {
        reveal_strlit("export type * from");
    }
    match language {
        SupportedLanguage::TypeScript => replace_all(
            source,
            "export type * from",
            "export * from",
        ),
        SupportedLanguage::Tsx => {
            let rewritten = replace_all(source, "export type * from", "export * from");
            escape_ampersands_in_jsx_text(rewritten.as_str())
        },
        _ => source.to_owned(),
    }
}

} // verus!
