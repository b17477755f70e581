//! Output-side computations: result ordering, severity labels, path and
//! number formatting, and the configuration carried by the reporters.  The
//! actual table rendering and JSON writing are collaborators outside this
//! crate.

use vstd::prelude::*;
use vstd::multiset::Multiset;
use vstd::seq_lib::group_to_multiset_ensures;

use crate::cli::{CliArgs, SortBy};
use crate::language::spec_file_name;
use crate::metrics::FileAnalysis;
use crate::refactor::RefactoringThresholds;
use crate::text::{spec_decimal, str_chars_vec, string_from_chars};

verus! {

/// Lexicographic order on character sequences, by code point.
pub open spec fn spec_chars_le(a: Seq<char>, b: Seq<char>) -> bool
    decreases a.len(),
{
    if a.len() == 0 {
        true
    } else if b.len() == 0 {
        false
    } else if a[0] == b[0] {
        spec_chars_le(a.drop_first(), b.drop_first())
    } else {
        a[0] < b[0]
    }
}

/// Lexicographic order is total.
pub proof fn lemma_chars_le_total(a: Seq<char>, b: Seq<char>)
    ensures
        spec_chars_le(a, b) || spec_chars_le(b, a),
    decreases a.len(),
{
    if a.len() == 0 {
        assert(spec_chars_le(a, b));
    } else if b.len() == 0 {
        assert(spec_chars_le(b, a));
    } else if a[0] == b[0] {
        lemma_chars_le_total(a.drop_first(), b.drop_first());
        assert(spec_chars_le(a, b) == spec_chars_le(a.drop_first(), b.drop_first()));
        assert(spec_chars_le(b, a) == spec_chars_le(b.drop_first(), a.drop_first()));
    } else {
        assert(spec_chars_le(a, b) == (a[0] < b[0]));
        assert(spec_chars_le(b, a) == (b[0] < a[0]));
    }
}

/// Lexicographic order is transitive.
pub proof fn lemma_chars_le_trans(a: Seq<char>, b: Seq<char>, c: Seq<char>)
    requires
        spec_chars_le(a, b),
        spec_chars_le(b, c),
    ensures
        spec_chars_le(a, c),
    decreases a.len(),
{
    if a.len() == 0 {
    } else {
        if a[0] == b[0] && b[0] == c[0] {
            lemma_chars_le_trans(a.drop_first(), b.drop_first(), c.drop_first());
        }
    }
}

/// Compares two strings lexicographically by code point.
pub fn str_le(a: &str, b: &str) -> (r: bool)
    ensures
        r == spec_chars_le(a@, b@),
{
    let av = str_chars_vec(a);
    let bv = str_chars_vec(b);
    let an = av.len();
    let bn = bv.len();
    let n = if an < bn {
        an
    } else {
        bn
    };
    let mut i: usize = 0;
    proof {
        assert(a@.skip(0) =~= a@);
        assert(b@.skip(0) =~= b@);
    }
    while i < n
        invariant
            an == av@.len(),
            bn == bv@.len(),
            av@ == a@,
            bv@ == b@,
            n == if an < bn { an as int } else { bn as int },
            i <= n,
            forall|j: int| 0 <= j < i ==> a@[j] == b@[j],
            spec_chars_le(a@, b@) == spec_chars_le(a@.skip(i as int), b@.skip(i as int)),
        decreases n - i,
    {
        let ghost ar = a@.skip(i as int);
        let ghost br = b@.skip(i as int);
        proof {
            assert(ar[0] == a@[i as int]);
            assert(br[0] == b@[i as int]);
            assert(ar.drop_first() =~= a@.skip(i + 1));
            assert(br.drop_first() =~= b@.skip(i + 1));
        }
        if av[i] != bv[i] {
            return av[i] < bv[i];
        }
        i += 1;
    }
    proof {
        if an <= bn {
            assert(a@.skip(i as int).len() == 0);
        } else {
            assert(b@.skip(i as int).len() == 0);
            assert(a@.skip(i as int).len() > 0);
        }
    }
    an <= bn
}

/// The intended order of two records under a sort criterion: counts and
/// scores descend, names and paths ascend.
pub open spec fn spec_file_le(s: SortBy, a: FileAnalysis, b: FileAnalysis) -> bool {
    match s {
        SortBy::Lines => a.lines_of_code >= b.lines_of_code,
        SortBy::Functions => a.functions >= b.functions,
        SortBy::Classes => a.classes >= b.classes,
        SortBy::Name => spec_chars_le(spec_file_name(a.path@), spec_file_name(b.path@)),
        SortBy::Path => spec_chars_le(a.path@, b.path@),
        SortBy::Complexity => a.complexity_score_milli >= b.complexity_score_milli,
    }
}

/// The ordering of every criterion is total.
pub proof fn lemma_file_le_total(s: SortBy, a: FileAnalysis, b: FileAnalysis)
    ensures
        spec_file_le(s, a, b) || spec_file_le(s, b, a),
{
    match s {
        SortBy::Name => {
            lemma_chars_le_total(spec_file_name(a.path@), spec_file_name(b.path@));
        },
        SortBy::Path => {
            lemma_chars_le_total(a.path@, b.path@);
        },
        _ => {},
    }
}

/// The ordering of every criterion is transitive.
pub proof fn lemma_file_le_trans(s: SortBy, a: FileAnalysis, b: FileAnalysis, c: FileAnalysis)
    requires
        spec_file_le(s, a, b),
        spec_file_le(s, b, c),
    ensures
        spec_file_le(s, a, c),
{
    match s {
        SortBy::Name => {
            lemma_chars_le_trans(
                spec_file_name(a.path@),
                spec_file_name(b.path@),
                spec_file_name(c.path@),
            );
        },
        SortBy::Path => {
            lemma_chars_le_trans(a.path@, b.path@, c.path@);
        },
        _ => {},
    }
}

/// Decides the order of two records under a criterion.
fn file_le(s: &SortBy, a: &FileAnalysis, b: &FileAnalysis) -> (r: bool)
    ensures
        r == spec_file_le(*s, *a, *b),
{
    match s {
        SortBy::Lines => a.lines_of_code >= b.lines_of_code,
        SortBy::Functions => a.functions >= b.functions,
        SortBy::Classes => a.classes >= b.classes,
        SortBy::Name => {
            let an = crate::language::file_name_of(a.path.as_str());
            let bn = crate::language::file_name_of(b.path.as_str());
            str_le(an.as_str(), bn.as_str())
        },
        SortBy::Path => str_le(a.path.as_str(), b.path.as_str()),
        SortBy::Complexity => a.complexity_score_milli >= b.complexity_score_milli,
    }
}

/// Reorders the records by the given criterion: counts and scores highest
/// first, names and paths alphabetically.  The records themselves are
/// preserved.
pub fn apply_sorting(files: &mut Vec<FileAnalysis>, sort_by: SortBy)
    ensures
        final(files)@.to_multiset() == old(files)@.to_multiset(),
        final(files)@.len() == old(files)@.len(),
        forall|i: int, j: int|
            0 <= i < j < final(files)@.len() ==> spec_file_le(
                sort_by,
                final(files)@[i],
                final(files)@[j],
            ),
{
    broadcast use group_to_multiset_ensures;
    broadcast use vstd::multiset::group_multiset_axioms;

    let ghost orig = files@;
    let mut out: Vec<FileAnalysis> = Vec::new();
    proof {
        assert(out@.to_multiset().add(files@.to_multiset()) =~= orig.to_multiset());
    }
    while files.len() > 0
        invariant
            out@.to_multiset().add(files@.to_multiset()) == orig.to_multiset(),
            out@.len() + files@.len() == orig.len(),
            forall|i: int, j: int|
                0 <= i < j < out@.len() ==> spec_file_le(sort_by, out@[i], out@[j]),
            forall|i: int, j: int|
                0 <= i < out@.len() && 0 <= j < files@.len() ==> spec_file_le(
                    sort_by,
                    out@[i],
                    files@[j],
                ),
        decreases files@.len(),
    {
        let m = files.len();
        let mut best: usize = 0;
        let mut k: usize = 1;
        proof {
            lemma_file_le_total(sort_by, files@[0], files@[0]);
        }
        while k < m
            invariant
                m == files@.len(),
                best < m,
                k <= m,
                forall|j: int| 0 <= j < k ==> spec_file_le(sort_by, files@[best as int], files@[j]),
            decreases m - k,
        {
            if !file_le(&sort_by, &files[best], &files[k]) {
                proof {
                    lemma_file_le_total(sort_by, files@[best as int], files@[k as int]);
                    assert forall|j: int| 0 <= j < k + 1 implies spec_file_le(
                        sort_by,
                        files@[k as int],
                        files@[j],
                    ) by {
                        if j < k {
                            lemma_file_le_trans(
                                sort_by,
                                files@[k as int],
                                files@[best as int],
                                files@[j],
                            );
                        } else if j == k {
                            lemma_file_le_total(sort_by, files@[k as int], files@[k as int]);
                        }
                    }
                }
                best = k;
            }
            k += 1;
        }
        let ghost rest0 = files@;
        let ghost out0 = out@;
        let chosen = files.remove(best);
        proof {
            broadcast use group_to_multiset_ensures;
            broadcast use vstd::multiset::group_multiset_axioms;

            assert(rest0[best as int] == chosen);
            assert(files@ == rest0.remove(best as int));
            assert(files@.to_multiset() == rest0.to_multiset().remove(chosen));
            assert(rest0.to_multiset().count(chosen) > 0) by {
                assert(rest0.contains(chosen));
            }
        }
        out.push(chosen);
        proof {
            broadcast use group_to_multiset_ensures;
            broadcast use vstd::multiset::group_multiset_axioms;

            assert(out@ == out0.push(chosen));
            assert(out@.to_multiset() == out0.to_multiset().insert(chosen));
            assert(out@.to_multiset().add(files@.to_multiset()) =~= orig.to_multiset());
            assert forall|j: int| 0 <= j < files@.len() implies spec_file_le(
                sort_by,
                chosen,
                files@[j],
            ) by {
                let jj = if j < best { j } else { j + 1 };
                assert(files@[j] == rest0[jj]);
            }
        }
    }
    proof {
        broadcast use group_to_multiset_ensures;
        broadcast use vstd::multiset::group_multiset_axioms;

        assert(files@.to_multiset().len() == 0);
        vstd::multiset::lemma_multiset_empty_len(files@.to_multiset());
        assert(out@.to_multiset().add(Multiset::<FileAnalysis>::empty()) =~= out@.to_multiset());
        assert(out@.to_multiset() =~= orig.to_multiset());
    }
    *files = out;
}

/// Digits grouped in threes from the right with commas.
pub open spec fn spec_group_thousands(s: Seq<char>) -> Seq<char>
    decreases s.len(),
{
    if s.len() <= 3 {
        s
    } else {
        spec_group_thousands(s.take(s.len() - 3)) + ","@ + s.skip(s.len() - 3)
    }
}

fn group_digits(cs: Vec<char>) -> (r: Vec<char>)
    ensures
        r@ == spec_group_thousands(cs@),
    decreases cs@.len(),
{
    if cs.len() <= 3 {
        cs
    } else {
        let mut head = cs;
        let mut tail = head.split_off(head.len() - 3);
        let ghost head_v = head@;
        let ghost tail_v = tail@;
        let mut g = group_digits(head);
        g.push(',');
        g.append(&mut tail);
        proof {
            reveal_strlit(",");
            assert(g@ =~= spec_group_thousands(head_v) + ","@ + tail_v);
        }
        g
    }
}

/// Formats a count with thousands separators.
pub fn format_number(n: usize) -> (r: String)
    ensures
        r@ == spec_group_thousands(spec_decimal(n as nat)),
{
    let digits = crate::text::u64_to_digits(n as u64);
    let grouped = group_digits(digits);
    string_from_chars(&grouped)
}

/// The severity label of a score, in thousandths of a point: high at ten
/// points, medium at five.
pub open spec fn spec_severity(score_milli: u64) -> Seq<char> {
    if score_milli >= 10_000 {
        "[HIGH]"@
    } else if score_milli >= 5_000 {
        "[MED]"@
    } else {
        "[LOW]"@
    }
}

/// The relative display form of a path under a base directory: the part
/// after the base and its separator when the base is a prefix, the path
/// itself otherwise.
pub open spec fn spec_relative_path(base: Option<Seq<char>>, p: Seq<char>) -> Seq<char> {
    match base {
        Some(b) => {
            if p.len() > b.len() && p.take(b.len() as int) == b && p[b.len() as int] == '/' {
                p.skip((b.len() + 1) as int)
            } else {
                p
            }
        },
        None => p,
    }
}

/// A display path shortened from the left to at most fifty characters.
pub open spec fn spec_shorten_path(s: Seq<char>) -> Seq<char> {
    if s.len() > 50 {
        "..."@ + s.skip(s.len() - 47)
    } else {
        s
    }
}

/// Reporting configuration for terminal output; the rendering itself is an
/// outside collaborator.
#[derive(Debug, Clone)]
pub struct TerminalReporter {
    /// Whether the summary section is shown.
    pub show_summary: bool,
    /// Whether colors are used.
    pub color_enabled: bool,
    /// Paths are displayed relative to this directory, when set.
    pub base_path: Option<String>,
    /// The thresholds the candidate section uses.
    pub thresholds: RefactoringThresholds,
}

impl TerminalReporter {
    /// A reporter with summary and colors on and default thresholds.
    pub fn new() -> (r: Self)
        ensures
            r.show_summary,
            r.color_enabled,
            r.base_path is None,
            r.thresholds.max_complexity_score_milli == 10_000,
            r.thresholds.max_cyclomatic_complexity == 15,
            r.thresholds.max_lines_of_code == 500,
            r.thresholds.max_functions == 25,
    {
        TerminalReporter {
            show_summary: true,
            color_enabled: true,
            base_path: None,
            thresholds: RefactoringThresholds::default(),
        }
    }

    /// The reporter with the summary section turned on or off.
    pub fn with_summary(self, show: bool) -> (r: Self)
        ensures
            r == (TerminalReporter { show_summary: show, ..self }),
    {
        TerminalReporter { show_summary: show, ..self }
    }

    /// The reporter with colors turned on or off.
    pub fn with_colors(self, enabled: bool) -> (r: Self)
        ensures
            r == (TerminalReporter { color_enabled: enabled, ..self }),
    {
        TerminalReporter { color_enabled: enabled, ..self }
    }

    /// The reporter displaying paths relative to a base directory.
    pub fn with_base_path(self, path: String) -> (r: Self)
        ensures
            r == (TerminalReporter { base_path: Some(path), ..self }),
    {
        TerminalReporter { base_path: Some(path), ..self }
    }

    /// The reporter with custom candidate thresholds.
    pub fn with_thresholds(self, thresholds: RefactoringThresholds) -> (r: Self)
        ensures
            r == (TerminalReporter { thresholds, ..self }),
    {
        TerminalReporter { thresholds, ..self }
    }

    /// The base directory, when one is set.
    pub fn get_base_path(&self) -> (r: Option<&String>)
        ensures
            match r {
                Some(p) => self.base_path matches Some(q) && q == *p,
                None => self.base_path is None,
            },
    {
        match &self.base_path {
            Some(p) => Some(p),
            None => None,
        }
    }

    /// The severity label of a score, in thousandths.
    pub fn get_severity_indicator(&self, score_milli: u64) -> (r: &'static str)
        ensures
            r@ == spec_severity(score_milli),
    {
        if score_milli >= 10_000 {
            "[HIGH]"
        } else if score_milli >= 5_000 {
            "[MED]"
        } else {
            "[LOW]"
        }
    }

    /// Displays a path relative to the base directory when possible, and
    /// shortened from the left to at most fifty characters.
    pub fn format_file_path(&self, path: &str) -> (r: String)
        ensures
            r@ == spec_shorten_path(spec_relative_path(
                match self.base_path {
                    Some(b) => Some(b@),
                    None => None,
                },
                path@,
            )),
    {
        let cs = str_chars_vec(path);
        let relative: Vec<char> = match &self.base_path {
            Some(b) => {
                let bv = str_chars_vec(b.as_str());
                if is_strict_prefix_with_sep(&cs, &bv) {
                    let mut out: Vec<char> = Vec::new();
                    let n = cs.len();
                    let mut i: usize = bv.len() + 1;
                    proof {
                        assert(out@ =~= cs@.subrange((bv@.len() + 1) as int, i as int));
                    }
                    while i < n
                        invariant
                            n == cs@.len(),
                            bv@.len() + 1 <= i <= n,
                            out@ =~= cs@.subrange((bv@.len() + 1) as int, i as int),
                        decreases n - i,
                    {
                        out.push(cs[i]);
                        i += 1;
                    }
                    proof {
                        assert(cs@.subrange((bv@.len() + 1) as int, n as int) =~= cs@.skip((bv@.len() + 1) as int));
                    }
                    out
                } else {
                    cs
                }
            },
            None => cs,
        };
        let shortened: Vec<char> = if relative.len() > 50 {
            let mut out: Vec<char> = Vec::new();
            out.push('.');
            out.push('.');
            out.push('.');
            let n = relative.len();
            let mut i: usize = n - 47;
            proof {
                reveal_strlit("...");
                assert(out@ =~= "..."@ + relative@.subrange(n - 47, i as int));
            }
            while i < n
                invariant
                    n == relative@.len(),
                    n > 50,
                    n - 47 <= i <= n,
                    out@ =~= "..."@ + relative@.subrange(n - 47, i as int),
                decreases n - i,
            {
                out.push(relative[i]);
                i += 1;
            }
            proof {
                assert(relative@.subrange(n - 47, n as int) =~= relative@.skip(n - 47));
            }
            out
        } else {
            relative
        };
        string_from_chars(&shortened)
    }
}

impl Default for TerminalReporter {
    fn default() -> (r: Self)
        ensures
            r.show_summary && r.color_enabled && r.base_path is None,
    {
        TerminalReporter::new()
    }
}

/// Whether `base` is a strict prefix of `p` followed by a separator.
fn is_strict_prefix_with_sep(p: &Vec<char>, base: &Vec<char>) -> (r: bool)
    ensures
        r == (p@.len() > base@.len() && p@.take(base@.len() as int) == base@
            && p@[base@.len() as int] == '/'),
{
    let m = base.len();
    let n = p.len();
    if n <= m {
        return false;
    }
    if p[m] != '/' {
        return false;
    }
    let mut k: usize = 0;
    while k < m
        invariant
            m == base@.len(),
            n == p@.len(),
            n > m,
            k <= m,
            forall|j: int| 0 <= j < k ==> p@[j] == base@[j],
        decreases m - k,
    {
        if p[k] != base[k] {
            proof {
                assert(p@.take(m as int)[k as int] != base@[k as int]);
            }
            return false;
        }
        k += 1;
    }
    proof {
        assert(p@.take(m as int) =~= base@);
    }
    true
}

/// JSON export settings; the serialization itself is an outside
/// collaborator.
#[derive(Debug, Clone, Copy, PartialEq, Eq, Structural)]
pub struct JsonExporter {
    /// Whether the JSON is indented for reading.
    pub pretty_print: bool,
    /// Whether the summary and configuration sections are included.
    pub include_metadata: bool,
}

impl JsonExporter {
    /// An exporter producing indented JSON with metadata.
    pub fn new() -> (r: Self)
        ensures
            r.pretty_print,
            r.include_metadata,
    {
        JsonExporter { pretty_print: true, include_metadata: true }
    }

    /// The exporter with indentation turned on or off.
    pub fn pretty_print(self, pretty: bool) -> (r: Self)
        ensures
            r.pretty_print == pretty,
            r.include_metadata == self.include_metadata,
    {
        JsonExporter { pretty_print: pretty, ..self }
    }

    /// The exporter with metadata turned on or off.
    pub fn include_metadata(self, with_metadata: bool) -> (r: Self)
        ensures
            r.pretty_print == self.pretty_print,
            r.include_metadata == with_metadata,
    {
        JsonExporter { include_metadata: with_metadata, ..self }
    }
}

impl Default for JsonExporter {
    fn default() -> (r: Self)
        ensures
            r.pretty_print && r.include_metadata,
    {
        JsonExporter::new()
    }
}

/// CSV export marker; the writing itself is an outside collaborator.
#[derive(Debug, Clone, Copy, PartialEq, Eq, Structural)]
pub struct CsvExporter;

impl CsvExporter {
    /// A CSV exporter.
    pub fn new() -> (r: Self)
        ensures
            r == CsvExporter,
    {
        CsvExporter
    }
}

impl Default for CsvExporter {
    fn default() -> (r: Self)
        ensures
            r == CsvExporter,
    {
        CsvExporter::new()
    }
}

/// Coordinates the terminal and JSON output settings for one run.
#[derive(Debug, Clone)]
pub struct OutputManager {
    /// Terminal reporting configuration.
    pub terminal_reporter: TerminalReporter,
    /// JSON export configuration.
    pub json_exporter: JsonExporter,
    /// Whether the summary section is shown.
    pub show_summary: bool,
}

impl OutputManager {
    /// A manager with default settings.
    pub fn new() -> (r: Self)
        ensures
            r.show_summary,
            r.terminal_reporter.show_summary,
            r.json_exporter.pretty_print,
    {
        OutputManager {
            terminal_reporter: TerminalReporter::new(),
            json_exporter: JsonExporter::new(),
            show_summary: true,
        }
    }

    /// A manager configured from a run's settings and whether standard
    /// output is a terminal.
    pub fn from_cli_args(args: &CliArgs, stdout_is_tty: bool) -> (r: Self)
        ensures
            r.show_summary == !args.json_only,
            r.terminal_reporter.show_summary == !args.json_only,
            r.terminal_reporter.color_enabled == crate::cli::spec_should_use_colors(*args, stdout_is_tty),
            r.terminal_reporter.base_path matches Some(b) && b@ == match args.path {
                Some(p) => p@,
                None => "."@,
            },
            r.json_exporter.pretty_print,
    {
        let reporter = TerminalReporter::new().with_summary(!args.json_only).with_colors(
            args.should_use_colors(stdout_is_tty),
        ).with_base_path(args.target_path());
        OutputManager {
            terminal_reporter: reporter,
            json_exporter: JsonExporter::new().pretty_print(true),
            show_summary: !args.json_only,
        }
    }

    /// Reconfigures the terminal settings.
    pub fn configure_terminal(&mut self, show_summary: bool, color_enabled: bool)
        ensures
            final(self).show_summary == show_summary,
            final(self).terminal_reporter.show_summary == show_summary,
            final(self).terminal_reporter.color_enabled == color_enabled,
            final(self).json_exporter == old(self).json_exporter,
    {
        let base = match &self.terminal_reporter.base_path {
            Some(p) => Some(p.clone()),
            None => None,
        };
        let mut reporter = TerminalReporter::new().with_summary(show_summary).with_colors(
            color_enabled,
        );
        if let Some(b) = base {
            reporter = reporter.with_base_path(b);
        }
        self.terminal_reporter = reporter;
        self.show_summary = show_summary;
    }

    /// Reconfigures the JSON settings.
    pub fn configure_json(&mut self, pretty_print: bool)
        ensures
            final(self).json_exporter.pretty_print == pretty_print,
            final(self).terminal_reporter == old(self).terminal_reporter,
            final(self).show_summary == old(self).show_summary,
    {
        self.json_exporter = self.json_exporter.pretty_print(pretty_print);
    }
}

impl Default for OutputManager {
    fn default() -> (r: Self)
        ensures
            r.show_summary,
    {
        OutputManager::new()
    }
}

} // verus!
