//! Aggregation: the project summary with per-language breakdown and top
//! lists, the caller-facing filters, and final report assembly.

use vstd::prelude::*;
use vstd::multiset::Multiset;
use vstd::seq_lib::group_to_multiset_ensures;

use crate::cli::CliArgs;
use crate::error::{AnalyzerError, ParseWarning, Result};
use crate::metrics::{spec_total_lines, FileAnalysis};
use crate::text::str_eq;

verus! {

/// Saturating addition on machine-word totals.
pub open spec fn sat_add(a: int, b: int) -> int {
    if a + b > usize::MAX {
        usize::MAX as int
    } else {
        a + b
    }
}

/// The saturating sum of all files' total line counts.
pub open spec fn spec_sum_total_lines(files: Seq<FileAnalysis>) -> int
    decreases files.len(),
{
    if files.len() == 0 {
        0
    } else {
        sat_add(spec_sum_total_lines(files.drop_last()), spec_total_lines(files.last()))
    }
}

/// The saturating sum of the function counts.
pub open spec fn spec_sum_functions(files: Seq<FileAnalysis>) -> int
    decreases files.len(),
{
    if files.len() == 0 {
        0
    } else {
        sat_add(spec_sum_functions(files.drop_last()), files.last().functions as int)
    }
}

/// The saturating sum of the method counts.
pub open spec fn spec_sum_methods(files: Seq<FileAnalysis>) -> int
    decreases files.len(),
{
    if files.len() == 0 {
        0
    } else {
        sat_add(spec_sum_methods(files.drop_last()), files.last().methods as int)
    }
}

/// The saturating sum of the class counts.
pub open spec fn spec_sum_classes(files: Seq<FileAnalysis>) -> int
    decreases files.len(),
{
    if files.len() == 0 {
        0
    } else {
        sat_add(spec_sum_classes(files.drop_last()), files.last().classes as int)
    }
}

/// The files of one language.
pub open spec fn spec_files_of_language(files: Seq<FileAnalysis>, lang: Seq<char>) -> Seq<
    FileAnalysis,
> {
    files.filter(|f: FileAnalysis| f.language@ == lang)
}

/// The distinct language names of `files`, in first-occurrence order,
/// appended after `acc`.
pub open spec fn spec_langs_acc(files: Seq<FileAnalysis>, acc: Seq<Seq<char>>) -> Seq<Seq<char>>
    decreases files.len(),
{
    if files.len() == 0 {
        acc
    } else if acc.contains(files[0].language@) {
        spec_langs_acc(files.drop_first(), acc)
    } else {
        spec_langs_acc(files.drop_first(), acc.push(files[0].language@))
    }
}

/// The distinct language names of `files`, in first-occurrence order.
pub open spec fn spec_distinct_languages(files: Seq<FileAnalysis>) -> Seq<Seq<char>> {
    spec_langs_acc(files, Seq::<Seq<char>>::empty())
}

/// Per-language statistics.  Averages are carried in thousandths.
#[derive(Debug, Clone, PartialEq, Eq, Structural)]
pub struct LanguageStats {
    /// How many files report under this language.
    pub file_count: usize,
    /// Their total lines, saturating.
    pub total_lines: usize,
    /// Mean functions per file, in thousandths.
    pub avg_functions_per_file_milli: u64,
    /// Mean methods per file, in thousandths.
    pub avg_methods_per_file_milli: u64,
    /// Mean classes per file, in thousandths.
    pub avg_classes_per_file_milli: u64,
}

/// A scaled mean: `1000 * total / count`, zero when the count is zero,
/// saturating at `u64::MAX`.
pub open spec fn spec_avg_milli(total: int, count: int) -> u64 {
    if count <= 0 {
        0u64
    } else {
        let v = 1000 * total / count;
        if v > 0xFFFF_FFFF_FFFF_FFFF {
            0xFFFF_FFFF_FFFF_FFFF as u64
        } else {
            v as u64
        }
    }
}

/// The statistics of one language's files.
pub open spec fn spec_stats_for(files: Seq<FileAnalysis>, lang: Seq<char>) -> LanguageStats {
    let group = spec_files_of_language(files, lang);
    LanguageStats {
        file_count: group.len() as usize,
        total_lines: spec_sum_total_lines(group) as usize,
        avg_functions_per_file_milli: spec_avg_milli(
            spec_sum_functions(group),
            group.len() as int,
        ),
        avg_methods_per_file_milli: spec_avg_milli(spec_sum_methods(group), group.len() as int),
        avg_classes_per_file_milli: spec_avg_milli(spec_sum_classes(group), group.len() as int),
    }
}

/// Project-wide summary statistics.
#[derive(Debug, Clone)]
pub struct ProjectSummary {
    /// How many files the report covers.
    pub total_files: usize,
    /// Total lines over all files, saturating.
    pub total_lines: usize,
    /// Total function count, saturating.
    pub total_functions: usize,
    /// Total method count, saturating.
    pub total_methods: usize,
    /// Total class count, saturating.
    pub total_classes: usize,
    /// One entry per language, in first-occurrence order; names are unique.
    pub language_breakdown: Vec<(String, LanguageStats)>,
    /// The ten largest files by total lines, largest first.
    pub largest_files: Vec<FileAnalysis>,
    /// The ten highest-scoring files, highest first.
    pub most_complex_files: Vec<FileAnalysis>,
}

/// The names of a breakdown's entries.
pub open spec fn breakdown_names(b: Seq<(String, LanguageStats)>) -> Seq<Seq<char>> {
    b.map_values(|e: (String, LanguageStats)| e.0@)
}

impl ProjectSummary {
    /// Looks up one language's statistics by display name.
    pub fn language_stats(&self, name: &str) -> (r: Option<&LanguageStats>)
        ensures
            match r {
                Some(st) => exists|i: int|
                    0 <= i < self.language_breakdown@.len()
                        && #[trigger] self.language_breakdown@[i].0@ == name@
                        && self.language_breakdown@[i].1 == *st,
                None => forall|i: int|
                    0 <= i < self.language_breakdown@.len()
                        ==> #[trigger] self.language_breakdown@[i].0@ != name@,
            },
    {
        let n = self.language_breakdown.len();
        let mut i: usize = 0;
        while i < n
            invariant
                n == self.language_breakdown@.len(),
                i <= n,
                forall|j: int|
                    0 <= j < i ==> #[trigger] self.language_breakdown@[j].0@ != name@,
            decreases n - i,
        {
            if str_eq(self.language_breakdown[i].0.as_str(), name) {
                return Some(&self.language_breakdown[i].1);
            }
            i += 1;
        }
        None
    }

    /// Whether the breakdown has an entry for this language.
    pub fn has_language(&self, name: &str) -> (r: bool)
        ensures
            r == breakdown_names(self.language_breakdown@).contains(name@),
    {
        let n = self.language_breakdown.len();
        let mut i: usize = 0;
        while i < n
            invariant
                n == self.language_breakdown@.len(),
                i <= n,
                forall|j: int|
                    0 <= j < i ==> breakdown_names(self.language_breakdown@)[j] != name@,
            decreases n - i,
        {
            if str_eq(self.language_breakdown[i].0.as_str(), name) {
                proof {
                    assert(breakdown_names(self.language_breakdown@)[i as int] == name@);
                }
                return true;
            }
            i += 1;
        }
        proof {
            assert(forall|j: int|
                0 <= j < breakdown_names(self.language_breakdown@).len() ==> breakdown_names(
                    self.language_breakdown@,
                )[j] != name@);
        }
        false
    }
}

/// Unfolds one step of `Seq::filter` for file predicates.
pub proof fn lemma_file_filter_step(
    s: Seq<FileAnalysis>,
    pred: spec_fn(FileAnalysis) -> bool,
)
    requires
        s.len() > 0,
    ensures
        s.filter(pred) == if pred(s.last()) {
            s.drop_last().filter(pred).push(s.last())
        } else {
            s.drop_last().filter(pred)
        },
{
    reveal(Seq::filter);
}

/// Sums the total lines of a file list, saturating.
fn sum_total_lines(files: &Vec<FileAnalysis>) -> (r: usize)
    ensures
        r == spec_sum_total_lines(files@),
{
    let n = files.len();
    let mut total: usize = 0;
    let mut i: usize = 0;
    while i < n
        invariant
            n == files@.len(),
            i <= n,
            total == spec_sum_total_lines(files@.take(i as int)),
        decreases n - i,
    {
        proof {
            assert(files@.take(i + 1).drop_last() =~= files@.take(i as int));
            assert(files@.take(i + 1).last() == files@[i as int]);
        }
        total = total.saturating_add(files[i].total_lines());
        i += 1;
    }
    proof {
        assert(files@.take(n as int) =~= files@);
    }
    total
}

/// One pass accumulating the per-group sums of the files of one language.
fn sums_for_language(files: &Vec<FileAnalysis>, lang: &str) -> (r: (usize, usize, usize, usize,
    usize))
    ensures
        ({
            let group = spec_files_of_language(files@, lang@);
            &&& r.0 == group.len()
            &&& r.1 == spec_sum_total_lines(group)
            &&& r.2 == spec_sum_functions(group)
            &&& r.3 == spec_sum_methods(group)
            &&& r.4 == spec_sum_classes(group)
        }),
{
    broadcast use vstd::seq_lib::group_filter_ensures;

    let ghost pred = |f: FileAnalysis| f.language@ == lang@;
    let n = files.len();
    let mut count: usize = 0;
    let mut lines: usize = 0;
    let mut functions: usize = 0;
    let mut methods: usize = 0;
    let mut classes: usize = 0;
    let mut i: usize = 0;
    proof {
        assert(files@.take(0).filter(pred) =~= Seq::<FileAnalysis>::empty()) by {
            reveal(Seq::filter);
        }
    }
    while i < n
        invariant
            n == files@.len(),
            i <= n,
            pred == (|f: FileAnalysis| f.language@ == lang@),
            count == files@.take(i as int).filter(pred).len(),
            count <= i,
            lines == spec_sum_total_lines(files@.take(i as int).filter(pred)),
            functions == spec_sum_functions(files@.take(i as int).filter(pred)),
            methods == spec_sum_methods(files@.take(i as int).filter(pred)),
            classes == spec_sum_classes(files@.take(i as int).filter(pred)),
        decreases n - i,
    {
        proof {
            assert(files@.take(i + 1).drop_last() =~= files@.take(i as int));
            assert(files@.take(i + 1).last() == files@[i as int]);
            lemma_file_filter_step(files@.take(i + 1), pred);
        }
        if str_eq(files[i].language.as_str(), lang) {
            proof {
                let g = files@.take(i as int).filter(pred);
                assert(files@.take(i + 1).filter(pred) == g.push(files@[i as int]));
                assert(g.push(files@[i as int]).drop_last() =~= g);
                assert(g.push(files@[i as int]).last() == files@[i as int]);
                assert(files@.take(i + 1).filter(pred).len() <= i + 1);
            }
            count += 1;
            lines = lines.saturating_add(files[i].total_lines());
            functions = functions.saturating_add(files[i].functions);
            methods = methods.saturating_add(files[i].methods);
            classes = classes.saturating_add(files[i].classes);
        }
        i += 1;
    }
    proof {
        assert(files@.take(n as int) =~= files@);
    }
    (count, lines, functions, methods, classes)
}

/// Computes `1000 * total / count` in thousandths, zero for an empty group.
fn avg_milli(total: usize, count: usize) -> (r: u64)
    ensures
        r == spec_avg_milli(total as int, count as int),
{
    if count == 0 {
        0
    } else {
        let v: u128 = (1000u128 * (total as u128)) / (count as u128);
        if v > 0xFFFF_FFFF_FFFF_FFFF {
            0xFFFF_FFFF_FFFF_FFFF
        } else {
            v as u64
        }
    }
}

/// The distinct language names of the files, in first-occurrence order.
fn distinct_languages(files: &Vec<FileAnalysis>) -> (r: Vec<String>)
    ensures
        r@.map_values(|s: String| s@) == spec_distinct_languages(files@),
{
    let n = files.len();
    let mut out: Vec<String> = Vec::new();
    let mut i: usize = 0;
    proof {
        assert(files@.skip(0) =~= files@);
        assert(out@.map_values(|s: String| s@) =~~= Seq::<Seq<char>>::empty());
    }
    while i < n
        invariant
            n == files@.len(),
            i <= n,
            spec_langs_acc(files@.skip(i as int), out@.map_values(|s: String| s@))
                == spec_distinct_languages(files@),
        decreases n - i,
    {
        let ghost rest = files@.skip(i as int);
        proof {
            assert(rest[0] == files@[i as int]);
            assert(rest.drop_first() =~= files@.skip(i + 1));
        }
        let mut seen = false;
        let m = out.len();
        let mut k: usize = 0;
        while k < m
            invariant
                n == files@.len(),
                i < n,
                m == out@.len(),
                k <= m,
                seen ==> out@.map_values(|s: String| s@).contains(files@[i as int].language@),
                !seen ==> forall|j: int|
                    0 <= j < k ==> (#[trigger] out@[j])@ != files@[i as int].language@,
            ensures
                seen ==> out@.map_values(|s: String| s@).contains(files@[i as int].language@),
                !seen ==> forall|j: int|
                    0 <= j < m ==> (#[trigger] out@[j])@ != files@[i as int].language@,
            decreases m - k,
        {
            if str_eq(out[k].as_str(), files[i].language.as_str()) {
                proof {
                    assert(out@.map_values(|s: String| s@)[k as int]
                        == files@[i as int].language@);
                }
                seen = true;
                break;
            }
            k += 1;
        }
        if !seen {
            let ghost old_views = out@.map_values(|s: String| s@);
            proof {
                assert(old_views.len() == out@.len());
                assert forall|j: int| 0 <= j < old_views.len() implies #[trigger] old_views[j]
                    != files@[i as int].language@ by {
                    assert(out@.map_values(|s: String| s@)[j] == out@[j]@);
                    assert(old_views[j] == out@[j]@);
                }
                assert(!old_views.contains(files@[i as int].language@));
            }
            out.push(files[i].language.clone());
            proof {
                assert(out@.map_values(|s: String| s@) =~~= old_views.push(
                    files@[i as int].language@,
                ));
            }
        } else {
            proof {
                assert(out@.map_values(|s: String| s@).contains(files@[i as int].language@));
            }
        }
        i += 1;
    }
    proof {
        assert(files@.skip(n as int) =~= Seq::<FileAnalysis>::empty());
    }
    out
}

/// Which key the top-ten lists order by.
enum TopKey {
    /// Total line count.
    TotalLines,
    /// Complexity score.
    Score,
}

/// The sort key of a file under a top-ten ordering.
spec fn spec_top_key(k: TopKey, f: FileAnalysis) -> int {
    match k {
        TopKey::TotalLines => spec_total_lines(f),
        TopKey::Score => f.complexity_score_milli as int,
    }
}

fn top_key_of(k: &TopKey, f: &FileAnalysis) -> (r: u64)
    ensures
        match k {
            TopKey::TotalLines => r == spec_total_lines(*f),
            TopKey::Score => r == f.complexity_score_milli,
        },
{
    match k {
        TopKey::TotalLines => f.total_lines() as u64,
        TopKey::Score => f.complexity_score_milli,
    }
}

/// Sorts files by the key, highest first, by repeatedly extracting a
/// maximum.
fn sort_files_desc(input: Vec<FileAnalysis>, key: TopKey) -> (r: Vec<FileAnalysis>)
    ensures
        r@.to_multiset() == input@.to_multiset(),
        r@.len() == input@.len(),
        forall|i: int, j: int|
            0 <= i < j < r@.len() ==> spec_top_key(key, r@[i]) >= spec_top_key(key, r@[j]),
{
    broadcast use group_to_multiset_ensures;
    broadcast use vstd::multiset::group_multiset_axioms;

    let mut rest = input;
    let ghost orig = rest@;
    let mut out: Vec<FileAnalysis> = Vec::new();
    proof {
        assert(out@.to_multiset().add(rest@.to_multiset()) =~= orig.to_multiset());
    }
    while rest.len() > 0
        invariant
            out@.to_multiset().add(rest@.to_multiset()) == orig.to_multiset(),
            out@.len() + rest@.len() == orig.len(),
            forall|i: int, j: int|
                0 <= i < j < out@.len() ==> spec_top_key(key, out@[i]) >= spec_top_key(
                    key,
                    out@[j],
                ),
            forall|i: int, j: int|
                0 <= i < out@.len() && 0 <= j < rest@.len() ==> spec_top_key(key, out@[i])
                    >= spec_top_key(key, rest@[j]),
        decreases rest@.len(),
    {
        let m = rest.len();
        let mut best: usize = 0;
        let mut k: usize = 1;
        while k < m
            invariant
                m == rest@.len(),
                best < m,
                k <= m,
                forall|j: int|
                    0 <= j < k ==> spec_top_key(key, rest@[best as int]) >= spec_top_key(
                        key,
                        rest@[j],
                    ),
            decreases m - k,
        {
            if top_key_of(&key, &rest[k]) > top_key_of(&key, &rest[best]) {
                best = k;
            }
            k += 1;
        }
        let ghost rest0 = rest@;
        let ghost out0 = out@;
        let chosen = rest.remove(best);
        proof {
            broadcast use group_to_multiset_ensures;
            broadcast use vstd::multiset::group_multiset_axioms;

            assert(rest0[best as int] == chosen);
            assert(rest@ == rest0.remove(best as int));
            assert(rest@.to_multiset() == rest0.to_multiset().remove(chosen));
            assert(rest0.to_multiset().count(chosen) > 0) by {
                assert(rest0.contains(chosen));
            }
        }
        out.push(chosen);
        proof {
            broadcast use group_to_multiset_ensures;
            broadcast use vstd::multiset::group_multiset_axioms;

            assert(out@ == out0.push(chosen));
            assert(out@.to_multiset() == out0.to_multiset().insert(chosen));
            assert(out@.to_multiset().add(rest@.to_multiset()) =~= orig.to_multiset());
            assert forall|j: int|
                0 <= j < rest@.len() implies spec_top_key(key, chosen) >= spec_top_key(
                key,
                rest@[j],
            ) by {
                let jj = if j < best { j } else { j + 1 };
                assert(rest@[j] == rest0[jj]);
            }
        }
    }
    out
}

/// The report's terminal aggregate pieces: every record, the summary, the
/// configuration echoed back, a generation timestamp, and the warnings.
#[derive(Debug, Clone)]
pub struct AnalysisReport {
    /// The per-file records that passed the filters.
    pub files: Vec<FileAnalysis>,
    /// Aggregate statistics over `files`.
    pub summary: ProjectSummary,
    /// The configuration the run used.
    pub config: AnalysisConfig,
    /// When the report was generated, as Unix seconds.
    pub generated_at: i64,
    /// Non-fatal warnings gathered during parsing.
    pub warnings: Vec<ParseWarning>,
}

/// The configuration a run used, echoed into its report.
#[derive(Debug)]
pub struct AnalysisConfig {
    /// The analyzed directory.
    pub target_path: String,
    /// The language allow-list, empty for all.
    pub languages: Vec<String>,
    /// Files below this line count are dropped from the report.
    pub min_lines: usize,
    /// Files above this line count are dropped, when set.
    pub max_lines: Option<usize>,
    /// Whether hidden files were considered.
    pub include_hidden: bool,
    /// The per-file size limit, in megabytes.
    pub max_file_size_mb: usize,
}

/// Two configurations carrying the same values.
pub open spec fn config_view_eq(a: AnalysisConfig, b: AnalysisConfig) -> bool {
    &&& a.target_path@ == b.target_path@
    &&& a.languages@.map_values(|s: String| s@) == b.languages@.map_values(|s: String| s@)
    &&& a.min_lines == b.min_lines
    &&& a.max_lines == b.max_lines
    &&& a.include_hidden == b.include_hidden
    &&& a.max_file_size_mb == b.max_file_size_mb
}

impl Clone for AnalysisConfig {
    /// A copy of the configuration, carrying the same values.
    fn clone(&self) -> (r: Self)
        ensures
            config_view_eq(r, *self),
    {
        AnalysisConfig {
            target_path: self.target_path.clone(),
            languages: clone_strings(&self.languages),
            min_lines: self.min_lines,
            max_lines: self.max_lines,
            include_hidden: self.include_hidden,
            max_file_size_mb: self.max_file_size_mb,
        }
    }
}

/// Copies a list of strings element by element.
fn clone_strings(v: &Vec<String>) -> (r: Vec<String>)
    ensures
        r@ == v@,
{
    let n = v.len();
    let mut out: Vec<String> = Vec::new();
    let mut i: usize = 0;
    while i < n
        invariant
            n == v@.len(),
            i <= n,
            out@ =~= v@.take(i as int),
        decreases n - i,
    {
        out.push(v[i].clone());
        i += 1;
    }
    proof {
        assert(v@.take(n as int) =~= v@);
    }
    out
}

/// Relies on `chrono::Utc::now`: the current time, reduced to Unix seconds.
#[verifier::external_body]
pub fn now_timestamp() -> i64 {
    chrono::Utc::now().timestamp()
}

/// Whether `top` is the head of some descending reordering of `files`
/// under `key`: a permutation of `files` exists that is sorted by `key`,
/// highest first, and `top` is its first `cap` entries (all of them, when
/// there are fewer).  This pins the lists' length, membership, order, and
/// that nothing excluded outranks anything included.
pub open spec fn spec_is_top_of(
    top: Seq<FileAnalysis>,
    files: Seq<FileAnalysis>,
    key: spec_fn(FileAnalysis) -> int,
    cap: int,
) -> bool {
    exists|ordered: Seq<FileAnalysis>|
        {
            &&& #[trigger] ordered.to_multiset() == files.to_multiset()
            &&& forall|i: int, j: int|
                0 <= i < j < ordered.len() ==> key(ordered[i]) >= key(ordered[j])
            &&& top == ordered.take(
                if files.len() < cap {
                    files.len() as int
                } else {
                    cap
                },
            )
        }
}

/// Builds the project summary: totals, the per-language breakdown in
/// first-occurrence order, and the ten largest and ten most complex files.
pub fn create_project_summary(files: &Vec<FileAnalysis>) -> (r: ProjectSummary)
    ensures
        r.total_files == files@.len(),
        r.total_lines == spec_sum_total_lines(files@),
        r.total_functions == spec_sum_functions(files@),
        r.total_methods == spec_sum_methods(files@),
        r.total_classes == spec_sum_classes(files@),
        breakdown_names(r.language_breakdown@) == spec_distinct_languages(files@),
        forall|i: int|
            0 <= i < r.language_breakdown@.len() ==> (#[trigger] r.language_breakdown@[i]).1
                == spec_stats_for(files@, r.language_breakdown@[i].0@),
        r.largest_files@.len() == (if files@.len() < 10 { files@.len() as int } else { 10 }),
        spec_is_top_of(r.largest_files@, files@, (|f: FileAnalysis| spec_total_lines(f)), 10),
        forall|i: int, j: int|
            0 <= i < j < r.largest_files@.len() ==> spec_total_lines(#[trigger] r.largest_files@[i])
                >= spec_total_lines(#[trigger] r.largest_files@[j]),
        r.most_complex_files@.len() == (if files@.len() < 10 {
            files@.len() as int
        } else {
            10
        }),
        spec_is_top_of(
            r.most_complex_files@,
            files@,
            (|f: FileAnalysis| f.complexity_score_milli as int),
            10,
        ),
        forall|i: int, j: int|
            0 <= i < j < r.most_complex_files@.len()
                ==> (#[trigger] r.most_complex_files@[i]).complexity_score_milli
                >= (#[trigger] r.most_complex_files@[j]).complexity_score_milli,
{
    let total_files = files.len();
    let total_lines = sum_total_lines(files);
    let (total_functions, total_methods, total_classes) = sum_structure_counts(files);

    let names = distinct_languages(files);
    let mut breakdown: Vec<(String, LanguageStats)> = Vec::new();
    let m = names.len();
    let mut k: usize = 0;
    while k < m
        invariant
            m == names@.len(),
            k <= m,
            breakdown@.len() == k,
            forall|j: int|
                0 <= j < k ==> (#[trigger] breakdown@[j]).0@ == names@[j]@ && breakdown@[j].1
                    == spec_stats_for(files@, names@[j]@),
        decreases m - k,
    {
        let lang = &names[k];
        let (count, lines, functions, methods, classes) = sums_for_language(
            files,
            lang.as_str(),
        );
        let stats = LanguageStats {
            file_count: count,
            total_lines: lines,
            avg_functions_per_file_milli: avg_milli(functions, count),
            avg_methods_per_file_milli: avg_milli(methods, count),
            avg_classes_per_file_milli: avg_milli(classes, count),
        };
        breakdown.push((lang.clone(), stats));
        k += 1;
    }
    proof {
        assert(breakdown_names(breakdown@) =~~= spec_distinct_languages(files@)) by {
            assert(names@.map_values(|s: String| s@) == spec_distinct_languages(files@));
            assert(breakdown_names(breakdown@).len() == names@.len());
            assert(forall|j: int|
                0 <= j < breakdown@.len() ==> breakdown_names(breakdown@)[j] == names@.map_values(
                    |s: String| s@,
                )[j]);
        }
    }

    let mut largest_files = sort_files_desc(clone_files(files), TopKey::TotalLines);
    let ghost largest_sorted = largest_files@;
    largest_files.truncate(10);
    let mut most_complex_files = sort_files_desc(clone_files(files), TopKey::Score);
    let ghost complex_sorted = most_complex_files@;
    most_complex_files.truncate(10);
    proof {
        let bound: int = if files@.len() < 10 { files@.len() as int } else { 10 };
        assert(largest_files@ =~= largest_sorted.take(bound));
        assert(forall|i: int, j: int|
            0 <= i < j < largest_sorted.len()
                ==> (|f: FileAnalysis| spec_total_lines(f))(largest_sorted[i]) >= (
            |f: FileAnalysis| spec_total_lines(f))(largest_sorted[j]));
        assert(spec_is_top_of(
            largest_files@,
            files@,
            (|f: FileAnalysis| spec_total_lines(f)),
            10,
        ));
        assert(most_complex_files@ =~= complex_sorted.take(bound));
        assert(forall|i: int, j: int|
            0 <= i < j < complex_sorted.len()
                ==> (|f: FileAnalysis| f.complexity_score_milli as int)(complex_sorted[i]) >= (
            |f: FileAnalysis| f.complexity_score_milli as int)(complex_sorted[j]));
        assert(spec_is_top_of(
            most_complex_files@,
            files@,
            (|f: FileAnalysis| f.complexity_score_milli as int),
            10,
        ));
    }

    ProjectSummary {
        total_files,
        total_lines,
        total_functions,
        total_methods,
        total_classes,
        language_breakdown: breakdown,
        largest_files,
        most_complex_files,
    }
}

/// Copies a file list element by element.
fn clone_files(files: &Vec<FileAnalysis>) -> (r: Vec<FileAnalysis>)
    ensures
        r@ == files@,
{
    let n = files.len();
    let mut out: Vec<FileAnalysis> = Vec::new();
    let mut i: usize = 0;
    while i < n
        invariant
            n == files@.len(),
            i <= n,
            out@ =~= files@.take(i as int),
        decreases n - i,
    {
        out.push(files[i].clone());
        i += 1;
    }
    proof {
        assert(files@.take(n as int) =~= files@);
    }
    out
}

/// Sums the function, method and class counts, saturating.
fn sum_structure_counts(files: &Vec<FileAnalysis>) -> (r: (usize, usize, usize))
    ensures
        r.0 == spec_sum_functions(files@),
        r.1 == spec_sum_methods(files@),
        r.2 == spec_sum_classes(files@),
{
    let n = files.len();
    let mut functions: usize = 0;
    let mut methods: usize = 0;
    let mut classes: usize = 0;
    let mut i: usize = 0;
    while i < n
        invariant
            n == files@.len(),
            i <= n,
            functions == spec_sum_functions(files@.take(i as int)),
            methods == spec_sum_methods(files@.take(i as int)),
            classes == spec_sum_classes(files@.take(i as int)),
        decreases n - i,
    {
        proof {
            assert(files@.take(i + 1).drop_last() =~= files@.take(i as int));
            assert(files@.take(i + 1).last() == files@[i as int]);
        }
        functions = functions.saturating_add(files[i].functions);
        methods = methods.saturating_add(files[i].methods);
        classes = classes.saturating_add(files[i].classes);
        i += 1;
    }
    proof {
        assert(files@.take(n as int) =~= files@);
    }
    (functions, methods, classes)
}

/// Whether a record passes the caller's post-filters.
pub open spec fn spec_passes_filters(f: FileAnalysis, args: CliArgs) -> bool {
    &&& f.lines_of_code >= args.min_lines
    &&& (args.max_lines matches Some(mx) ==> f.lines_of_code <= mx)
    &&& (args.min_functions matches Some(mn) ==> f.functions >= mn)
    &&& (args.min_classes matches Some(mn) ==> f.classes >= mn)
}

/// Applies the line-count, function-count and class-count post-filters.
pub fn apply_cli_filters(results: Vec<FileAnalysis>, args: &CliArgs) -> (r: Vec<FileAnalysis>)
    ensures
        r@ == results@.filter(|f: FileAnalysis| spec_passes_filters(f, *args)),
{
    let ghost pred = |f: FileAnalysis| spec_passes_filters(f, *args);
    let n = results.len();
    let mut out: Vec<FileAnalysis> = Vec::new();
    let mut i: usize = 0;
    proof {
        assert(results@.take(0).filter(pred) =~= Seq::<FileAnalysis>::empty()) by {
            reveal(Seq::filter);
        }
    }
    while i < n
        invariant
            n == results@.len(),
            i <= n,
            pred == (|f: FileAnalysis| spec_passes_filters(f, *args)),
            out@ == results@.take(i as int).filter(pred),
        decreases n - i,
    {
        proof {
            assert(results@.take(i + 1).drop_last() =~= results@.take(i as int));
            assert(results@.take(i + 1).last() == results@[i as int]);
            lemma_file_filter_step(results@.take(i + 1), pred);
        }
        let f = &results[i];
        let mut keep = f.lines_of_code >= args.min_lines;
        if keep {
            if let Some(mx) = args.max_lines {
                if f.lines_of_code > mx {
                    keep = false;
                }
            }
        }
        if keep {
            if let Some(mn) = args.min_functions {
                if f.functions < mn {
                    keep = false;
                }
            }
        }
        if keep {
            if let Some(mn) = args.min_classes {
                if f.classes < mn {
                    keep = false;
                }
            }
        }
        if keep {
            out.push(f.clone());
        }
        i += 1;
    }
    proof {
        assert(results@.take(n as int) =~= results@);
    }
    out
}

/// Closes an analysis run: a fatal error when discovery found nothing or
/// when every discovered file failed, otherwise the filtered records, their
/// summary, the configuration and the warnings assembled into a report.
pub fn finalize_analysis(
    discovered_count: usize,
    results: Vec<FileAnalysis>,
    warnings: Vec<ParseWarning>,
    args: &CliArgs,
    config: AnalysisConfig,
) -> (r: Result<AnalysisReport>)
    ensures
        discovered_count == 0 ==> (r matches Err(e) && e matches AnalyzerError::Validation(m)
            && m@ == "No supported files found in the specified directory"@),
        discovered_count > 0 && results@.len() == 0 ==> (r matches Err(e) && e matches
            AnalyzerError::Validation(m) && m@ == "Failed to analyze any files successfully"@),
        discovered_count > 0 && results@.len() > 0 ==> (r matches Ok(rep) && {
            &&& rep.files@ == results@.filter(
                |f: FileAnalysis| spec_passes_filters(f, *args),
            )
            &&& rep.warnings == warnings
            &&& rep.config == config
            &&& rep.summary.total_files == rep.files@.len()
        }),
{
    if discovered_count == 0 {
        return Err(AnalyzerError::validation_error(
            "No supported files found in the specified directory",
        ));
    }
    if results.len() == 0 {
        return Err(AnalyzerError::validation_error("Failed to analyze any files successfully"));
    }
    let filtered = apply_cli_filters(results, args);
    let summary = create_project_summary(&filtered);
    let generated_at = now_timestamp();
    Ok(AnalysisReport { files: filtered, summary, config, generated_at, warnings })
}

/// The concatenation of several reports' file lists, in report order.
pub open spec fn spec_concat_files(reports: Seq<AnalysisReport>) -> Seq<FileAnalysis>
    decreases reports.len(),
{
    if reports.len() == 0 {
        Seq::<FileAnalysis>::empty()
    } else {
        spec_concat_files(reports.drop_last()) + reports.last().files@
    }
}

/// Concatenates several reports' files and summarizes them afresh, keeping
/// the first report's configuration.
pub fn merge_analysis_reports(reports: &Vec<AnalysisReport>) -> (r: Result<AnalysisReport>)
    ensures
        reports@.len() == 0 ==> (r matches Err(e) && e matches AnalyzerError::Validation(m)
            && m@ == "No reports to merge"@),
        reports@.len() > 0 ==> (r matches Ok(rep) && config_view_eq(
            rep.config,
            reports@[0].config,
        ) && rep.files@ == spec_concat_files(reports@) && rep.warnings@.len() == 0
            && rep.summary.total_files == rep.files@.len()),
{
    if reports.len() == 0 {
        return Err(AnalyzerError::validation_error("No reports to merge"));
    }
    let n = reports.len();
    let mut merged_files: Vec<FileAnalysis> = Vec::new();
    let mut i: usize = 0;
    proof {
        assert(merged_files@ =~= spec_concat_files(reports@.take(0)));
    }
    while i < n
        invariant
            n == reports@.len(),
            i <= n,
            merged_files@ == spec_concat_files(reports@.take(i as int)),
        decreases n - i,
    {
        proof {
            assert(reports@.take(i + 1).drop_last() =~= reports@.take(i as int));
            assert(reports@.take(i + 1).last() == reports@[i as int]);
        }
        let mut copy = clone_files(&reports[i].files);
        merged_files.append(&mut copy);
        i += 1;
    }
    proof {
        assert(reports@.take(n as int) =~= reports@);
    }
    let summary = create_project_summary(&merged_files);
    let config = reports[0].config.clone();
    let generated_at = now_timestamp();
    Ok(AnalysisReport {
        files: merged_files,
        summary,
        config,
        generated_at,
        warnings: Vec::new(),
    })
}

} // verus!
