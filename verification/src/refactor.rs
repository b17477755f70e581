//! Refactoring-candidate selection: four independent thresholds, the
//! per-file violation reasons, and the score-ordered candidate list.

use vstd::prelude::*;
use vstd::multiset::Multiset;
use vstd::seq_lib::group_to_multiset_ensures;

use crate::metrics::FileAnalysis;

verus! {

/// Configurable cutoffs for flagging a file as a refactoring candidate.
///
/// The defaults follow published complexity guidance: a composite score of
/// ten points, cyclomatic complexity of fifteen, five hundred lines of code,
/// and twenty-five functions per file.
#[derive(Debug, Clone)]
pub struct RefactoringThresholds {
    /// Complexity-score cutoff, in thousandths of a point.
    pub max_complexity_score_milli: u64,
    /// Cyclomatic-complexity cutoff.
    pub max_cyclomatic_complexity: usize,
    /// Lines-of-code cutoff.
    pub max_lines_of_code: usize,
    /// Function-count cutoff.
    pub max_functions: usize,
}

impl Default for RefactoringThresholds {
    fn default() -> (r: Self)
        ensures
            r.max_complexity_score_milli == 10_000,
            r.max_cyclomatic_complexity == 15,
            r.max_lines_of_code == 500,
            r.max_functions == 25,
    {
        RefactoringThresholds {
            max_complexity_score_milli: 10_000,
            max_cyclomatic_complexity: 15,
            max_lines_of_code: 500,
            max_functions: 25,
        }
    }
}

/// Why a file was flagged for refactoring.
#[derive(Debug, Clone, Copy, PartialEq, Eq, Structural)]
pub enum RefactoringReason {
    /// The complexity score reached the score threshold (thousandths).
    HighComplexityScore(u64),
    /// The cyclomatic complexity reached its threshold.
    HighCyclomaticComplexity(usize),
    /// The line count reached the large-file threshold.
    LargeFile(usize),
    /// The function count reached its threshold.
    TooManyFunctions(usize),
}

/// The short label of a reason.
pub open spec fn spec_reason_description(r: RefactoringReason) -> Seq<char> {
    match r {
        RefactoringReason::HighComplexityScore(_) => "High Score"@,
        RefactoringReason::HighCyclomaticComplexity(_) => "High CC"@,
        RefactoringReason::LargeFile(_) => "Large file"@,
        RefactoringReason::TooManyFunctions(_) => "Many funcs"@,
    }
}

impl RefactoringReason {
    /// A short description of the reason.
    pub fn short_description(&self) -> (r: &'static str)
        ensures
            r@ == spec_reason_description(*self),
    {
        match self {
            RefactoringReason::HighComplexityScore(_) => "High Score",
            RefactoringReason::HighCyclomaticComplexity(_) => "High CC",
            RefactoringReason::LargeFile(_) => "Large file",
            RefactoringReason::TooManyFunctions(_) => "Many funcs",
        }
    }
}

/// The ordered list of threshold violations of one file: score, cyclomatic
/// complexity, size, then function count.
pub open spec fn spec_reasons(f: FileAnalysis, t: RefactoringThresholds) -> Seq<
    RefactoringReason,
> {
    (if f.complexity_score_milli >= t.max_complexity_score_milli {
        seq![RefactoringReason::HighComplexityScore(f.complexity_score_milli)]
    } else {
        Seq::<RefactoringReason>::empty()
    }) + (if f.cyclomatic_complexity >= t.max_cyclomatic_complexity {
        seq![RefactoringReason::HighCyclomaticComplexity(f.cyclomatic_complexity)]
    } else {
        Seq::<RefactoringReason>::empty()
    }) + (if f.lines_of_code >= t.max_lines_of_code {
        seq![RefactoringReason::LargeFile(f.lines_of_code)]
    } else {
        Seq::<RefactoringReason>::empty()
    }) + (if f.functions >= t.max_functions {
        seq![RefactoringReason::TooManyFunctions(f.functions)]
    } else {
        Seq::<RefactoringReason>::empty()
    })
}

/// Whether a file violates at least one threshold.
pub open spec fn spec_is_candidate(f: FileAnalysis, t: RefactoringThresholds) -> bool {
    spec_reasons(f, t).len() > 0
}

/// Collects the violations of one file, in threshold order.
fn reasons_for(f: &FileAnalysis, t: &RefactoringThresholds) -> (r: Vec<RefactoringReason>)
    ensures
        r@ == spec_reasons(*f, *t),
{
    let mut out: Vec<RefactoringReason> = Vec::new();
    if f.complexity_score_milli >= t.max_complexity_score_milli {
        out.push(RefactoringReason::HighComplexityScore(f.complexity_score_milli));
    }
    if f.cyclomatic_complexity >= t.max_cyclomatic_complexity {
        out.push(RefactoringReason::HighCyclomaticComplexity(f.cyclomatic_complexity));
    }
    if f.lines_of_code >= t.max_lines_of_code {
        out.push(RefactoringReason::LargeFile(f.lines_of_code));
    }
    if f.functions >= t.max_functions {
        out.push(RefactoringReason::TooManyFunctions(f.functions));
    }
    proof {
        assert(out@ =~= spec_reasons(*f, *t));
    }
    out
}

/// A file flagged for refactoring, with every threshold it violated.  Never
/// constructed for a file that violates none.
#[derive(Debug, Clone)]
pub struct RefactoringCandidate {
    /// The flagged file's metric record.
    pub file: FileAnalysis,
    /// The violations, in threshold order; never empty.
    pub reasons: Vec<RefactoringReason>,
}

/// The comma-separated reason labels.
pub open spec fn spec_reasons_string(rs: Seq<RefactoringReason>) -> Seq<char>
    decreases rs.len(),
{
    if rs.len() == 0 {
        Seq::<char>::empty()
    } else if rs.len() == 1 {
        spec_reason_description(rs[0])
    } else {
        spec_reasons_string(rs.drop_last()) + ", "@ + spec_reason_description(rs.last())
    }
}

impl RefactoringCandidate {
    /// Joins the reason labels with commas.
    pub fn reasons_string(&self) -> (r: String)
        ensures
            r@ == spec_reasons_string(self.reasons@),
    {
        let n = self.reasons.len();
        let mut s = String::new();
        let mut i: usize = 0;
        while i < n
            invariant
                n == self.reasons@.len(),
                i <= n,
                s@ == spec_reasons_string(self.reasons@.take(i as int)),
            decreases n - i,
        {
            proof {
                assert(self.reasons@.take(i + 1).drop_last() =~= self.reasons@.take(i as int));
                assert(self.reasons@.take(i + 1).last() == self.reasons@[i as int]);
            }
            if i > 0 {
                s.append(", ");
            }
            s.append(self.reasons[i].short_description());
            i += 1;
        }
        proof {
            assert(self.reasons@.take(n as int) =~= self.reasons@);
        }
        s
    }
}

/// The files that violate at least one threshold, in input order.
pub open spec fn spec_candidate_files(files: Seq<FileAnalysis>, t: RefactoringThresholds) -> Seq<
    FileAnalysis,
> {
    files.filter(|f: FileAnalysis| spec_is_candidate(f, t))
}

/// The metric records of a candidate list.
pub open spec fn candidate_files(cands: Seq<RefactoringCandidate>) -> Seq<FileAnalysis> {
    cands.map_values(|c: RefactoringCandidate| c.file)
}

/// Flags every file that crosses at least one threshold, carries the ordered
/// violation list with each, and sorts the result by complexity score,
/// highest first.
pub fn identify_refactoring_candidates(
    files: &Vec<FileAnalysis>,
    thresholds: &RefactoringThresholds,
) -> (r: Vec<RefactoringCandidate>)
    ensures
        candidate_files(r@).to_multiset() == spec_candidate_files(
            files@,
            *thresholds,
        ).to_multiset(),
        forall|i: int|
            0 <= i < r@.len() ==> (#[trigger] r@[i]).reasons@ == spec_reasons(
                r@[i].file,
                *thresholds,
            ) && r@[i].reasons@.len() > 0,
        forall|i: int, j: int|
            0 <= i < j < r@.len() ==> r@[i].file.complexity_score_milli
                >= r@[j].file.complexity_score_milli,
{
    broadcast use group_to_multiset_ensures;

    let n = files.len();
    let mut picked: Vec<RefactoringCandidate> = Vec::new();
    let mut i: usize = 0;
    while i < n
        invariant
            n == files@.len(),
            i <= n,
            candidate_files(picked@) =~= spec_candidate_files(files@.take(i as int), *thresholds),
            forall|k: int|
                0 <= k < picked@.len() ==> (#[trigger] picked@[k]).reasons@ == spec_reasons(
                    picked@[k].file,
                    *thresholds,
                ) && picked@[k].reasons@.len() > 0,
        decreases n - i,
    {
        let reasons = reasons_for(&files[i], thresholds);
        proof {
            lemma_filter_take_step(files@, *thresholds, i as int);
        }
        if reasons.len() > 0 {
            let c = RefactoringCandidate { file: files[i].clone(), reasons };
            proof {
                assert(c.file == files@[i as int]);
            }
            picked.push(c);
        }
        i += 1;
    }
    proof {
        assert(files@.take(n as int) =~= files@);
    }
    sort_candidates_by_score(picked)
}

/// Filtering one more element keeps or appends it, by whether it passes.
proof fn lemma_filter_take_step(files: Seq<FileAnalysis>, t: RefactoringThresholds, i: int)
    requires
        0 <= i < files.len(),
    ensures
        spec_is_candidate(files[i], t) ==> spec_candidate_files(files.take(i + 1), t)
            =~= spec_candidate_files(files.take(i), t).push(files[i]),
        !spec_is_candidate(files[i], t) ==> spec_candidate_files(files.take(i + 1), t)
            =~= spec_candidate_files(files.take(i), t),
{
    let pred = |f: FileAnalysis| spec_is_candidate(f, t);
    assert(files.take(i + 1).drop_last() =~= files.take(i));
    assert(files.take(i + 1).last() == files[i]);
    reveal_filter_step(files.take(i + 1), pred);
}

/// Unfolds one step of `Seq::filter` over a non-empty sequence.
proof fn reveal_filter_step(s: Seq<FileAnalysis>, pred: spec_fn(FileAnalysis) -> bool)
    requires
        s.len() > 0,
    ensures
        s.filter(pred) == if pred(s.last()) {
            s.drop_last().filter(pred).push(s.last())
        } else {
            s.drop_last().filter(pred)
        },
{
    reveal(Seq::filter);
}

/// Sorts candidates by complexity score, highest first, by repeatedly
/// extracting a maximum.
fn sort_candidates_by_score(input: Vec<RefactoringCandidate>) -> (r: Vec<RefactoringCandidate>)
    ensures
        r@.to_multiset() == input@.to_multiset(),
        candidate_files(r@).to_multiset() == candidate_files(input@).to_multiset(),
        forall|i: int|
            0 <= i < r@.len() ==> input@.contains(#[trigger] r@[i]),
        forall|i: int, j: int|
            0 <= i < j < r@.len() ==> r@[i].file.complexity_score_milli
                >= r@[j].file.complexity_score_milli,
{
    broadcast use group_to_multiset_ensures;
    broadcast use vstd::multiset::group_multiset_axioms;

    let mut rest = input;
    let ghost orig = rest@;
    let mut out: Vec<RefactoringCandidate> = Vec::new();
    proof {
        assert(out@.to_multiset().add(rest@.to_multiset()) =~= orig.to_multiset());
    }
    while rest.len() > 0
        invariant
            out@.to_multiset().add(rest@.to_multiset()) == orig.to_multiset(),
            forall|i: int, j: int|
                0 <= i < j < out@.len() ==> out@[i].file.complexity_score_milli
                    >= out@[j].file.complexity_score_milli,
            forall|i: int, j: int|
                0 <= i < out@.len() && 0 <= j < rest@.len()
                    ==> out@[i].file.complexity_score_milli
                    >= rest@[j].file.complexity_score_milli,
            forall|i: int| 0 <= i < out@.len() ==> orig.contains(#[trigger] out@[i]),
        decreases rest@.len(),
    {
        // Find the first maximal score.
        let m = rest.len();
        let mut best: usize = 0;
        let mut k: usize = 1;
        while k < m
            invariant
                m == rest@.len(),
                best < m,
                k <= m,
                forall|j: int|
                    0 <= j < k ==> rest@[best as int].file.complexity_score_milli
                        >= rest@[j].file.complexity_score_milli,
            decreases m - k,
        {
            if rest[k].file.complexity_score_milli > rest[best].file.complexity_score_milli {
                best = k;
            }
            k += 1;
        }
        let ghost rest0 = rest@;
        let ghost out0 = out@;
        let chosen = rest.remove(best);
        proof {
            broadcast use group_to_multiset_ensures;
            broadcast use vstd::multiset::group_multiset_axioms;

            assert(rest0[best as int] == chosen);
            assert(rest0.contains(chosen));
            assert(rest0.to_multiset().count(chosen) > 0);
            assert(orig.to_multiset().count(chosen) == out0.to_multiset().count(chosen)
                + rest0.to_multiset().count(chosen));
            assert(orig.to_multiset().count(chosen) > 0);
            assert(orig.contains(chosen));
            assert(rest@ == rest0.remove(best as int));
            assert(rest@.to_multiset() == rest0.to_multiset().remove(chosen));
        }
        out.push(chosen);
        proof {
            broadcast use group_to_multiset_ensures;
            broadcast use vstd::multiset::group_multiset_axioms;

            assert(out@ == out0.push(chosen));
            assert(out@.to_multiset() == out0.to_multiset().insert(chosen));
            assert(out@.to_multiset().add(rest@.to_multiset()) =~= orig.to_multiset());
            assert forall|j: int|
                0 <= j < rest@.len() implies chosen.file.complexity_score_milli
                >= rest@[j].file.complexity_score_milli by {
                let jj = if j < best { j } else { j + 1 };
                assert(rest@[j] == rest0[jj]);
            }
        }
    }
    proof {
        broadcast use group_to_multiset_ensures;
        broadcast use vstd::multiset::group_multiset_axioms;

        assert(rest@.len() == 0);
        assert(rest@.to_multiset().len() == 0);
        vstd::multiset::lemma_multiset_empty_len(rest@.to_multiset());
        assert(out@.to_multiset().add(Multiset::<RefactoringCandidate>::empty())
            =~= out@.to_multiset());
        assert(out@.to_multiset() =~= orig.to_multiset());
        lemma_candidate_files_multiset(out@, orig);
    }
    out
}

/// Equal candidate multisets project to equal file multisets.
proof fn lemma_candidate_files_multiset(a: Seq<RefactoringCandidate>, b: Seq<RefactoringCandidate>)
    requires
        a.to_multiset() == b.to_multiset(),
    ensures
        candidate_files(a).to_multiset() == candidate_files(b).to_multiset(),
    decreases a.len(),
{
    broadcast use group_to_multiset_ensures;

    if a.len() == 0 {
        assert(b.to_multiset().len() == 0);
        assert(b.len() == 0);
        assert(candidate_files(a) =~= Seq::<FileAnalysis>::empty());
        assert(candidate_files(b) =~= Seq::<FileAnalysis>::empty());
    } else {
        let x = a.last();
        assert(a.to_multiset().contains(x)) by {
            assert(a.contains(x));
        }
        assert(b.to_multiset().contains(x));
        assert(b.contains(x));
        let k = choose|k: int| 0 <= k < b.len() && b[k] == x;
        let a1 = a.drop_last();
        let b1 = b.remove(k);
        assert(a.to_multiset() == a1.to_multiset().insert(x)) by {
            assert(a1.push(x) =~= a);
        }
        assert(b1.to_multiset() == b.to_multiset().remove(x));
        assert(a1.to_multiset() == b1.to_multiset()) by {
            assert(a1.to_multiset() =~= a.to_multiset().remove(x));
        }
        lemma_candidate_files_multiset(a1, b1);
        assert(candidate_files(a).to_multiset() == candidate_files(a1).to_multiset().insert(
            x.file,
        )) by {
            assert(candidate_files(a1).push(x.file) =~= candidate_files(a));
        }
        assert(candidate_files(b).to_multiset() == candidate_files(b1).to_multiset().insert(
            x.file,
        )) by {
            assert(candidate_files(b).remove(k) =~= candidate_files(b1));
            assert(candidate_files(b)[k] == x.file);
            assert(candidate_files(b1).to_multiset() == candidate_files(b).to_multiset().remove(
                x.file,
            ));
            assert(candidate_files(b).to_multiset().contains(x.file)) by {
                assert(candidate_files(b).contains(x.file)) by {
                    assert(candidate_files(b)[k] == x.file);
                }
            }
        }
    }
}

/// Raising any single threshold cannot increase the number of candidates,
/// and lowering it cannot decrease the number: a looser threshold set admits
/// every file a tighter one admits.
pub proof fn lemma_threshold_monotonicity(
    files: Seq<FileAnalysis>,
    lower: RefactoringThresholds,
    higher: RefactoringThresholds,
)
    requires
        lower.max_complexity_score_milli <= higher.max_complexity_score_milli,
        lower.max_cyclomatic_complexity <= higher.max_cyclomatic_complexity,
        lower.max_lines_of_code <= higher.max_lines_of_code,
        lower.max_functions <= higher.max_functions,
    ensures
        spec_candidate_files(files, higher).len() <= spec_candidate_files(files, lower).len(),
    decreases files.len(),
{
    if files.len() > 0 {
        lemma_threshold_monotonicity(files.drop_last(), lower, higher);
        reveal_filter_step(files, |f: FileAnalysis| spec_is_candidate(f, higher));
        reveal_filter_step(files, |f: FileAnalysis| spec_is_candidate(f, lower));
        assert(spec_is_candidate(files.last(), higher) ==> spec_is_candidate(
            files.last(),
            lower,
        ));
    } else {
        reveal(Seq::filter);
    }
}

} // verus!
