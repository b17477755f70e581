//! Metric extraction over a file's syntax-tree nodes: function, class,
//! method and control-flow counts, cyclomatic complexity, and the
//! AST-accurate comment-line accounting.

use vstd::prelude::*;

use crate::language::{
    kind_views, spec_class_kinds, spec_comment_kinds, spec_control_flow_kinds,
    spec_function_kinds, spec_method_kinds, NodeKindMapper, SupportedLanguage,
};
use crate::score::{complexity_score_milli, spec_score_saturated};
use vstd::pervasive::VecAdditionalExecFns;

verus! {

/// What the metric extractor reads of one concrete-syntax-tree node, in the
/// pre-order the traversal visits them.
#[derive(Debug, Clone)]
pub struct NodeRec {
    /// The grammar's label for the node.
    pub kind: String,
    /// First source row the node covers, 0-based.
    pub start_row: usize,
    /// Column where the node begins on its first row, 0-based.
    pub start_col: usize,
    /// Last source row the node covers, 0-based, inclusive.
    pub end_row: usize,
    /// Whether the node is an error marker.
    pub error: bool,
    /// Whether the node marks a token the parser had to invent.
    pub missing: bool,
}

/// How many nodes of `nodes` have a kind drawn from `kinds`.
pub open spec fn spec_count_matching(nodes: Seq<NodeRec>, kinds: Seq<Seq<char>>) -> nat
    decreases nodes.len(),
{
    if nodes.len() == 0 {
        0
    } else {
        spec_count_matching(nodes.drop_last(), kinds) + (if kinds.contains(
            nodes.last().kind@,
        ) {
            1nat
        } else {
            0nat
        })
    }
}

pub proof fn lemma_count_matching_le_len(nodes: Seq<NodeRec>, kinds: Seq<Seq<char>>)
    ensures
        spec_count_matching(nodes, kinds) <= nodes.len(),
    decreases nodes.len(),
{
    if nodes.len() > 0 {
        lemma_count_matching_le_len(nodes.drop_last(), kinds);
    }
}

/// Counts the nodes whose kind is one of `kinds`.  This is the single
/// traversal shape every node-kind metric reuses.
fn count_matching(nodes: &Vec<NodeRec>, kinds: &Vec<&'static str>) -> (r: usize)
    ensures
        r == spec_count_matching(nodes@, kind_views(kinds@)),
{
    let n = nodes.len();
    let mut count: usize = 0;
    let mut i: usize = 0;
    while i < n
        invariant
            n == nodes@.len(),
            i <= n,
            count <= i,
            count == spec_count_matching(nodes@.take(i as int), kind_views(kinds@)),
        decreases n - i,
    {
        proof {
            assert(nodes@.take(i + 1).drop_last() =~= nodes@.take(i as int));
            assert(nodes@.take(i + 1).last() == nodes@[i as int]);
        }
        if crate::language::kind_list_contains(kinds, nodes[i].kind.as_str()) {
            count += 1;
        }
        i += 1;
    }
    proof {
        assert(nodes@.take(n as int) =~= nodes@);
    }
    count
}

/// Counts function declarations.
pub fn count_functions(nodes: &Vec<NodeRec>, language: &SupportedLanguage) -> (r: usize)
    ensures
        r == spec_count_matching(nodes@, spec_function_kinds(*language)),
{
    count_matching(nodes, &language.function_node_kinds())
}

/// Counts class and struct declarations.
pub fn count_classes(nodes: &Vec<NodeRec>, language: &SupportedLanguage) -> (r: usize)
    ensures
        r == spec_count_matching(nodes@, spec_class_kinds(*language)),
{
    count_matching(nodes, &language.class_node_kinds())
}

/// Counts method declarations.
pub fn count_methods(nodes: &Vec<NodeRec>, language: &SupportedLanguage) -> (r: usize)
    ensures
        r == spec_count_matching(nodes@, spec_method_kinds(*language)),
{
    count_matching(nodes, &language.method_node_kinds())
}

/// Counts control-flow decision points.
pub fn count_control_flow(nodes: &Vec<NodeRec>, language: &SupportedLanguage) -> (r: usize)
    ensures
        r == spec_count_matching(nodes@, spec_control_flow_kinds(*language)),
{
    count_matching(nodes, &language.control_flow_node_kinds())
}

/// Cyclomatic complexity: one for the minimum path, plus one per
/// control-flow decision point; one flat when no tree is available.
pub open spec fn spec_cyclomatic(nodes: Option<Seq<NodeRec>>, l: SupportedLanguage) -> nat {
    match nodes {
        Some(ns) => 1 + spec_count_matching(ns, spec_control_flow_kinds(l)),
        None => 1,
    }
}

/// Computes cyclomatic complexity from the node list, or the minimum when
/// parsing produced no tree.
pub fn calculate_cyclomatic_complexity(
    nodes: Option<&Vec<NodeRec>>,
    language: &SupportedLanguage,
) -> (r: usize)
    requires
        nodes matches Some(ns) ==> ns@.len() < usize::MAX,
    ensures
        r == spec_cyclomatic(
            match nodes {
                Some(ns) => Some(ns@),
                None => None,
            },
            *language,
        ),
        r >= 1,
{
    match nodes {
        Some(ns) => {
            proof {
                lemma_count_matching_le_len(ns@, spec_control_flow_kinds(*language));
            }
            1 + count_control_flow(ns, language)
        },
        None => 1,
    }
}

/// Whether some comment node of `nodes` covers `row`.
pub open spec fn spec_row_commented(nodes: Seq<NodeRec>, l: SupportedLanguage, row: int) -> bool {
    exists|i: int|
        0 <= i < nodes.len() && spec_comment_kinds(l).contains(#[trigger] nodes[i].kind@)
            && nodes[i].start_row <= row <= nodes[i].end_row
}

/// How many of the rows `0 .. bound` are covered by a comment node.
pub open spec fn spec_comment_line_count(
    nodes: Seq<NodeRec>,
    l: SupportedLanguage,
    bound: nat,
) -> nat
    decreases bound,
{
    if bound == 0 {
        0
    } else {
        spec_comment_line_count(nodes, l, (bound - 1) as nat) + (if spec_row_commented(
            nodes,
            l,
            bound - 1,
        ) {
            1nat
        } else {
            0nat
        })
    }
}

/// The comment-line count never exceeds the row bound.
pub proof fn lemma_comment_line_count_le_bound(
    nodes: Seq<NodeRec>,
    l: SupportedLanguage,
    bound: nat,
)
    ensures
        spec_comment_line_count(nodes, l, bound) <= bound,
    decreases bound,
{
    if bound > 0 {
        lemma_comment_line_count_le_bound(nodes, l, (bound - 1) as nat);
    }
}

/// Counts the distinct source rows, below `line_count`, that some comment
/// node covers.  A row inside two adjacent comments counts once; a
/// multi-line comment contributes every row it spans.
pub fn count_comment_lines_ast(
    nodes: &Vec<NodeRec>,
    language: &SupportedLanguage,
    line_count: usize,
) -> (r: usize)
    ensures
        r == spec_comment_line_count(nodes@, *language, line_count as nat),
{
    let mut marks: Vec<bool> = vec![false; line_count];
    proof {
        assert(forall|row: int| 0 <= row < line_count ==> !marks@[row]);
    }
    let n = nodes.len();
    let mut i: usize = 0;
    while i < n
        invariant
            n == nodes@.len(),
            i <= n,
            marks@.len() == line_count,
            forall|row: int|
                0 <= row < line_count ==> marks@[row] == spec_row_commented(
                    nodes@.take(i as int),
                    *language,
                    row,
                ),
        decreases n - i,
    {
        let is_comment = language.is_comment_node(nodes[i].kind.as_str());
        if is_comment {
            let s = nodes[i].start_row;
            let e = nodes[i].end_row;
            if s <= e && s < line_count {
                let stop = if e < line_count { e + 1 } else { line_count };
                let mut row = s;
                while row < stop
                    invariant
                        n == nodes@.len(),
                        i < n,
                        marks@.len() == line_count,
                        s <= row <= stop <= line_count,
                        s == nodes@[i as int].start_row,
                        stop <= nodes@[i as int].end_row + 1,
                        spec_comment_kinds(*language).contains(nodes@[i as int].kind@),
                        forall|rr: int|
                            0 <= rr < line_count ==> marks@[rr] == (spec_row_commented(
                                nodes@.take(i as int),
                                *language,
                                rr,
                            ) || (s <= rr < row)),
                    decreases stop - row,
                {
                    marks.set(row, true);
                    row += 1;
                }
            }
        }
        proof {
            lemma_row_commented_step(nodes@, *language, i as int, line_count as int);
            assert forall|row: int|
                0 <= row < line_count implies marks@[row] == spec_row_commented(
                nodes@.take(i + 1),
                *language,
                row,
            ) by {
                assert(spec_row_commented(nodes@.take(i + 1), *language, row) == (
                spec_row_commented(nodes@.take(i as int), *language, row) || (spec_comment_kinds(
                    *language,
                ).contains(nodes@[i as int].kind@) && nodes@[i as int].start_row <= row
                    <= nodes@[i as int].end_row)));
            }
        }
        i += 1;
    }
    proof {
        assert(nodes@.take(n as int) =~= nodes@);
    }
    // Count the marked rows.
    let mut count: usize = 0;
    let mut row: usize = 0;
    while row < line_count
        invariant
            marks@.len() == line_count,
            row <= line_count,
            count <= row,
            forall|rr: int|
                0 <= rr < line_count ==> marks@[rr] == spec_row_commented(
                    nodes@,
                    *language,
                    rr,
                ),
            count == spec_comment_line_count(nodes@, *language, row as nat),
        decreases line_count - row,
    {
        if marks[row] {
            count += 1;
        }
        row += 1;
    }
    count
}

/// Extending the prefix by one node extends row coverage by exactly that
/// node's span.
proof fn lemma_row_commented_step(
    nodes: Seq<NodeRec>,
    l: SupportedLanguage,
    i: int,
    bound: int,
)
    requires
        0 <= i < nodes.len(),
    ensures
        forall|row: int|
            0 <= row < bound ==> spec_row_commented(nodes.take(i + 1), l, row) == (
            spec_row_commented(nodes.take(i), l, row) || (spec_comment_kinds(l).contains(
                nodes[i].kind@,
            ) && nodes[i].start_row <= row <= nodes[i].end_row)),
{
    assert forall|row: int| 0 <= row < bound implies spec_row_commented(nodes.take(i + 1), l, row)
        == (spec_row_commented(nodes.take(i), l, row) || (spec_comment_kinds(l).contains(
        nodes[i].kind@,
    ) && nodes[i].start_row <= row <= nodes[i].end_row)) by {
        let pre = nodes.take(i);
        let ext = nodes.take(i + 1);
        assert(ext.len() == i + 1);
        assert(forall|j: int| 0 <= j <= i ==> ext[j] == nodes[j]);
        if spec_row_commented(ext, l, row) {
            let j = choose|j: int|
                0 <= j < ext.len() && spec_comment_kinds(l).contains(#[trigger] ext[j].kind@)
                    && ext[j].start_row <= row <= ext[j].end_row;
            if j < i {
                assert(pre[j] == nodes[j]);
                assert(spec_row_commented(pre, l, row));
            }
        }
        if spec_row_commented(pre, l, row) {
            let j = choose|j: int|
                0 <= j < pre.len() && spec_comment_kinds(l).contains(#[trigger] pre[j].kind@)
                    && pre[j].start_row <= row <= pre[j].end_row;
            assert(ext[j] == pre[j]);
            assert(spec_row_commented(ext, l, row));
        }
        if spec_comment_kinds(l).contains(nodes[i].kind@) && nodes[i].start_row <= row
            <= nodes[i].end_row {
            assert(ext[i] == nodes[i]);
            assert(spec_row_commented(ext, l, row));
        }
    }
}

/// The derived code-line count: non-blank lines minus comment lines,
/// saturating at zero.
pub open spec fn spec_lines_of_code(non_blank: int, comment_lines: int) -> int {
    if comment_lines <= non_blank {
        non_blank - comment_lines
    } else {
        0
    }
}

/// The line accounting law: the AST comment-line count never exceeds the
/// row bound it was computed under, and whenever it does not exceed the
/// non-blank count, code and comment lines partition the non-blank lines
/// exactly, so their sum never exceeds the non-blank count.
pub proof fn lemma_line_accounting(
    nodes: Seq<NodeRec>,
    l: SupportedLanguage,
    bound: nat,
    non_blank: int,
)
    requires
        0 <= non_blank,
    ensures
        spec_comment_line_count(nodes, l, bound) <= bound,
        spec_comment_line_count(nodes, l, bound) <= non_blank ==> spec_lines_of_code(
            non_blank,
            spec_comment_line_count(nodes, l, bound) as int,
        ) + spec_comment_line_count(nodes, l, bound) == non_blank,
        spec_lines_of_code(non_blank, spec_comment_line_count(nodes, l, bound) as int)
            <= non_blank,
{
    lemma_comment_line_count_le_bound(nodes, l, bound);
}

/// Whether a metric record is exactly the one the extraction stage derives
/// from a source text and its syntax-tree nodes.
pub open spec fn spec_analysis_matches(
    f: FileAnalysis,
    source: Seq<char>,
    l: SupportedLanguage,
    nodes: Seq<NodeRec>,
) -> bool {
    let all = crate::lines::spec_lines(source);
    let blank = crate::lines::spec_blank_count(all);
    let comments = spec_comment_line_count(nodes, l, all.len());
    let non_blank = all.len() - blank;
    &&& f.language@ == crate::language::spec_language_name(l)
    &&& f.blank_lines == blank
    &&& f.comment_lines == comments
    &&& f.lines_of_code == spec_lines_of_code(non_blank, comments as int)
    &&& f.functions == spec_count_matching(nodes, spec_function_kinds(l))
    &&& f.methods == spec_count_matching(nodes, spec_method_kinds(l))
    &&& f.classes == spec_count_matching(nodes, spec_class_kinds(l))
    &&& f.cyclomatic_complexity == spec_cyclomatic(Some(nodes), l)
    &&& f.complexity_score_milli == spec_score_saturated(
        f.lines_of_code as nat,
        f.cyclomatic_complexity as nat,
        f.functions as nat,
        f.classes as nat,
    )
}

/// The idempotence law: extraction is deterministic.  Two records derived
/// from the same source text and the same parsed node list carry identical
/// metrics, so analyzing a file twice under one configuration yields one
/// answer, given the same parse.
pub proof fn lemma_analysis_deterministic(
    a: FileAnalysis,
    b: FileAnalysis,
    source: Seq<char>,
    l: SupportedLanguage,
    nodes: Seq<NodeRec>,
)
    requires
        spec_analysis_matches(a, source, l, nodes),
        spec_analysis_matches(b, source, l, nodes),
    ensures
        a.language@ == b.language@,
        a.lines_of_code == b.lines_of_code,
        a.blank_lines == b.blank_lines,
        a.comment_lines == b.comment_lines,
        a.functions == b.functions,
        a.methods == b.methods,
        a.classes == b.classes,
        a.cyclomatic_complexity == b.cyclomatic_complexity,
        a.complexity_score_milli == b.complexity_score_milli,
{
}

/// The per-file metric record.  The score field is filled in by the single
/// scoring step and never set directly by callers.
#[derive(Debug)]
pub struct FileAnalysis {
    /// The analyzed file.
    pub path: String,
    /// The language's display name.
    pub language: String,
    /// Non-blank, non-comment lines.
    pub lines_of_code: usize,
    /// Lines that are empty after trimming.
    pub blank_lines: usize,
    /// Distinct lines covered by comments.
    pub comment_lines: usize,
    /// Function-like declarations.
    pub functions: usize,
    /// Method declarations.
    pub methods: usize,
    /// Class- or struct-like declarations.
    pub classes: usize,
    /// One plus the number of control-flow decision points.
    pub cyclomatic_complexity: usize,
    /// The derived complexity score, in thousandths of a point.
    pub complexity_score_milli: u64,
}

/// Total lines of a record, saturating at the machine limit.
pub open spec fn spec_total_lines(f: FileAnalysis) -> int {
    let t = f.lines_of_code + f.blank_lines + f.comment_lines;
    if t > usize::MAX {
        usize::MAX as int
    } else {
        t
    }
}

impl Clone for FileAnalysis {
    /// An equal copy of the record.
    fn clone(&self) -> (r: Self)
        ensures
            r == *self,
    {
        FileAnalysis {
            path: self.path.clone(),
            language: self.language.clone(),
            lines_of_code: self.lines_of_code,
            blank_lines: self.blank_lines,
            comment_lines: self.comment_lines,
            functions: self.functions,
            methods: self.methods,
            classes: self.classes,
            cyclomatic_complexity: self.cyclomatic_complexity,
            complexity_score_milli: self.complexity_score_milli,
        }
    }
}

impl FileAnalysis {
    /// Code, blank and comment lines together.
    pub fn total_lines(&self) -> (r: usize)
        ensures
            r == spec_total_lines(*self),
    {
        self.lines_of_code.saturating_add(self.blank_lines).saturating_add(self.comment_lines)
    }

    /// Fills in the complexity score from the other metric fields.
    pub fn calculate_complexity(&mut self)
        ensures
            *final(self) == (FileAnalysis {
                complexity_score_milli: spec_score_saturated(
                    old(self).lines_of_code as nat,
                    old(self).cyclomatic_complexity as nat,
                    old(self).functions as nat,
                    old(self).classes as nat,
                ),
                ..*old(self)
            }),
    {
        self.complexity_score_milli = complexity_score_milli(
            self.lines_of_code,
            self.cyclomatic_complexity,
            self.functions,
            self.classes,
        );
    }
}

} // verus!
