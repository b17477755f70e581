//! The parse-with-recovery pipeline: grammar loading, the defensive parse
//! with a sanitization retry, error-location extraction, and the per-file
//! metric assembly.

use vstd::prelude::*;

use crate::error::{AnalyzerError, ParseWarning, ParseWarningLocation, Result, WarningType};
use crate::language::{
    spec_language_name, LanguageManager, SupportedLanguage,
};
use crate::lines::{
    line_views, spec_blank_count, spec_lines, spec_trim_end, split_source_lines, trim_chars,
};
use crate::metrics::{
    calculate_cyclomatic_complexity, count_classes, count_comment_lines_ast, count_functions,
    count_methods, FileAnalysis, NodeRec,
};
use crate::sanitize::{sanitize_for_tree_sitter, spec_inc};
use crate::score::spec_score_saturated;
use crate::text::{
    is_space, spec_decimal, spec_is_space, str_chars_vec, str_eq, string_from_chars,
    usize_to_string,
};

verus! {

/// Declares `tree_sitter::Language` so grammar objects can flow through
/// signatures; its values stay opaque.
#[verifier::external_type_specification]
#[verifier::external_body]
pub struct ExLanguage(tree_sitter::Language);

/// Declares `tree_sitter::Parser`; each analysis task constructs its own.
#[verifier::external_type_specification]
#[verifier::external_body]
pub struct ExParser(tree_sitter::Parser);

/// Declares `tree_sitter::Tree`, the opaque concrete syntax tree.
#[verifier::external_type_specification]
#[verifier::external_body]
pub struct ExTree(tree_sitter::Tree);

/// Declares `tree_sitter::Node`, one node of a tree.
#[verifier::external_type_specification]
#[verifier::external_body]
pub struct ExNode<'tree>(tree_sitter::Node<'tree>);

/// Declares `tree_sitter::TreeCursor`, the traversal handle the iterative
/// walk moves.
#[verifier::external_type_specification]
#[verifier::external_body]
pub struct ExTreeCursor<'tree>(tree_sitter::TreeCursor<'tree>);

/// Relies on the Rust grammar crate's `LANGUAGE` constant.
#[verifier::external_body]
fn grammar_rust() -> tree_sitter::Language {
    tree_sitter_rust::LANGUAGE.into()
}

/// Relies on the JavaScript grammar crate's `LANGUAGE` constant.
#[verifier::external_body]
fn grammar_javascript() -> tree_sitter::Language {
    tree_sitter_javascript::LANGUAGE.into()
}

/// Relies on the TypeScript grammar crate's `LANGUAGE_TYPESCRIPT` constant.
#[verifier::external_body]
fn grammar_typescript() -> tree_sitter::Language {
    tree_sitter_typescript::LANGUAGE_TYPESCRIPT.into()
}

/// Relies on the TypeScript grammar crate's `LANGUAGE_TSX` constant.
#[verifier::external_body]
fn grammar_tsx() -> tree_sitter::Language {
    tree_sitter_typescript::LANGUAGE_TSX.into()
}

/// Relies on the Python grammar crate's `LANGUAGE` constant.
#[verifier::external_body]
fn grammar_python() -> tree_sitter::Language {
    tree_sitter_python::LANGUAGE.into()
}

/// Relies on the Java grammar crate's `LANGUAGE` constant.
#[verifier::external_body]
fn grammar_java() -> tree_sitter::Language {
    tree_sitter_java::LANGUAGE.into()
}

/// Relies on the C grammar crate's `LANGUAGE` constant.
#[verifier::external_body]
fn grammar_c() -> tree_sitter::Language {
    tree_sitter_c::LANGUAGE.into()
}

/// Relies on the C++ grammar crate's `LANGUAGE` constant.
#[verifier::external_body]
fn grammar_cpp() -> tree_sitter::Language {
    tree_sitter_cpp::LANGUAGE.into()
}

/// Relies on the Go grammar crate's `LANGUAGE` constant.
#[verifier::external_body]
fn grammar_go() -> tree_sitter::Language {
    tree_sitter_go::LANGUAGE.into()
}

/// The grammar object for one language.
pub fn get_grammar(language: SupportedLanguage) -> tree_sitter::Language {
    match language {
        SupportedLanguage::Rust => grammar_rust(),
        SupportedLanguage::JavaScript => grammar_javascript(),
        SupportedLanguage::TypeScript => grammar_typescript(),
        SupportedLanguage::Tsx => grammar_tsx(),
        SupportedLanguage::Python => grammar_python(),
        SupportedLanguage::Java => grammar_java(),
        SupportedLanguage::C => grammar_c(),
        SupportedLanguage::Cpp => grammar_cpp(),
        SupportedLanguage::Go => grammar_go(),
    }
}

/// Relies on `tree_sitter::Parser::new`: a fresh parser with no language
/// assigned.
#[verifier::external_body]
fn parser_new() -> tree_sitter::Parser {
    tree_sitter::Parser::new()
}

/// Relies on `tree_sitter::Parser::set_language`: `Ok` exactly when the
/// grammar is compatible with this library version; the error is rendered
/// as text.
#[verifier::external_body]
fn parser_set_language(
    parser: &mut tree_sitter::Parser,
    language: &tree_sitter::Language,
) -> core::result::Result<(), String> {
    match parser.set_language(language) {
        Ok(()) => Ok(()),
        Err(e) => Err(format!("{e}")),
    }
}

/// Relies on `tree_sitter::Parser::parse`: a concrete syntax tree for the
/// source, or `None` when no language has been assigned.
#[verifier::external_body]
fn parser_parse(parser: &mut tree_sitter::Parser, source: &str) -> Option<tree_sitter::Tree> {
    parser.parse(source, None)
}

/// Relies on `tree_sitter::Tree::root_node`.
#[verifier::external_body]
fn tree_root<'a>(tree: &'a tree_sitter::Tree) -> tree_sitter::Node<'a> {
    tree.root_node()
}

/// Relies on `tree_sitter::Node::has_error`: whether the subtree holds an
/// error or missing node.
#[verifier::external_body]
fn node_has_error(node: &tree_sitter::Node) -> bool {
    node.has_error()
}

/// Relies on `tree_sitter::Tree::walk`: a cursor at the root.
#[verifier::external_body]
fn tree_cursor<'a>(tree: &'a tree_sitter::Tree) -> tree_sitter::TreeCursor<'a> {
    tree.walk()
}

/// Relies on `tree_sitter::TreeCursor::node`.
#[verifier::external_body]
fn cursor_node<'a>(cursor: &tree_sitter::TreeCursor<'a>) -> tree_sitter::Node<'a> {
    cursor.node()
}

/// Relies on `tree_sitter::TreeCursor::goto_first_child`: true when the
/// cursor moved to a first child.
#[verifier::external_body]
fn cursor_goto_first_child(cursor: &mut tree_sitter::TreeCursor) -> bool {
    cursor.goto_first_child()
}

/// Relies on `tree_sitter::TreeCursor::goto_next_sibling`: true when the
/// cursor moved to a next sibling.
#[verifier::external_body]
fn cursor_goto_next_sibling(cursor: &mut tree_sitter::TreeCursor) -> bool {
    cursor.goto_next_sibling()
}

/// Relies on `tree_sitter::TreeCursor::goto_parent`: true when the cursor
/// moved up; false at the root.
#[verifier::external_body]
fn cursor_goto_parent(cursor: &mut tree_sitter::TreeCursor) -> bool {
    cursor.goto_parent()
}

/// Relies on `tree_sitter::Node::kind`: the grammar's label for the node.
#[verifier::external_body]
fn node_kind(node: &tree_sitter::Node) -> String {
    node.kind().to_string()
}

/// Relies on `tree_sitter::Node::start_position`: the node's first row.
#[verifier::external_body]
fn node_start_row(node: &tree_sitter::Node) -> usize {
    node.start_position().row
}

/// Relies on `tree_sitter::Node::start_position`: the node's first column.
#[verifier::external_body]
fn node_start_column(node: &tree_sitter::Node) -> usize {
    node.start_position().column
}

/// Relies on `tree_sitter::Node::end_position`: the node's last row.
#[verifier::external_body]
fn node_end_row(node: &tree_sitter::Node) -> usize {
    node.end_position().row
}

/// Relies on `tree_sitter::Node::is_error`.
#[verifier::external_body]
fn node_is_error(node: &tree_sitter::Node) -> bool {
    node.is_error()
}

/// Relies on `tree_sitter::Node::is_missing`.
#[verifier::external_body]
fn node_is_missing(node: &tree_sitter::Node) -> bool {
    node.is_missing()
}

/// Whether the tree's root reports any error or missing node.
fn tree_has_error(tree: &tree_sitter::Tree) -> bool {
    let root = tree_root(tree);
    node_has_error(&root)
}

/// What the metric extractor reads of the node under a cursor.
fn read_cursor_node(cursor: &tree_sitter::TreeCursor) -> NodeRec {
    let node = cursor_node(cursor);
    NodeRec {
        kind: node_kind(&node),
        start_row: node_start_row(&node),
        start_col: node_start_column(&node),
        end_row: node_end_row(&node),
        error: node_is_error(&node),
        missing: node_is_missing(&node),
    }
}

/// Flattens the tree into its nodes in pre-order, by an iterative cursor
/// walk: visit, descend to a first child, else advance to a sibling, else
/// ascend and retry, stopping when ascent from the root fails.  A step
/// budget bounds the walk so that no input can make it spin forever.
pub fn collect_tree_nodes(tree: &tree_sitter::Tree) -> (r: Vec<NodeRec>)
    ensures
        r@.len() < usize::MAX,
{
    let mut cursor = tree_cursor(tree);
    let mut nodes: Vec<NodeRec> = Vec::new();
    let mut fuel: usize = usize::MAX - 1;
    loop
        invariant
            nodes@.len() + fuel <= usize::MAX - 1,
        decreases fuel,
    {
        if fuel == 0 {
            break;
        }
        fuel -= 1;
        nodes.push(read_cursor_node(&cursor));
        if cursor_goto_first_child(&mut cursor) {
            continue;
        }
        let mut advanced = false;
        let ghost fuel_enter = fuel;
        loop
            invariant
                nodes@.len() + fuel <= usize::MAX - 1,
                fuel <= fuel_enter,
            decreases fuel,
        {
            if fuel == 0 {
                break;
            }
            fuel -= 1;
            if cursor_goto_next_sibling(&mut cursor) {
                advanced = true;
                break;
            }
            if !cursor_goto_parent(&mut cursor) {
                break;
            }
        }
        if !advanced {
            break;
        }
    }
    nodes
}

impl LanguageManager {
    /// A fresh parser configured for `language`: the allow-list gate is
    /// checked before any parsing resource is created.
    pub fn get_parser(&self, language: SupportedLanguage) -> (r: Result<tree_sitter::Parser>)
        ensures
            !self.spec_is_enabled(language) ==> (r matches Err(e) && e matches
                AnalyzerError::UnsupportedLanguage(m) && m@ == spec_language_name(language)),
            self.spec_is_enabled(language) ==> (r is Ok || (r matches Err(e) && e matches
                AnalyzerError::TreeSitter(_))),
    {
        if !self.is_enabled(language) {
            return Err(AnalyzerError::unsupported_language(language.name()));
        }
        let mut parser = parser_new();
        let grammar = get_grammar(language);
        match parser_set_language(&mut parser, &grammar) {
            Ok(()) => Ok(parser),
            Err(msg) => Err(
                AnalyzerError::TreeSitter(
                    "Failed to load ".to_owned().concat(language.name()).concat(
                        " grammar: ",
                    ).concat(msg.as_str()),
                ),
            ),
        }
    }
}

/// A produced tree together with any warnings about it.
pub struct ParseResult {
    /// The tree, absent only when the parser produced none at all.
    pub tree: Option<tree_sitter::Tree>,
    /// Non-fatal problems found while parsing.
    pub warnings: Vec<ParseWarning>,
}

/// Parses defensively: the raw source first; on error nodes, a sanitized
/// copy; and when errors remain, the original tree with one syntax-error
/// warning whose locations are the first error or missing nodes found.
pub fn parse_file_safely(
    parser: &mut tree_sitter::Parser,
    source_text: &str,
    language: SupportedLanguage,
    file_path: &str,
) -> (r: Result<ParseResult>)
    ensures
        r matches Err(e) ==> e matches AnalyzerError::TreeSitter(_),
        r matches Ok(pr) ==> pr.tree is Some,
        r matches Ok(pr) ==> pr.warnings@.len() <= 1,
        r matches Ok(pr) ==> forall|i: int|
            0 <= i < pr.warnings@.len() ==> (#[trigger] pr.warnings@[i]).warning_type
                == WarningType::SyntaxError && pr.warnings@[i].file_path@ == file_path@
                && pr.warnings@[i].message@ == spec_syntax_error_message(
                pr.warnings@[i].locations@,
            ) && exists|ns: Seq<NodeRec>|
                spec_locations_report(
                    pr.warnings@[i].locations@,
                    ns,
                    spec_lines(source_text@),
                    5,
                ),
{
    let original_tree = match parser_parse(parser, source_text) {
        Some(t) => t,
        None => {
            return Err(AnalyzerError::tree_sitter_error(
                "Failed to parse file - tree-sitter returned None",
            ));
        },
    };
    // A clean parse of the unmodified source is authoritative.
    if !tree_has_error(&original_tree) {
        return Ok(ParseResult { tree: Some(original_tree), warnings: Vec::new() });
    }
    // Retry on a sanitized copy, for known grammar gaps.
    let sanitized = sanitize_for_tree_sitter(source_text, language);
    if !str_eq(sanitized.as_str(), source_text) {
        if let Some(sanitized_tree) = parser_parse(parser, sanitized.as_str()) {
            if !tree_has_error(&sanitized_tree) {
                return Ok(ParseResult { tree: Some(sanitized_tree), warnings: Vec::new() });
            }
        }
    }
    // Keep the original tree and surface the error locations.
    let source_lines = split_source_lines(source_text);
    let locations = collect_parse_error_locations(&original_tree, &source_lines, 5);
    let message = syntax_error_message(&locations);
    let mut warning = ParseWarning::syntax_error(file_path, message);
    warning.locations = locations;
    let mut warnings: Vec<ParseWarning> = Vec::new();
    warnings.push(warning);
    Ok(ParseResult { tree: Some(original_tree), warnings })
}

/// The syntax-error warning's message: the first reported location's line,
/// column and node kind, or a generic note when no location was found.
pub open spec fn spec_syntax_error_message(locs: Seq<ParseWarningLocation>) -> Seq<char> {
    if locs.len() > 0 {
        "Parse errors detected near "@ + spec_decimal(locs[0].line as nat) + ":"@ + spec_decimal(
            locs[0].column as nat,
        ) + " ("@ + locs[0].kind@ + ")"@
    } else {
        "Parse errors detected, results may be incomplete"@
    }
}

/// Formats the syntax-error warning's message from the reported locations.
fn syntax_error_message(locations: &Vec<ParseWarningLocation>) -> (r: String)
    ensures
        r@ == spec_syntax_error_message(locations@),
{
    if locations.len() > 0 {
        let l0 = &locations[0];
        "Parse errors detected near ".to_owned().concat(
            usize_to_string(l0.line).as_str(),
        ).concat(":").concat(usize_to_string(l0.column).as_str()).concat(" (").concat(
            l0.kind.as_str(),
        ).concat(")")
    } else {
        "Parse errors detected, results may be incomplete".to_owned()
    }
}

/// Walks the tree in pre-order and reports its error and missing nodes.
pub fn collect_parse_error_locations(
    tree: &tree_sitter::Tree,
    source_lines: &Vec<String>,
    max_locations: usize,
) -> (r: Vec<ParseWarningLocation>)
    ensures
        r@.len() <= max_locations,
        exists|ns: Seq<NodeRec>|
            spec_locations_report(r@, ns, line_views(source_lines@), max_locations as int),
{
    let nodes = collect_tree_nodes(tree);
    let r = error_locations_from(&nodes, source_lines, max_locations);
    proof {
        assert(spec_locations_report(r@, nodes@, line_views(source_lines@),
            max_locations as int));
    }
    r
}

/// The error and missing nodes of a node list, in document order.
pub open spec fn spec_flagged_nodes(nodes: Seq<NodeRec>) -> Seq<NodeRec> {
    nodes.filter(|n: NodeRec| n.error || n.missing)
}

/// Unfolds one step of `Seq::filter` for node predicates.
proof fn lemma_node_filter_step(s: Seq<NodeRec>, pred: spec_fn(NodeRec) -> bool)
    requires
        s.len() > 0,
    ensures
        s.filter(pred) == if pred(s.last()) {
            s.drop_last().filter(pred).push(s.last())
        } else {
            s.drop_last().filter(pred)
        },
{
    reveal(Seq::filter);
}

/// Whether one reported location is the one a flagged node yields: 1-based
/// line and column (saturating), the grammar's label, and the trimmed,
/// 200-character-capped snippet of the node's start row, absent when that
/// row lies outside the source.
pub open spec fn spec_location_matches(
    loc: ParseWarningLocation,
    n: NodeRec,
    lines: Seq<Seq<char>>,
) -> bool {
    &&& loc.line == spec_inc(n.start_row)
    &&& loc.column == spec_inc(n.start_col)
    &&& loc.kind@ == n.kind@
    &&& match loc.snippet {
        Some(s) => n.start_row < lines.len() && s@ == spec_snippet(lines[n.start_row as int]),
        None => n.start_row >= lines.len(),
    }
}

/// Whether a location list reports exactly the first flagged nodes of the
/// list, in document order, up to the cap.
pub open spec fn spec_locations_report(
    locs: Seq<ParseWarningLocation>,
    nodes: Seq<NodeRec>,
    lines: Seq<Seq<char>>,
    cap: int,
) -> bool {
    let flagged = spec_flagged_nodes(nodes);
    &&& locs.len() == (if flagged.len() < cap {
        flagged.len() as int
    } else {
        cap
    })
    &&& forall|i: int|
        0 <= i < locs.len() ==> spec_location_matches(#[trigger] locs[i], flagged[i], lines)
}

/// Selects the first `max_locations` error-or-missing nodes and formats one
/// location for each.
pub fn error_locations_from(
    nodes: &Vec<NodeRec>,
    source_lines: &Vec<String>,
    max_locations: usize,
) -> (r: Vec<ParseWarningLocation>)
    ensures
        spec_locations_report(r@, nodes@, line_views(source_lines@), max_locations as int),
{
    let ghost pred = |n: NodeRec| n.error || n.missing;
    let ghost lines = line_views(source_lines@);
    let n = nodes.len();
    let mut out: Vec<ParseWarningLocation> = Vec::new();
    let mut i: usize = 0;
    proof {
        assert(nodes@.take(0).filter(pred) =~= Seq::<NodeRec>::empty()) by {
            reveal(Seq::filter);
        }
    }
    while i < n
        invariant
            n == nodes@.len(),
            i <= n,
            pred == (|n: NodeRec| n.error || n.missing),
            lines == line_views(source_lines@),
            out@.len() == (if nodes@.take(i as int).filter(pred).len() < max_locations {
                nodes@.take(i as int).filter(pred).len() as int
            } else {
                max_locations as int
            }),
            forall|k: int|
                0 <= k < out@.len() ==> spec_location_matches(
                    #[trigger] out@[k],
                    nodes@.take(i as int).filter(pred)[k],
                    lines,
                ),
        decreases n - i,
    {
        let ghost flagged0 = nodes@.take(i as int).filter(pred);
        proof {
            assert(nodes@.take(i + 1).drop_last() =~= nodes@.take(i as int));
            assert(nodes@.take(i + 1).last() == nodes@[i as int]);
            lemma_node_filter_step(nodes@.take(i + 1), pred);
        }
        let node = &nodes[i];
        if node.error || node.missing {
            if out.len() < max_locations {
                let snippet = if node.start_row < source_lines.len() {
                    proof {
                        assert(lines[node.start_row as int] == source_lines@[
                            node.start_row as int]@);
                    }
                    Some(snippet_of_line(&source_lines[node.start_row]))
                } else {
                    None
                };
                out.push(ParseWarningLocation {
                    line: node.start_row.saturating_add(1),
                    column: node.start_col.saturating_add(1),
                    kind: node.kind.clone(),
                    snippet,
                });
                proof {
                    assert(nodes@.take(i + 1).filter(pred) == flagged0.push(nodes@[i as int]));
                    assert(flagged0.push(nodes@[i as int])[flagged0.len() as int]
                        == nodes@[i as int]);
                    assert(spec_location_matches(out@.last(), nodes@[i as int], lines));
                }
            } else {
                proof {
                    assert(nodes@.take(i + 1).filter(pred) == flagged0.push(nodes@[i as int]));
                }
            }
        }
        i += 1;
    }
    proof {
        assert(nodes@.take(n as int) =~= nodes@);
    }
    out
}

/// The display snippet of one source line: trailing whitespace dropped,
/// then truncated to at most two hundred characters.
pub open spec fn spec_snippet(l: Seq<char>) -> Seq<char> {
    let t = spec_trim_end(l);
    if t.len() > 200 {
        t.take(200)
    } else {
        t
    }
}

/// Formats the display snippet of one source line.
fn snippet_of_line(line: &String) -> (r: String)
    ensures
        r@ == spec_snippet(line@),
{
    let cs = str_chars_vec(line.as_str());
    let n = cs.len();
    // Drop trailing whitespace.
    let mut b = n;
    while b > 0 && is_space(cs[b - 1])
        invariant
            n == cs@.len(),
            cs@ == line@,
            b <= n,
            forall|j: int| b <= j < n ==> spec_is_space(cs@[j]),
        decreases b,
    {
        b -= 1;
    }
    proof {
        crate::lines::lemma_trim_end_take(cs@, b as int);
    }
    let limit = if b > 200 {
        200
    } else {
        b
    };
    let mut out: Vec<char> = Vec::new();
    let mut i: usize = 0;
    while i < limit
        invariant
            limit <= cs@.len(),
            i <= limit,
            out@ =~= cs@.subrange(0, i as int),
        decreases limit - i,
    {
        out.push(cs[i]);
        i += 1;
    }
    proof {
        assert(out@ =~= cs@.take(b as int).take(limit as int));
    }
    string_from_chars(&out)
}

/// A finished per-file record together with the warnings met on the way.
#[derive(Debug)]
pub struct FileAnalysisResult {
    /// The metric record.
    pub analysis: FileAnalysis,
    /// Non-fatal problems met while parsing.
    pub warnings: Vec<ParseWarning>,
}

/// The per-file parser: language gating plus size limits around the
/// parse-and-measure pipeline.
#[derive(Clone)]
pub struct FileParser {
    /// Detection and the allow-list gate.
    pub language_manager: LanguageManager,
    /// Files larger than this many bytes are rejected before reading.
    pub max_file_size_bytes: u64,
}

/// Megabytes in bytes, saturating.
pub open spec fn spec_mb_to_bytes(mb: nat) -> u64 {
    if mb * 1048576 > 0xFFFF_FFFF_FFFF_FFFF {
        0xFFFF_FFFF_FFFF_FFFF as u64
    } else {
        (mb * 1048576) as u64
    }
}

impl FileParser {
    /// A parser honoring the manager's allow-list and a size limit in
    /// megabytes.
    pub fn new(language_manager: LanguageManager, max_file_size_mb: usize) -> (r: Self)
        ensures
            r.language_manager == language_manager,
            r.max_file_size_bytes == spec_mb_to_bytes(max_file_size_mb as nat),
    {
        let mb = max_file_size_mb as u64;
        let bytes: u64 = if mb > 0xFFFF_FFFF_FFFF_FFFF / 1048576 {
            0xFFFF_FFFF_FFFF_FFFF
        } else {
            mb * 1048576
        };
        proof {
            assert(bytes == spec_mb_to_bytes(max_file_size_mb as nat));
        }
        FileParser { language_manager, max_file_size_bytes: bytes }
    }

    /// The size limit, in bytes.
    pub fn max_file_size_bytes(&self) -> (r: u64)
        ensures
            r == self.max_file_size_bytes,
    {
        self.max_file_size_bytes
    }

    /// Whether a file of the given size would be analyzed: its language must
    /// be detected and enabled, and its size within the limit.
    pub fn can_parse(&self, path: &str, file_size: u64) -> (r: bool)
        ensures
            r == (self.language_manager.detect_spec(path@) is Some && file_size
                <= self.max_file_size_bytes),
    {
        self.language_manager.is_supported_file(path) && file_size <= self.max_file_size_bytes
    }

    /// Analyzes one file's text: detects the language, parses with
    /// recovery, extracts the metrics, and scores the record.  Line counts
    /// are always taken from the original text handed in.
    pub fn analyze_source(&self, path: &str, source: &str) -> (r: Result<FileAnalysisResult>)
        ensures
            self.language_manager.detect_spec(path@) is None ==> r is Err,
            self.language_manager.detect_spec(path@) is None ==> (r matches Err(e) && e
                matches AnalyzerError::UnsupportedLanguage(m) && m@ == (
            match crate::language::spec_extension_of_path(path@) {
                Some(x) => x,
                None => "unknown"@,
            })),
            self.language_manager.detect_spec(path@) is Some && r is Err ==> (r matches Err(e)
                && e matches AnalyzerError::TreeSitter(_)),
            r matches Ok(res) ==> {
                let lang = self.language_manager.detect_spec(path@)->Some_0;
                let all_lines = spec_lines(source@);
                let non_blank = all_lines.len() - spec_blank_count(all_lines);
                &&& self.language_manager.detect_spec(path@) is Some
                &&& res.analysis.path@ == path@
                &&& res.analysis.language@ == spec_language_name(lang)
                &&& res.analysis.blank_lines == spec_blank_count(all_lines)
                &&& res.analysis.comment_lines <= all_lines.len()
                &&& res.analysis.lines_of_code == (if non_blank >= res.analysis.comment_lines {
                    non_blank - res.analysis.comment_lines
                } else {
                    0
                })
                &&& res.analysis.cyclomatic_complexity >= 1
                &&& res.analysis.complexity_score_milli == spec_score_saturated(
                    res.analysis.lines_of_code as nat,
                    res.analysis.cyclomatic_complexity as nat,
                    res.analysis.functions as nat,
                    res.analysis.classes as nat,
                )
                &&& exists|ns: Seq<NodeRec>|
                    crate::metrics::spec_analysis_matches(res.analysis, source@, lang, ns)
            },
    {
        let language = match self.language_manager.detect_language(path) {
            Some(l) => l,
            None => {
                let ext = crate::language::path_extension(path);
                let e = match ext {
                    Some(e) => AnalyzerError::unsupported_language(e.as_str()),
                    None => AnalyzerError::unsupported_language("unknown"),
                };
                return Err(e);
            },
        };
        let mut parser = self.language_manager.get_parser(language)?;
        let parse_result = parse_file_safely(&mut parser, source, language, path)?;
        let warnings = parse_result.warnings;
        let tree = parse_result.tree;

        // Line accounting always reflects the original text.
        let all_lines = split_source_lines(source);
        let line_count = all_lines.len();
        let blank_lines = count_blank_of(&all_lines);
        proof {
            crate::lines::lemma_blank_count_le(line_views(all_lines@));
        }
        let non_blank = line_count - blank_lines;

        let nodes = match &tree {
            Some(t) => Some(collect_tree_nodes(t)),
            None => None,
        };

        let comment_lines = match &nodes {
            Some(ns) => {
                proof {
                    crate::metrics::lemma_comment_line_count_le_bound(
                        ns@,
                        language,
                        line_count as nat,
                    );
                }
                count_comment_lines_ast(ns, &language, line_count)
            },
            None => {
                let counts = crate::lines::count_lines(source);
                let c = counts.comments;
                if c <= line_count {
                    c
                } else {
                    line_count
                }
            },
        };
        let lines_of_code = non_blank.saturating_sub(comment_lines);

        let functions = match &nodes {
            Some(ns) => count_functions(ns, &language),
            None => 0,
        };
        let methods = match &nodes {
            Some(ns) => count_methods(ns, &language),
            None => 0,
        };
        let classes = match &nodes {
            Some(ns) => count_classes(ns, &language),
            None => 0,
        };
        let cyclomatic_complexity = match &nodes {
            Some(ns) => calculate_cyclomatic_complexity(Some(ns), &language),
            None => calculate_cyclomatic_complexity(None, &language),
        };

        let mut analysis = FileAnalysis {
            path: path.to_owned(),
            language: language.name().to_owned(),
            lines_of_code,
            blank_lines,
            comment_lines,
            functions,
            methods,
            classes,
            cyclomatic_complexity,
            complexity_score_milli: 0,
        };
        analysis.calculate_complexity();
        proof {
            let ns = nodes->Some_0@;
            assert(crate::metrics::spec_analysis_matches(analysis, source@, language, ns));
        }
        Ok(FileAnalysisResult { analysis, warnings })
    }
}

/// Counts the blank lines of a split source.
fn count_blank_of(all_lines: &Vec<String>) -> (r: usize)
    ensures
        r == spec_blank_count(line_views(all_lines@)),
        r <= all_lines@.len(),
{
    let n = all_lines.len();
    let mut blank: usize = 0;
    let mut i: usize = 0;
    while i < n
        invariant
            n == all_lines@.len(),
            i <= n,
            blank <= i,
            blank == spec_blank_count(line_views(all_lines@).take(i as int)),
        decreases n - i,
    {
        proof {
            assert(line_views(all_lines@).take(i + 1).drop_last() =~= line_views(
                all_lines@,
            ).take(i as int));
            assert(line_views(all_lines@).take(i + 1).last() == all_lines@[i as int]@);
        }
        let cs = str_chars_vec(all_lines[i].as_str());
        let trimmed = trim_chars(&cs);
        if trimmed.len() == 0 {
            blank += 1;
        }
        i += 1;
    }
    proof {
        assert(line_views(all_lines@).take(n as int) =~= line_views(all_lines@));
    }
    blank
}

} // verus!
