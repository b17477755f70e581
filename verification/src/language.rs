//! The per-language catalog: the closed set of supported languages, their
//! display names, their grammar node-kind taxonomies, and file-extension
//! detection.

use vstd::prelude::*;

use crate::error::{AnalyzerError, Result};
use crate::text::{ascii_lowercase, spec_ascii_lowercase, str_eq};

verus! {

/// The closed set of languages the analyzer parses.
///
/// TSX is a distinct parsing variant of TypeScript, but reports under the
/// "typescript" display name.
#[derive(Debug, Clone, Copy, PartialEq, Eq, Hash, Structural)]
pub enum SupportedLanguage {
    Rust,
    JavaScript,
    TypeScript,
    Tsx,
    Python,
    Java,
    C,
    Cpp,
    Go,
}

/// The display name of a language.
pub open spec fn spec_language_name(l: SupportedLanguage) -> Seq<char> {
    match l {
        SupportedLanguage::Rust => "rust"@,
        SupportedLanguage::JavaScript => "javascript"@,
        SupportedLanguage::TypeScript => "typescript"@,
        SupportedLanguage::Tsx => "typescript"@,
        SupportedLanguage::Python => "python"@,
        SupportedLanguage::Java => "java"@,
        SupportedLanguage::C => "c"@,
        SupportedLanguage::Cpp => "cpp"@,
        SupportedLanguage::Go => "go"@,
    }
}

/// Every supported language, in catalog order.
pub open spec fn spec_all_languages() -> Seq<SupportedLanguage> {
    seq![
        SupportedLanguage::Rust,
        SupportedLanguage::JavaScript,
        SupportedLanguage::TypeScript,
        SupportedLanguage::Tsx,
        SupportedLanguage::Python,
        SupportedLanguage::Java,
        SupportedLanguage::C,
        SupportedLanguage::Cpp,
        SupportedLanguage::Go,
    ]
}

/// The views of a list of kind strings.
pub open spec fn kind_views(s: Seq<&'static str>) -> Seq<Seq<char>> {
    s.map_values(|k: &'static str| k@)
}

/// Node kinds that declare a function-like item.
pub open spec fn spec_function_kinds(l: SupportedLanguage) -> Seq<Seq<char>> {
    match l {
        SupportedLanguage::Rust => seq!["function_item"@],
        SupportedLanguage::JavaScript => seq![
            "function_declaration"@,
            "function_expression"@,
            "arrow_function"@,
            "method_definition"@,
        ],
        SupportedLanguage::TypeScript | SupportedLanguage::Tsx => seq![
            "function_declaration"@,
            "function_expression"@,
            "arrow_function"@,
            "method_definition"@,
            "method_signature"@,
        ],
        SupportedLanguage::Python => seq!["function_definition"@],
        SupportedLanguage::Java => seq!["method_declaration"@, "constructor_declaration"@],
        SupportedLanguage::C => seq!["function_definition"@],
        SupportedLanguage::Cpp => seq!["function_definition"@, "function_declarator"@],
        SupportedLanguage::Go => seq!["function_declaration"@, "method_declaration"@],
    }
}

/// Node kinds that declare a class- or struct-like item.
pub open spec fn spec_class_kinds(l: SupportedLanguage) -> Seq<Seq<char>> {
    match l {
        SupportedLanguage::Rust => seq!["struct_item"@, "enum_item"@, "impl_item"@],
        SupportedLanguage::JavaScript => seq!["class_declaration"@],
        SupportedLanguage::TypeScript | SupportedLanguage::Tsx => seq![
            "class_declaration"@,
            "interface_declaration"@,
        ],
        SupportedLanguage::Python => seq!["class_definition"@],
        SupportedLanguage::Java => seq![
            "class_declaration"@,
            "interface_declaration"@,
            "enum_declaration"@,
        ],
        SupportedLanguage::C => seq!["struct_specifier"@],
        SupportedLanguage::Cpp => seq!["class_specifier"@, "struct_specifier"@],
        SupportedLanguage::Go => seq!["type_declaration"@],
    }
}

/// Node kinds that add a decision point for cyclomatic complexity.
pub open spec fn spec_control_flow_kinds(l: SupportedLanguage) -> Seq<Seq<char>> {
    match l {
        SupportedLanguage::Rust => seq![
            "if_expression"@,
            "match_expression"@,
            "for_expression"@,
            "while_expression"@,
            "loop_expression"@,
            "if_let_expression"@,
            "while_let_expression"@,
        ],
        SupportedLanguage::JavaScript | SupportedLanguage::TypeScript
            | SupportedLanguage::Tsx => seq![
            "if_statement"@,
            "for_statement"@,
            "for_in_statement"@,
            "while_statement"@,
            "do_statement"@,
            "switch_statement"@,
            "ternary_expression"@,
            "try_statement"@,
            "catch_clause"@,
        ],
        SupportedLanguage::Python => seq![
            "if_statement"@,
            "for_statement"@,
            "while_statement"@,
            "try_statement"@,
            "except_clause"@,
            "with_statement"@,
            "conditional_expression"@,
            "list_comprehension"@,
        ],
        SupportedLanguage::Java => seq![
            "if_statement"@,
            "for_statement"@,
            "enhanced_for_statement"@,
            "while_statement"@,
            "do_statement"@,
            "switch_expression"@,
            "try_statement"@,
            "catch_clause"@,
            "ternary_expression"@,
        ],
        SupportedLanguage::C => seq![
            "if_statement"@,
            "for_statement"@,
            "while_statement"@,
            "do_statement"@,
            "switch_statement"@,
            "conditional_expression"@,
        ],
        SupportedLanguage::Cpp => seq![
            "if_statement"@,
            "for_statement"@,
            "for_range_loop"@,
            "while_statement"@,
            "do_statement"@,
            "switch_statement"@,
            "try_statement"@,
            "catch_clause"@,
            "conditional_expression"@,
        ],
        SupportedLanguage::Go => seq![
            "if_statement"@,
            "for_statement"@,
            "switch_statement"@,
            "select_statement"@,
            "type_switch_statement"@,
        ],
    }
}

/// Node kinds that are comments.
pub open spec fn spec_comment_kinds(l: SupportedLanguage) -> Seq<Seq<char>> {
    match l {
        SupportedLanguage::Rust => seq!["line_comment"@, "block_comment"@],
        SupportedLanguage::JavaScript | SupportedLanguage::TypeScript
            | SupportedLanguage::Tsx => seq!["comment"@],
        SupportedLanguage::Python => seq!["comment"@],
        SupportedLanguage::Java => seq!["line_comment"@, "block_comment"@],
        SupportedLanguage::C | SupportedLanguage::Cpp | SupportedLanguage::Go => seq!["comment"@],
    }
}

/// Node kinds that declare a method bound to a class or struct.  Empty for
/// languages whose grammar does not distinguish methods from functions.
pub open spec fn spec_method_kinds(l: SupportedLanguage) -> Seq<Seq<char>> {
    match l {
        SupportedLanguage::Rust => seq![],
        SupportedLanguage::JavaScript => seq!["method_definition"@],
        SupportedLanguage::TypeScript | SupportedLanguage::Tsx => seq![
            "method_definition"@,
            "method_signature"@,
        ],
        SupportedLanguage::Python => seq![],
        SupportedLanguage::Java => seq!["method_declaration"@],
        SupportedLanguage::C => seq![],
        SupportedLanguage::Cpp => seq!["function_definition"@],
        SupportedLanguage::Go => seq!["method_declaration"@],
    }
}

/// Node kinds that open one level of nesting depth.
pub open spec fn spec_nesting_kinds(l: SupportedLanguage) -> Seq<Seq<char>> {
    match l {
        SupportedLanguage::Rust => seq!["block"@],
        SupportedLanguage::JavaScript | SupportedLanguage::TypeScript
            | SupportedLanguage::Tsx => seq!["statement_block"@],
        SupportedLanguage::Python => seq!["block"@],
        SupportedLanguage::Java => seq!["block"@],
        SupportedLanguage::C | SupportedLanguage::Cpp => seq!["compound_statement"@],
        SupportedLanguage::Go => seq!["block"@],
    }
}

/// Every LanguageSpec keeps its function-kind, class-kind, control-flow-kind,
/// comment-kind and nesting-kind sets non-empty; only the method-kind set may
/// be empty.
pub proof fn lemma_language_spec_sets_nonempty(l: SupportedLanguage)
    ensures
        spec_function_kinds(l).len() > 0,
        spec_class_kinds(l).len() > 0,
        spec_control_flow_kinds(l).len() > 0,
        spec_comment_kinds(l).len() > 0,
        spec_nesting_kinds(l).len() > 0,
{
}

impl SupportedLanguage {
    /// The human-readable name of the language.
    pub fn name(&self) -> (r: &'static str)
        ensures
            r@ == spec_language_name(*self),
    {
        match self {
            SupportedLanguage::Rust => "rust",
            SupportedLanguage::JavaScript => "javascript",
            SupportedLanguage::TypeScript => "typescript",
            SupportedLanguage::Tsx => "typescript",
            SupportedLanguage::Python => "python",
            SupportedLanguage::Java => "java",
            SupportedLanguage::C => "c",
            SupportedLanguage::Cpp => "cpp",
            SupportedLanguage::Go => "go",
        }
    }

    /// Every supported language.
    pub fn all() -> (r: Vec<SupportedLanguage>)
        ensures
            r@ == spec_all_languages(),
    {
        let v: Vec<SupportedLanguage> = vec![
            SupportedLanguage::Rust,
            SupportedLanguage::JavaScript,
            SupportedLanguage::TypeScript,
            SupportedLanguage::Tsx,
            SupportedLanguage::Python,
            SupportedLanguage::Java,
            SupportedLanguage::C,
            SupportedLanguage::Cpp,
            SupportedLanguage::Go,
        ];
        proof {
            assert(v@ =~= spec_all_languages());
        }
        v
    }

    /// The display names of every supported language, in catalog order.
    pub fn all_names() -> (r: Vec<&'static str>)
        ensures
            r@.len() == spec_all_languages().len(),
            forall|i: int|
                0 <= i < r@.len() ==> r@[i]@ == spec_language_name(spec_all_languages()[i]),
    {
        let v: Vec<&'static str> = vec![
            "rust",
            "javascript",
            "typescript",
            "typescript",
            "python",
            "java",
            "c",
            "cpp",
            "go",
        ];
        v
    }
}

/// The trait through which the metric extractor asks about a language's
/// node-kind taxonomy.
pub trait NodeKindMapper {
    /// Whether `kind` declares a function-like item.
    fn is_function_node(&self, kind: &str) -> bool;

    /// Whether `kind` declares a class- or struct-like item.
    fn is_class_node(&self, kind: &str) -> bool;

    /// Whether `kind` is a control-flow decision point.
    fn is_control_flow_node(&self, kind: &str) -> bool;

    /// Whether `kind` is a comment.
    fn is_comment_node(&self, kind: &str) -> bool;

    /// Whether `kind` declares a method.
    fn is_method_node(&self, kind: &str) -> bool;

    /// Every function node kind.
    fn function_node_kinds(&self) -> Vec<&'static str>;

    /// Every class node kind.
    fn class_node_kinds(&self) -> Vec<&'static str>;

    /// Every control-flow node kind.
    fn control_flow_node_kinds(&self) -> Vec<&'static str>;

    /// Every comment node kind.
    fn comment_node_kinds(&self) -> Vec<&'static str>;

    /// Every method node kind.
    fn method_node_kinds(&self) -> Vec<&'static str>;
}

/// Whether `kinds` holds a string whose characters equal `kind`.
pub fn kind_list_contains(kinds: &Vec<&'static str>, kind: &str) -> (r: bool)
    ensures
        r == kind_views(kinds@).contains(kind@),
{
    let n = kinds.len();
    let mut i: usize = 0;
    while i < n
        invariant
            n == kinds@.len(),
            i <= n,
            forall|j: int| 0 <= j < i ==> kind_views(kinds@)[j] != kind@,
        decreases n - i,
    {
        if str_eq(kinds[i], kind) {
            proof {
                assert(kind_views(kinds@)[i as int] == kind@);
            }
            return true;
        }
        i += 1;
    }
    proof {
        assert(forall|j: int| 0 <= j < kind_views(kinds@).len()
            ==> kind_views(kinds@)[j] != kind@);
    }
    false
}

impl NodeKindMapper for SupportedLanguage {
    fn is_function_node(&self, kind: &str) -> (r: bool)
        ensures
            r == spec_function_kinds(*self).contains(kind@),
    {
        kind_list_contains(&self.function_node_kinds(), kind)
    }

    fn is_class_node(&self, kind: &str) -> (r: bool)
        ensures
            r == spec_class_kinds(*self).contains(kind@),
    {
        kind_list_contains(&self.class_node_kinds(), kind)
    }

    fn is_control_flow_node(&self, kind: &str) -> (r: bool)
        ensures
            r == spec_control_flow_kinds(*self).contains(kind@),
    {
        kind_list_contains(&self.control_flow_node_kinds(), kind)
    }

    fn is_comment_node(&self, kind: &str) -> (r: bool)
        ensures
            r == spec_comment_kinds(*self).contains(kind@),
    {
        kind_list_contains(&self.comment_node_kinds(), kind)
    }

    fn is_method_node(&self, kind: &str) -> (r: bool)
        ensures
            r == spec_method_kinds(*self).contains(kind@),
    {
        kind_list_contains(&self.method_node_kinds(), kind)
    }

    fn function_node_kinds(&self) -> (r: Vec<&'static str>)
        ensures
            kind_views(r@) == spec_function_kinds(*self),
    {
        let v: Vec<&'static str> = match self {
            SupportedLanguage::Rust => vec!["function_item"],
            SupportedLanguage::JavaScript => vec![
                "function_declaration",
                "function_expression",
                "arrow_function",
                "method_definition",
            ],
            SupportedLanguage::TypeScript | SupportedLanguage::Tsx => vec![
                "function_declaration",
                "function_expression",
                "arrow_function",
                "method_definition",
                "method_signature",
            ],
            SupportedLanguage::Python => vec!["function_definition"],
            SupportedLanguage::Java => vec!["method_declaration", "constructor_declaration"],
            SupportedLanguage::C => vec!["function_definition"],
            SupportedLanguage::Cpp => vec!["function_definition", "function_declarator"],
            SupportedLanguage::Go => vec!["function_declaration", "method_declaration"],
        };
        proof {
            assert(kind_views(v@) =~= spec_function_kinds(*self));
        }
        v
    }

    fn class_node_kinds(&self) -> (r: Vec<&'static str>)
        ensures
            kind_views(r@) == spec_class_kinds(*self),
    {
        let v: Vec<&'static str> = match self {
            SupportedLanguage::Rust => vec!["struct_item", "enum_item", "impl_item"],
            SupportedLanguage::JavaScript => vec!["class_declaration"],
            SupportedLanguage::TypeScript | SupportedLanguage::Tsx => vec![
                "class_declaration",
                "interface_declaration",
            ],
            SupportedLanguage::Python => vec!["class_definition"],
            SupportedLanguage::Java => vec![
                "class_declaration",
                "interface_declaration",
                "enum_declaration",
            ],
            SupportedLanguage::C => vec!["struct_specifier"],
            SupportedLanguage::Cpp => vec!["class_specifier", "struct_specifier"],
            SupportedLanguage::Go => vec!["type_declaration"],
        };
        proof {
            assert(kind_views(v@) =~= spec_class_kinds(*self));
        }
        v
    }

    fn control_flow_node_kinds(&self) -> (r: Vec<&'static str>)
        ensures
            kind_views(r@) == spec_control_flow_kinds(*self),
    {
        let v: Vec<&'static str> = match self {
            SupportedLanguage::Rust => vec![
                "if_expression",
                "match_expression",
                "for_expression",
                "while_expression",
                "loop_expression",
                "if_let_expression",
                "while_let_expression",
            ],
            SupportedLanguage::JavaScript | SupportedLanguage::TypeScript
                | SupportedLanguage::Tsx => vec![
                "if_statement",
                "for_statement",
                "for_in_statement",
                "while_statement",
                "do_statement",
                "switch_statement",
                "ternary_expression",
                "try_statement",
                "catch_clause",
            ],
            SupportedLanguage::Python => vec![
                "if_statement",
                "for_statement",
                "while_statement",
                "try_statement",
                "except_clause",
                "with_statement",
                "conditional_expression",
                "list_comprehension",
            ],
            SupportedLanguage::Java => vec![
                "if_statement",
                "for_statement",
                "enhanced_for_statement",
                "while_statement",
                "do_statement",
                "switch_expression",
                "try_statement",
                "catch_clause",
                "ternary_expression",
            ],
            SupportedLanguage::C => vec![
                "if_statement",
                "for_statement",
                "while_statement",
                "do_statement",
                "switch_statement",
                "conditional_expression",
            ],
            SupportedLanguage::Cpp => vec![
                "if_statement",
                "for_statement",
                "for_range_loop",
                "while_statement",
                "do_statement",
                "switch_statement",
                "try_statement",
                "catch_clause",
                "conditional_expression",
            ],
            SupportedLanguage::Go => vec![
                "if_statement",
                "for_statement",
                "switch_statement",
                "select_statement",
                "type_switch_statement",
            ],
        };
        proof {
            assert(kind_views(v@) =~= spec_control_flow_kinds(*self));
        }
        v
    }

    fn comment_node_kinds(&self) -> (r: Vec<&'static str>)
        ensures
            kind_views(r@) == spec_comment_kinds(*self),
    {
        let v: Vec<&'static str> = match self {
            SupportedLanguage::Rust => vec!["line_comment", "block_comment"],
            SupportedLanguage::JavaScript | SupportedLanguage::TypeScript
                | SupportedLanguage::Tsx => vec!["comment"],
            SupportedLanguage::Python => vec!["comment"],
            SupportedLanguage::Java => vec!["line_comment", "block_comment"],
            SupportedLanguage::C | SupportedLanguage::Cpp | SupportedLanguage::Go => vec![
                "comment",
            ],
        };
        proof {
            assert(kind_views(v@) =~= spec_comment_kinds(*self));
        }
        v
    }

    fn method_node_kinds(&self) -> (r: Vec<&'static str>)
        ensures
            kind_views(r@) == spec_method_kinds(*self),
    {
        let v: Vec<&'static str> = match self {
            SupportedLanguage::Rust => Vec::new(),
            SupportedLanguage::JavaScript => vec!["method_definition"],
            SupportedLanguage::TypeScript | SupportedLanguage::Tsx => vec![
                "method_definition",
                "method_signature",
            ],
            SupportedLanguage::Python => Vec::new(),
            SupportedLanguage::Java => vec!["method_declaration"],
            SupportedLanguage::C => Vec::new(),
            SupportedLanguage::Cpp => vec!["function_definition"],
            SupportedLanguage::Go => vec!["method_declaration"],
        };
        proof {
            assert(kind_views(v@) =~= spec_method_kinds(*self));
        }
        v
    }
}

/// The language a (lower-cased) language name or alias denotes.
pub open spec fn spec_language_of_name(s: Seq<char>) -> Option<SupportedLanguage> {
    let t = spec_ascii_lowercase(s);
    if t == "rust"@ || t == "rs"@ {
        Some(SupportedLanguage::Rust)
    } else if t == "javascript"@ || t == "js"@ {
        Some(SupportedLanguage::JavaScript)
    } else if t == "typescript"@ || t == "ts"@ {
        Some(SupportedLanguage::TypeScript)
    } else if t == "tsx"@ {
        Some(SupportedLanguage::Tsx)
    } else if t == "python"@ || t == "py"@ {
        Some(SupportedLanguage::Python)
    } else if t == "java"@ {
        Some(SupportedLanguage::Java)
    } else if t == "c"@ {
        Some(SupportedLanguage::C)
    } else if t == "cpp"@ || t == "c++"@ || t == "cxx"@ {
        Some(SupportedLanguage::Cpp)
    } else if t == "go"@ || t == "golang"@ {
        Some(SupportedLanguage::Go)
    } else {
        None
    }
}

/// Parses a language name or alias, case-insensitively.
pub fn language_from_string(s: &str) -> (r: Result<SupportedLanguage>)
    ensures
        match spec_language_of_name(s@) {
            Some(l) => r matches Ok(got) && got == l,
            None => r matches Err(e) && e matches AnalyzerError::UnsupportedLanguage(m)
                && m@ == s@,
        },
{
    let lowered = ascii_lowercase(s);
    let t = lowered.as_str();
    if str_eq(t, "rust") || str_eq(t, "rs") {
        Ok(SupportedLanguage::Rust)
    } else if str_eq(t, "javascript") || str_eq(t, "js") {
        Ok(SupportedLanguage::JavaScript)
    } else if str_eq(t, "typescript") || str_eq(t, "ts") {
        Ok(SupportedLanguage::TypeScript)
    } else if str_eq(t, "tsx") {
        Ok(SupportedLanguage::Tsx)
    } else if str_eq(t, "python") || str_eq(t, "py") {
        Ok(SupportedLanguage::Python)
    } else if str_eq(t, "java") {
        Ok(SupportedLanguage::Java)
    } else if str_eq(t, "c") {
        Ok(SupportedLanguage::C)
    } else if str_eq(t, "cpp") || str_eq(t, "c++") || str_eq(t, "cxx") {
        Ok(SupportedLanguage::Cpp)
    } else if str_eq(t, "go") || str_eq(t, "golang") {
        Ok(SupportedLanguage::Go)
    } else {
        Err(AnalyzerError::unsupported_language(s))
    }
}

/// The language a (lower-cased) file extension maps to.
pub open spec fn spec_language_of_extension(e: Seq<char>) -> Option<SupportedLanguage> {
    if e == "rs"@ {
        Some(SupportedLanguage::Rust)
    } else if e == "js"@ || e == "jsx"@ || e == "mjs"@ || e == "cjs"@ {
        Some(SupportedLanguage::JavaScript)
    } else if e == "ts"@ {
        Some(SupportedLanguage::TypeScript)
    } else if e == "tsx"@ {
        Some(SupportedLanguage::Tsx)
    } else if e == "py"@ || e == "pyw"@ || e == "py3"@ {
        Some(SupportedLanguage::Python)
    } else if e == "java"@ {
        Some(SupportedLanguage::Java)
    } else if e == "c"@ || e == "h"@ {
        Some(SupportedLanguage::C)
    } else if e == "cpp"@ || e == "cc"@ || e == "cxx"@ || e == "c++"@ || e == "hpp"@
        || e == "hh"@ || e == "hxx"@ {
        Some(SupportedLanguage::Cpp)
    } else if e == "go"@ {
        Some(SupportedLanguage::Go)
    } else {
        None
    }
}

fn language_of_extension(e: &str) -> (r: Option<SupportedLanguage>)
    ensures
        r == spec_language_of_extension(e@),
{
    if str_eq(e, "rs") {
        Some(SupportedLanguage::Rust)
    } else if str_eq(e, "js") || str_eq(e, "jsx") || str_eq(e, "mjs") || str_eq(e, "cjs") {
        Some(SupportedLanguage::JavaScript)
    } else if str_eq(e, "ts") {
        Some(SupportedLanguage::TypeScript)
    } else if str_eq(e, "tsx") {
        Some(SupportedLanguage::Tsx)
    } else if str_eq(e, "py") || str_eq(e, "pyw") || str_eq(e, "py3") {
        Some(SupportedLanguage::Python)
    } else if str_eq(e, "java") {
        Some(SupportedLanguage::Java)
    } else if str_eq(e, "c") || str_eq(e, "h") {
        Some(SupportedLanguage::C)
    } else if str_eq(e, "cpp") || str_eq(e, "cc") || str_eq(e, "cxx") || str_eq(e, "c++")
        || str_eq(e, "hpp") || str_eq(e, "hh") || str_eq(e, "hxx") {
        Some(SupportedLanguage::Cpp)
    } else if str_eq(e, "go") {
        Some(SupportedLanguage::Go)
    } else {
        None
    }
}

/// The file name of a path: what follows the last `/`.
pub open spec fn spec_file_name(p: Seq<char>) -> Seq<char>
    decreases p.len(),
{
    if p.len() == 0 {
        p
    } else if p[p.len() - 1] == '/' {
        Seq::<char>::empty()
    } else {
        spec_file_name(p.take(p.len() - 1)).push(p[p.len() - 1])
    }
}

/// The extension of a file name: what follows the last `.`, provided the dot
/// is neither first nor last.  A name with no dot, or a dot-file such as a
/// hidden file, has none.
pub open spec fn spec_extension_of_name(n: Seq<char>) -> Option<Seq<char>> {
    if exists|i: int|
        0 < i < n.len() - 1 && n[i] == '.' && (forall|j: int| i < j < n.len() ==> n[j] != '.') {
        let i = choose|i: int|
            0 < i < n.len() - 1 && n[i] == '.' && (forall|j: int|
                i < j < n.len() ==> n[j] != '.');
        Some(n.skip(i + 1))
    } else {
        None
    }
}

/// The lower-cased extension of a path.
pub open spec fn spec_extension_of_path(p: Seq<char>) -> Option<Seq<char>> {
    match spec_extension_of_name(spec_file_name(p)) {
        Some(e) => Some(spec_ascii_lowercase(e)),
        None => None,
    }
}

/// The language detected for a path, going by extension alone.
pub open spec fn spec_detect_language(p: Seq<char>) -> Option<SupportedLanguage> {
    match spec_extension_of_path(p) {
        Some(e) => spec_language_of_extension(e),
        None => None,
    }
}

/// Extracts the file name and extension of a path and maps the extension to
/// a language, with no content sniffing.
pub fn detect_language_from_path(path: &str) -> (r: Option<SupportedLanguage>)
    ensures
        r == spec_detect_language(path@),
{
    match path_extension(path) {
        Some(e) => language_of_extension(e.as_str()),
        None => None,
    }
}

/// The lower-cased extension of a path, if its file name has one.
pub fn path_extension(path: &str) -> (r: Option<String>)
    ensures
        match r {
            Some(e) => spec_extension_of_path(path@) == Some(e@),
            None => spec_extension_of_path(path@) is None,
        },
{
    let cs = crate::text::str_chars_vec(path);
    let n = cs.len();
    // Find the start of the file name.
    let mut start: usize = n;
    loop
        invariant
            n == cs@.len(),
            cs@ == path@,
            start <= n,
            forall|j: int| start <= j < n ==> cs@[j] != '/',
        ensures
            start <= n,
            forall|j: int| start <= j < n ==> cs@[j] != '/',
            start > 0 ==> cs@[start - 1] == '/',
        decreases start,
    {
        if start == 0 {
            break;
        }
        if cs[start - 1] == '/' {
            break;
        }
        start -= 1;
    }
    proof {
        lemma_file_name_suffix(path@, start as int);
    }
    // Find the last dot inside the file name.
    let mut dot: usize = n;
    let mut k: usize = n;
    loop
        invariant_except_break
            dot == n,
        invariant
            n == cs@.len(),
            cs@ == path@,
            start <= k <= n,
            forall|j: int| k <= j < n ==> cs@[j] != '.',
        ensures
            dot == n || (start <= dot < n && cs@[dot as int] == '.' && forall|j: int|
                dot < j < n ==> cs@[j] != '.'),
            dot == n ==> forall|j: int| start <= j < n ==> cs@[j] != '.',
        decreases k,
    {
        if k == start {
            break;
        }
        if cs[k - 1] == '.' {
            dot = k - 1;
            break;
        }
        k -= 1;
    }
    if dot == n || dot == start || dot + 1 == n {
        proof {
            lemma_no_extension(path@, start as int, dot as int, n as int);
        }
        return None;
    }
    // The extension is the suffix after the dot.
    let mut ext: Vec<char> = Vec::new();
    let mut i: usize = dot + 1;
    while i < n
        invariant
            n == cs@.len(),
            cs@ == path@,
            dot + 1 <= i <= n,
            ext@ =~= path@.subrange(dot + 1, i as int),
        decreases n - i,
    {
        ext.push(cs[i]);
        i += 1;
    }
    let ext_s = crate::text::string_from_chars(&ext);
    let lowered = ascii_lowercase(ext_s.as_str());
    proof {
        lemma_extension_found(path@, start as int, dot as int);
        assert(path@.subrange(dot + 1, n as int) =~= path@.skip(dot + 1));
    }
    Some(lowered)
}

/// After scanning, `start` is the index just past the last `/`.
proof fn lemma_file_name_suffix(p: Seq<char>, start: int)
    requires
        0 <= start <= p.len(),
        forall|j: int| start <= j < p.len() ==> p[j] != '/',
        start > 0 ==> p[start - 1] == '/',
    ensures
        spec_file_name(p) == p.skip(start),
    decreases p.len() - start,
{
    if start == p.len() {
        if start > 0 {
            assert(spec_file_name(p) == Seq::<char>::empty());
            assert(p.skip(start) =~= Seq::<char>::empty());
        } else {
            assert(p.len() == 0);
            assert(p.skip(0) =~= p);
        }
    } else {
        lemma_file_name_step(p, start);
    }
}

/// Unwinds `spec_file_name` over a suffix free of `/`.
proof fn lemma_file_name_step(p: Seq<char>, start: int)
    requires
        0 <= start < p.len(),
        forall|j: int| start <= j < p.len() ==> p[j] != '/',
        start > 0 ==> p[start - 1] == '/',
    ensures
        spec_file_name(p) == p.skip(start),
    decreases p.len() - start,
{
    if start == p.len() - 1 {
        assert(spec_file_name(p) == spec_file_name(p.take(p.len() - 1)).push(p[p.len() - 1]));
        let q = p.take(p.len() - 1);
        if start == 0 {
            assert(q.len() == 0);
            assert(spec_file_name(q) == q);
            assert(spec_file_name(p) =~= p.skip(0));
        } else {
            assert(q[q.len() - 1] == '/');
            assert(spec_file_name(q) == Seq::<char>::empty());
            assert(spec_file_name(p) =~= p.skip(start));
        }
    } else {
        let q = p.take(p.len() - 1);
        lemma_file_name_step(q, start);
        assert(spec_file_name(p) == spec_file_name(q).push(p[p.len() - 1]));
        assert(spec_file_name(q) == q.skip(start));
        assert(spec_file_name(p) =~= p.skip(start));
    }
}

/// When no usable dot was found, the file name has no extension.
proof fn lemma_no_extension(p: Seq<char>, start: int, dot: int, n: int)
    requires
        n == p.len(),
        0 <= start <= n,
        spec_file_name(p) == p.skip(start),
        dot == n || (start <= dot < n && p[dot] == '.' && forall|j: int|
            dot < j < n ==> p[j] != '.'),
        dot == n ==> forall|j: int| start <= j < n ==> p[j] != '.',
        dot == n || dot == start || dot + 1 == n,
    ensures
        spec_extension_of_name(spec_file_name(p)) is None,
{
    let name = p.skip(start);
    assert forall|i: int|
        !(0 < i < name.len() - 1 && name[i] == '.' && (forall|j: int|
            i < j < name.len() ==> name[j] != '.')) by {
        if 0 < i < name.len() - 1 && name[i] == '.' {
            assert(name[i] == p[start + i]);
            if dot == n {
                assert(p[start + i] != '.');
            } else if dot == start {
                assert(dot < start + i < n);
                assert(p[start + i] != '.');
            } else {
                assert(dot == n - 1);
                let d = dot - start;
                assert(name.len() - 1 == d);
                assert(name[d] == p[dot]);
                assert(name[d] == '.');
                assert(i < d < name.len());
            }
        }
    }
}

/// When a usable dot was found, the extension is the suffix after it.
proof fn lemma_extension_found(p: Seq<char>, start: int, dot: int)
    requires
        0 <= start <= dot,
        start < dot < p.len() - 1,
        spec_file_name(p) == p.skip(start),
        p[dot] == '.',
        forall|j: int| dot < j < p.len() ==> p[j] != '.',
    ensures
        spec_extension_of_name(spec_file_name(p)) == Some(p.skip(dot + 1)),
{
    let name = p.skip(start);
    let i0 = dot - start;
    assert(0 < i0 < name.len() - 1 && name[i0] == '.');
    assert(spec_extension_of_name(name) is Some);
    let i = choose|i: int| 0 < i < name.len() - 1 && name[i] == '.' && (forall|j: int|
        i < j < name.len() ==> name[j] != '.');
    assert(forall|j: int| i0 < j < name.len() ==> name[j] == p[start + j] && name[j] != '.');
    if i < i0 {
        assert(name[i0] == '.');
    }
    if i > i0 {
        assert(name[i] == p[start + i]);
        assert(dot < start + i < p.len());
    }
    assert(i == i0);
    assert(name.skip(i + 1) =~= p.skip(dot + 1));
}

/// The file name of a path: what follows its last separator.
pub fn file_name_of(path: &str) -> (r: String)
    ensures
        r@ == spec_file_name(path@),
{
    let cs = crate::text::str_chars_vec(path);
    let n = cs.len();
    let mut start: usize = n;
    loop
        invariant
            n == cs@.len(),
            cs@ == path@,
            start <= n,
            forall|j: int| start <= j < n ==> cs@[j] != '/',
        ensures
            start <= n,
            forall|j: int| start <= j < n ==> cs@[j] != '/',
            start > 0 ==> cs@[start - 1] == '/',
        decreases start,
    {
        if start == 0 {
            break;
        }
        if cs[start - 1] == '/' {
            break;
        }
        start -= 1;
    }
    proof {
        lemma_file_name_suffix(path@, start as int);
    }
    let mut out: Vec<char> = Vec::new();
    let mut i: usize = start;
    while i < n
        invariant
            n == cs@.len(),
            cs@ == path@,
            start <= i <= n,
            out@ =~= path@.subrange(start as int, i as int),
        decreases n - i,
    {
        out.push(cs[i]);
        i += 1;
    }
    proof {
        assert(path@.subrange(start as int, n as int) =~= path@.skip(start as int));
    }
    crate::text::string_from_chars(&out)
}

/// Language detection and the per-run allow-list gate.
#[derive(Debug, Clone)]
pub struct LanguageManager {
    /// When set, only these languages are detected; any other extension is
    /// reported as unsupported.
    enabled_languages: Option<Vec<SupportedLanguage>>,
}

impl LanguageManager {
    /// The allow-list, `None` when every language is enabled.
    pub closed spec fn spec_enabled(&self) -> Option<Seq<SupportedLanguage>> {
        match self.enabled_languages {
            Some(v) => Some(v@),
            None => None,
        }
    }

    /// Whether `l` passes the allow-list gate.
    pub open spec fn spec_is_enabled(&self, l: SupportedLanguage) -> bool {
        match self.spec_enabled() {
            Some(s) => s.contains(l),
            None => true,
        }
    }

    /// A manager with every language enabled.
    pub fn new() -> (r: Self)
        ensures
            r.spec_enabled() is None,
    {
        LanguageManager { enabled_languages: None }
    }

    /// A manager restricted to the given languages.
    pub fn with_languages(languages: Vec<SupportedLanguage>) -> (r: Self)
        ensures
            r.spec_enabled() == Some(languages@),
    {
        LanguageManager { enabled_languages: Some(languages) }
    }

    /// Detects the language of a path, applying the allow-list gate before
    /// any parsing resource is touched.
    pub fn detect_language(&self, path: &str) -> (r: Option<SupportedLanguage>)
        ensures
            r == match spec_detect_language(path@) {
                Some(l) => if self.spec_is_enabled(l) { Some(l) } else { None::<SupportedLanguage> },
                None => None::<SupportedLanguage>,
            },
    {
        match detect_language_from_path(path) {
            Some(l) => {
                if self.is_enabled(l) {
                    Some(l)
                } else {
                    None
                }
            },
            None => None,
        }
    }

    /// Whether `l` passes the allow-list gate.
    pub fn is_enabled(&self, l: SupportedLanguage) -> (r: bool)
        ensures
            r == self.spec_is_enabled(l),
    {
        match &self.enabled_languages {
            Some(v) => {
                let n = v.len();
                let mut i: usize = 0;
                while i < n
                    invariant
                        n == v@.len(),
                        i <= n,
                        self.spec_enabled() == Some(v@),
                        forall|j: int| 0 <= j < i ==> v@[j] != l,
                    decreases n - i,
                {
                    if v[i] == l {
                        proof {
                            assert(v@[i as int] == l);
                            assert(v@.contains(l));
                        }
                        return true;
                    }
                    i += 1;
                }
                proof {
                    assert(forall|j: int| 0 <= j < v@.len() ==> v@[j] != l);
                    assert(!v@.contains(l));
                }
                false
            },
            None => true,
        }
    }

    /// Whether a file would be analyzed, going by its extension.
    pub fn is_supported_file(&self, path: &str) -> (r: bool)
        ensures
            r == (self.detect_spec(path@) is Some),
    {
        self.detect_language(path).is_some()
    }

    /// What `detect_language` returns, as a spec-level function.
    pub open spec fn detect_spec(&self, path: Seq<char>) -> Option<SupportedLanguage> {
        match spec_detect_language(path) {
            Some(l) => if self.spec_is_enabled(l) { Some(l) } else { None },
            None => None,
        }
    }

    /// The enabled languages: the allow-list, or the whole catalog.
    pub fn enabled_languages(&self) -> (r: Vec<SupportedLanguage>)
        ensures
            r@ == match self.spec_enabled() {
                Some(s) => s,
                None => spec_all_languages(),
            },
    {
        match &self.enabled_languages {
            Some(v) => v.clone(),
            None => SupportedLanguage::all(),
        }
    }
}

impl Default for LanguageManager {
    fn default() -> (r: Self)
        ensures
            r.spec_enabled() is None,
    {
        LanguageManager::new()
    }
}

/// Validates a list of language names, returning the parsed languages.
pub fn validate_language_list(languages: &Vec<String>) -> (r: Result<Vec<SupportedLanguage>>)
    ensures
        (r matches Ok(v) && v@.len() == languages@.len()) || (r is Err),
        r matches Ok(v) ==> forall|i: int|
            0 <= i < v@.len() ==> Some(v@[i]) == spec_language_of_name(languages@[i]@),
        r is Ok <==> forall|i: int|
            0 <= i < languages@.len() ==> spec_language_of_name(languages@[i]@) is Some,
{
    let mut out: Vec<SupportedLanguage> = Vec::new();
    let n = languages.len();
    let mut i: usize = 0;
    while i < n
        invariant
            n == languages@.len(),
            i <= n,
            out@.len() == i,
            forall|j: int| 0 <= j < i ==> Some(out@[j]) == spec_language_of_name(languages@[j]@),
        decreases n - i,
    {
        match language_from_string(languages[i].as_str()) {
            Ok(l) => out.push(l),
            Err(e) => {
                proof {
                    assert(spec_language_of_name(languages@[i as int]@) is None);
                }
                return Err(e);
            },
        }
        i += 1;
    }
    proof {
        assert(forall|j: int|
            0 <= j < languages@.len() ==> #[trigger] spec_language_of_name(languages@[j]@)
                == Some(out@[j]));
    }
    Ok(out)
}

} // verus!
