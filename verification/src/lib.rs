//! Multi-language source-tree analyzer: per-file code metrics (size,
//! structure, cyclomatic complexity) computed from concrete syntax trees,
//! with refactoring-candidate selection over configurable thresholds.

pub mod cli;
pub mod error;
pub mod language;
pub mod lines;
pub mod metrics;
pub mod output;
pub mod parse;
pub mod refactor;
pub mod report;
pub mod sanitize;
pub mod score;
pub mod text;
pub mod walk;

use vstd::prelude::*;

use crate::error::Result;
use crate::language::SupportedLanguage;

pub use crate::cli::{CliArgs, ColorMode, OutputFormat, SortBy};
pub use crate::error::{AnalyzerError, ParseWarning, ParseWarningLocation, WarningType};
pub use crate::language::{
    detect_language_from_path, language_from_string, validate_language_list, LanguageManager,
    NodeKindMapper,
};
pub use crate::lines::{count_lines, is_comment_line, split_source_lines, LineCounts};
pub use crate::metrics::FileAnalysis;
pub use crate::output::{
    apply_sorting, CsvExporter, JsonExporter, OutputManager, TerminalReporter,
};
pub use crate::parse::{FileAnalysisResult, FileParser, ParseResult};
pub use crate::refactor::{
    identify_refactoring_candidates, RefactoringCandidate, RefactoringReason,
    RefactoringThresholds,
};
pub use crate::report::{
    create_project_summary, finalize_analysis, merge_analysis_reports, AnalysisReport,
    LanguageStats, ProjectSummary,
};
pub use crate::sanitize::sanitize_for_tree_sitter;
pub use crate::walk::{
    filter_config_from_cli, should_include_file, FilterConfig, IncludeResult, WalkStats,
};

verus! {

/// Simplified analysis settings for programmatic use.
#[derive(Debug, Clone)]
pub struct AnalysisConfig {
    /// Languages to analyze; empty means all supported.
    pub languages: Vec<String>,
    /// Keep only files with at least this many lines of code.
    pub min_lines: usize,
    /// Keep only files with at most this many lines of code, when set.
    pub max_lines: Option<usize>,
    /// Consider hidden files.
    pub include_hidden: bool,
    /// Skip files larger than this many megabytes.
    pub max_file_size_mb: usize,
    /// Show progress during analysis.
    pub verbose: bool,
}

impl Default for AnalysisConfig {
    fn default() -> (r: Self)
        ensures
            r.languages@.len() == 0,
            r.min_lines == 1,
            r.max_lines is None,
            !r.include_hidden,
            r.max_file_size_mb == 10,
            !r.verbose,
    {
        AnalysisConfig {
            languages: Vec::new(),
            min_lines: 1,
            max_lines: None,
            include_hidden: false,
            max_file_size_mb: 10,
            verbose: false,
        }
    }
}

/// Checks that every listed language name is supported.
pub fn validate_languages(languages: &Vec<String>) -> (r: Result<()>)
    ensures
        r is Ok <==> forall|i: int|
            0 <= i < languages@.len() ==> crate::language::spec_language_of_name(
                languages@[i]@,
            ) is Some,
{
    match crate::language::validate_language_list(languages) {
        Ok(_) => Ok(()),
        Err(e) => Err(e),
    }
}

/// The display names of every supported language, catalog order, with the
/// TypeScript variants folded to one name.
pub fn supported_languages() -> (r: Vec<String>)
    ensures
        r@.len() == crate::language::spec_all_languages().len(),
        forall|i: int|
            0 <= i < r@.len() ==> (#[trigger] r@[i])@ == crate::language::spec_language_name(
                crate::language::spec_all_languages()[i],
            ),
{
    let names = SupportedLanguage::all_names();
    let n = names.len();
    let mut out: Vec<String> = Vec::new();
    let mut i: usize = 0;
    while i < n
        invariant
            n == names@.len(),
            n == crate::language::spec_all_languages().len(),
            forall|j: int|
                0 <= j < n ==> names@[j]@ == crate::language::spec_language_name(
                    crate::language::spec_all_languages()[j],
                ),
            i <= n,
            out@.len() == i,
            forall|j: int|
                0 <= j < i ==> (#[trigger] out@[j])@ == crate::language::spec_language_name(
                    crate::language::spec_all_languages()[j],
                ),
        decreases n - i,
    {
        out.push(names[i].to_owned());
        i += 1;
    }
    out
}

/// Whether a language name or alias is supported.
pub fn is_language_supported(language: &str) -> (r: bool)
    ensures
        r == (crate::language::spec_language_of_name(language@) is Some),
{
    crate::language::language_from_string(language).is_ok()
}

/// Whether the map takes some key spelled `ext` to some value spelled
/// `lang`.
pub open spec fn spec_maps_extension(
    m: Map<String, String>,
    ext: Seq<char>,
    lang: Seq<char>,
) -> bool {
    exists|k: String| #[trigger] m.contains_key(k) && k@ == ext && m[k]@ == lang
}

/// The mapping from the common file extensions to language display names.
/// The keys are extensions without their dot.  The contract holds under
/// vstd's model assumptions for string-keyed hash maps, which is as much as
/// vstd states of such a map.
#[verifier::rlimit(60)]
pub fn get_language_extensions() -> (r: std::collections::HashMap<String, String>)
    ensures
        vstd::std_specs::hash::obeys_key_model::<String>()
            && vstd::std_specs::hash::builds_valid_hashers::<
            std::collections::hash_map::RandomState,
        >() ==> {
            &&& r@.len() == 14
            &&& spec_maps_extension(r@, "rs"@, "rust"@)
            &&& spec_maps_extension(r@, "js"@, "javascript"@)
            &&& spec_maps_extension(r@, "jsx"@, "javascript"@)
            &&& spec_maps_extension(r@, "ts"@, "typescript"@)
            &&& spec_maps_extension(r@, "tsx"@, "typescript"@)
            &&& spec_maps_extension(r@, "py"@, "python"@)
            &&& spec_maps_extension(r@, "java"@, "java"@)
            &&& spec_maps_extension(r@, "c"@, "c"@)
            &&& spec_maps_extension(r@, "h"@, "c"@)
            &&& spec_maps_extension(r@, "cpp"@, "cpp"@)
            &&& spec_maps_extension(r@, "cc"@, "cpp"@)
            &&& spec_maps_extension(r@, "cxx"@, "cpp"@)
            &&& spec_maps_extension(r@, "hpp"@, "cpp"@)
            &&& spec_maps_extension(r@, "go"@, "go"@)
        },
{
    broadcast use vstd::std_specs::hash::group_hash_axioms;
    broadcast use vstd::string::group_string_axioms;

    let mut extensions: std::collections::HashMap<String, String> =
        std::collections::HashMap::new();
    let k = "rs".to_owned();
    let ghost key_rs = k;
    extensions.insert(k, "rust".to_owned());
    let k = "js".to_owned();
    let ghost key_js = k;
    extensions.insert(k, "javascript".to_owned());
    let k = "jsx".to_owned();
    let ghost key_jsx = k;
    extensions.insert(k, "javascript".to_owned());
    let k = "ts".to_owned();
    let ghost key_ts = k;
    extensions.insert(k, "typescript".to_owned());
    let k = "tsx".to_owned();
    let ghost key_tsx = k;
    extensions.insert(k, "typescript".to_owned());
    let k = "py".to_owned();
    let ghost key_py = k;
    extensions.insert(k, "python".to_owned());
    let k = "java".to_owned();
    let ghost key_java = k;
    extensions.insert(k, "java".to_owned());
    let k = "c".to_owned();
    let ghost key_c = k;
    extensions.insert(k, "c".to_owned());
    let k = "h".to_owned();
    let ghost key_h = k;
    extensions.insert(k, "c".to_owned());
    let k = "cpp".to_owned();
    let ghost key_cpp = k;
    extensions.insert(k, "cpp".to_owned());
    let k = "cc".to_owned();
    let ghost key_cc = k;
    extensions.insert(k, "cpp".to_owned());
    let k = "cxx".to_owned();
    let ghost key_cxx = k;
    extensions.insert(k, "cpp".to_owned());
    let k = "hpp".to_owned();
    let ghost key_hpp = k;
    extensions.insert(k, "cpp".to_owned());
    let k = "go".to_owned();
    let ghost key_go = k;
    extensions.insert(k, "go".to_owned());
    proof {
        reveal_strlit("rs");
        reveal_strlit("js");
        reveal_strlit("jsx");
        reveal_strlit("ts");
        reveal_strlit("tsx");
        reveal_strlit("py");
        reveal_strlit("java");
        reveal_strlit("c");
        reveal_strlit("h");
        reveal_strlit("cpp");
        reveal_strlit("cc");
        reveal_strlit("cxx");
        reveal_strlit("hpp");
        reveal_strlit("go");
        assert("rs"@ =~= seq!['r', 's']);
        assert("js"@ =~= seq!['j', 's']);
        assert("jsx"@ =~= seq!['j', 's', 'x']);
        assert("ts"@ =~= seq!['t', 's']);
        assert("tsx"@ =~= seq!['t', 's', 'x']);
        assert("py"@ =~= seq!['p', 'y']);
        assert("java"@ =~= seq!['j', 'a', 'v', 'a']);
        assert("c"@ =~= seq!['c']);
        assert("h"@ =~= seq!['h']);
        assert("cpp"@ =~= seq!['c', 'p', 'p']);
        assert("cc"@ =~= seq!['c', 'c']);
        assert("cxx"@ =~= seq!['c', 'x', 'x']);
        assert("hpp"@ =~= seq!['h', 'p', 'p']);
        assert("go"@ =~= seq!['g', 'o']);
        // The fourteen keys are pairwise distinct: with the literal
        // contents revealed above, assuming any two equal refutes itself.
        assert(key_rs != key_js);
        assert(key_rs != key_jsx);
        assert(key_rs != key_ts);
        assert(key_rs != key_tsx);
        assert(key_rs != key_py);
        assert(key_rs != key_java);
        assert(key_rs != key_c);
        assert(key_rs != key_h);
        assert(key_rs != key_cpp);
        assert(key_rs != key_cc);
        assert(key_rs != key_cxx);
        assert(key_rs != key_hpp);
        assert(key_rs != key_go);
        assert(key_js != key_jsx);
        assert(key_js != key_ts);
        assert(key_js != key_tsx);
        assert(key_js != key_py);
        assert(key_js != key_java);
        assert(key_js != key_c);
        assert(key_js != key_h);
        assert(key_js != key_cpp);
        assert(key_js != key_cc);
        assert(key_js != key_cxx);
        assert(key_js != key_hpp);
        assert(key_js != key_go);
        assert(key_jsx != key_ts);
        assert(key_jsx != key_tsx);
        assert(key_jsx != key_py);
        assert(key_jsx != key_java);
        assert(key_jsx != key_c);
        assert(key_jsx != key_h);
        assert(key_jsx != key_cpp);
        assert(key_jsx != key_cc);
        assert(key_jsx != key_cxx);
        assert(key_jsx != key_hpp);
        assert(key_jsx != key_go);
        assert(key_ts != key_tsx);
        assert(key_ts != key_py);
        assert(key_ts != key_java);
        assert(key_ts != key_c);
        assert(key_ts != key_h);
        assert(key_ts != key_cpp);
        assert(key_ts != key_cc);
        assert(key_ts != key_cxx);
        assert(key_ts != key_hpp);
        assert(key_ts != key_go);
        assert(key_tsx != key_py);
        assert(key_tsx != key_java);
        assert(key_tsx != key_c);
        assert(key_tsx != key_h);
        assert(key_tsx != key_cpp);
        assert(key_tsx != key_cc);
        assert(key_tsx != key_cxx);
        assert(key_tsx != key_hpp);
        assert(key_tsx != key_go);
        assert(key_py != key_java);
        assert(key_py != key_c);
        assert(key_py != key_h);
        assert(key_py != key_cpp);
        assert(key_py != key_cc);
        assert(key_py != key_cxx);
        assert(key_py != key_hpp);
        assert(key_py != key_go);
        assert(key_java != key_c);
        assert(key_java != key_h);
        assert(key_java != key_cpp);
        assert(key_java != key_cc);
        assert(key_java != key_cxx);
        assert(key_java != key_hpp);
        assert(key_java != key_go);
        assert(key_c != key_h) by {
            assert("c"@[0] == 'c');
            assert("h"@[0] == 'h');
            assert("c"@ != "h"@);
        }
        assert(key_c != key_cpp);
        assert(key_c != key_cc);
        assert(key_c != key_cxx);
        assert(key_c != key_hpp);
        assert(key_c != key_go);
        assert(key_h != key_cpp);
        assert(key_h != key_cc);
        assert(key_h != key_cxx);
        assert(key_h != key_hpp);
        assert(key_h != key_go);
        assert(key_cpp != key_cc);
        assert(key_cpp != key_cxx);
        assert(key_cpp != key_hpp);
        assert(key_cpp != key_go);
        assert(key_cc != key_cxx);
        assert(key_cc != key_hpp);
        assert(key_cc != key_go);
        assert(key_cxx != key_hpp);
        assert(key_cxx != key_go);
        assert(key_hpp != key_go);
        if vstd::std_specs::hash::obeys_key_model::<String>()
            && vstd::std_specs::hash::builds_valid_hashers::<
            std::collections::hash_map::RandomState,
        >() {
        assert(spec_maps_extension(extensions@, "rs"@, "rust"@)) by {
            assert(extensions@.contains_key(key_rs) && extensions@[key_rs]@ == "rust"@);
        }
        assert(spec_maps_extension(extensions@, "js"@, "javascript"@)) by {
            assert(extensions@.contains_key(key_js) && extensions@[key_js]@ == "javascript"@);
        }
        assert(spec_maps_extension(extensions@, "jsx"@, "javascript"@)) by {
            assert(extensions@.contains_key(key_jsx) && extensions@[key_jsx]@ == "javascript"@);
        }
        assert(spec_maps_extension(extensions@, "ts"@, "typescript"@)) by {
            assert(extensions@.contains_key(key_ts) && extensions@[key_ts]@ == "typescript"@);
        }
        assert(spec_maps_extension(extensions@, "tsx"@, "typescript"@)) by {
            assert(extensions@.contains_key(key_tsx) && extensions@[key_tsx]@ == "typescript"@);
        }
        assert(spec_maps_extension(extensions@, "py"@, "python"@)) by {
            assert(extensions@.contains_key(key_py) && extensions@[key_py]@ == "python"@);
        }
        assert(spec_maps_extension(extensions@, "java"@, "java"@)) by {
            assert(extensions@.contains_key(key_java) && extensions@[key_java]@ == "java"@);
        }
        assert(spec_maps_extension(extensions@, "c"@, "c"@)) by {
            assert(extensions@.contains_key(key_c) && extensions@[key_c]@ == "c"@);
        }
        assert(spec_maps_extension(extensions@, "h"@, "c"@)) by {
            assert(extensions@.contains_key(key_h) && extensions@[key_h]@ == "c"@);
        }
        assert(spec_maps_extension(extensions@, "cpp"@, "cpp"@)) by {
            assert(extensions@.contains_key(key_cpp) && extensions@[key_cpp]@ == "cpp"@);
        }
        assert(spec_maps_extension(extensions@, "cc"@, "cpp"@)) by {
            assert(extensions@.contains_key(key_cc) && extensions@[key_cc]@ == "cpp"@);
        }
        assert(spec_maps_extension(extensions@, "cxx"@, "cpp"@)) by {
            assert(extensions@.contains_key(key_cxx) && extensions@[key_cxx]@ == "cpp"@);
        }
        assert(spec_maps_extension(extensions@, "hpp"@, "cpp"@)) by {
            assert(extensions@.contains_key(key_hpp) && extensions@[key_hpp]@ == "cpp"@);
        }
        assert(spec_maps_extension(extensions@, "go"@, "go"@)) by {
            assert(extensions@.contains_key(key_go) && extensions@[key_go]@ == "go"@);
        }
            assert(extensions@.len() == 14);
        }
    }
    extensions
}

} // verus!
