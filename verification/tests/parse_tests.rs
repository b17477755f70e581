use code_analyzer::cli::CliArgs;
use code_analyzer::error::AnalyzerError;
use code_analyzer::language::LanguageManager;
use code_analyzer::metrics::NodeRec;
use code_analyzer::parse::{error_locations_from, FileParser, ParseResult};
use code_analyzer::report::{finalize_analysis, AnalysisConfig};
use code_analyzer::walk::{should_include_file, FilterConfig, IncludeResult};

fn parser_for_all() -> FileParser {
    FileParser::new(LanguageManager::new(), 10)
}

fn test_config() -> AnalysisConfig {
    AnalysisConfig {
        target_path: ".".to_string(),
        languages: Vec::new(),
        min_lines: 0,
        max_lines: None,
        include_hidden: false,
        max_file_size_mb: 10,
    }
}

#[test]
fn analyze_rust_source_counts_items() {
    let parser = parser_for_all();
    let source = "fn main() {\n    if true {\n        println!(\"hi\");\n    }\n}\n\nstruct Test {\n    value: i32,\n}\n";
    let result = parser.analyze_source("main.rs", source).unwrap();
    let a = &result.analysis;
    assert_eq!(a.language, "rust");
    assert_eq!(a.functions, 1);
    assert_eq!(a.classes, 1);
    // one `if` on top of the base path
    assert_eq!(a.cyclomatic_complexity, 2);
    assert_eq!(a.blank_lines, 1);
    assert!(result.warnings.is_empty());
}

#[test]
fn analyze_python_source_counts_items() {
    let parser = parser_for_all();
    let source = "def hello():\n    print('hi')\n\nclass Calculator:\n    pass\n";
    let result = parser.analyze_source("utils.py", source).unwrap();
    let a = &result.analysis;
    assert_eq!(a.language, "python");
    assert_eq!(a.functions, 1);
    assert_eq!(a.classes, 1);
}

#[test]
fn analyze_counts_comment_lines_from_the_tree() {
    let parser = parser_for_all();
    let source = "// one\nfn main() {}\n/* two\nthree */\n";
    let result = parser.analyze_source("c.rs", source).unwrap();
    let a = &result.analysis;
    assert_eq!(a.comment_lines, 3);
    assert_eq!(a.lines_of_code, 1);
    assert_eq!(a.blank_lines, 0);
}

#[test]
fn scenario_empty_file_analyzes_to_zero() {
    let parser = parser_for_all();
    let result = parser.analyze_source("empty.rs", "").unwrap();
    let a = &result.analysis;
    assert_eq!(a.lines_of_code, 0);
    assert_eq!(a.blank_lines, 0);
    assert_eq!(a.comment_lines, 0);
    assert_eq!(a.cyclomatic_complexity, 1);
    assert_eq!(a.complexity_score_milli, 400);
}

#[test]
fn scenario_reexport_syntax_parses_cleanly_after_sanitization() {
    let parser = parser_for_all();
    let source = "export type * from \"./documents/types\";\nconst x = 1;\n";
    let result = parser.analyze_source("types.ts", source).unwrap();
    assert!(result.warnings.is_empty());
    assert_eq!(result.analysis.language, "typescript");
    // Line accounting still reflects the original text.
    assert_eq!(result.analysis.lines_of_code, 2);
}

#[test]
fn analyze_rejects_unsupported_extension() {
    let parser = parser_for_all();
    let err = parser.analyze_source("notes.txt", "hello").unwrap_err();
    assert!(matches!(err, AnalyzerError::UnsupportedLanguage(_)));
    assert!(err.message().contains("txt"));
}

#[test]
fn analyze_respects_the_language_allow_list() {
    let manager = LanguageManager::with_languages(vec![
        code_analyzer::language::SupportedLanguage::Python,
    ]);
    let parser = FileParser::new(manager, 10);
    assert!(parser.analyze_source("main.rs", "fn main() {}").is_err());
    assert!(parser.analyze_source("ok.py", "x = 1\n").is_ok());
}

#[test]
fn syntax_errors_surface_as_one_warning_with_locations() {
    let parser = parser_for_all();
    let source = "fn broken( {\n    let = ;\n}\n";
    let result = parser.analyze_source("broken.rs", source).unwrap();
    assert_eq!(result.warnings.len(), 1);
    let w = &result.warnings[0];
    assert!(matches!(
        w.warning_type,
        code_analyzer::error::WarningType::SyntaxError
    ));
    assert_eq!(w.file_path, "broken.rs");
    assert!(!w.locations.is_empty());
    assert!(w.locations.len() <= 5);
    // The message names the first location.
    let l0 = &w.locations[0];
    assert_eq!(
        w.message,
        format!(
            "Parse errors detected near {}:{} ({})",
            l0.line, l0.column, l0.kind
        )
    );
    assert!(l0.line >= 1 && l0.column >= 1);
    assert!(!l0.kind.is_empty());
}

fn node(kind: &str, row: usize, col: usize, error: bool, missing: bool) -> NodeRec {
    NodeRec {
        kind: kind.to_string(),
        start_row: row,
        start_col: col,
        end_row: row,
        error,
        missing,
    }
}

#[test]
fn error_locations_report_the_first_flagged_nodes() {
    let nodes = vec![
        node("source_file", 0, 0, false, false),
        node("ERROR", 2, 4, true, false),
        node("identifier", 2, 6, false, false),
        node("MISSING", 99, 0, false, true),
    ];
    let lines = vec![
        "fn a() {".to_string(),
        "    let x = 1;".to_string(),
        "    broken here   ".to_string(),
    ];
    let locs = error_locations_from(&nodes, &lines, 5);
    assert_eq!(locs.len(), 2);
    assert_eq!(locs[0].line, 3);
    assert_eq!(locs[0].column, 5);
    assert_eq!(locs[0].kind, "ERROR");
    // The snippet is the start row's line with trailing whitespace dropped.
    assert_eq!(locs[0].snippet.as_deref(), Some("    broken here"));
    assert_eq!(locs[1].line, 100);
    assert_eq!(locs[1].kind, "MISSING");
    // A row outside the source yields no snippet.
    assert!(locs[1].snippet.is_none());

    // The cap keeps only the first flagged nodes.
    let capped = error_locations_from(&nodes, &lines, 1);
    assert_eq!(capped.len(), 1);
    assert_eq!(capped[0].kind, "ERROR");
}

#[test]
fn error_location_snippets_truncate_to_two_hundred_characters() {
    let long_line: String = "x".repeat(300);
    let nodes = vec![node("ERROR", 0, 0, true, false)];
    let locs = error_locations_from(&nodes, &vec![long_line], 5);
    assert_eq!(locs[0].snippet.as_ref().unwrap().len(), 200);
}

#[test]
fn can_parse_honors_size_limit() {
    let parser = parser_for_all();
    assert!(parser.can_parse("a.rs", 1024));
    assert!(!parser.can_parse("a.rs", 11 * 1024 * 1024));
    assert!(!parser.can_parse("a.txt", 10));
    assert_eq!(parser.max_file_size_bytes(), 10 * 1024 * 1024);
}

#[test]
fn test_parse_result_structure() {
    // This tests the ParseResult structure used internally
    let parse_result = ParseResult {
        tree: None,
        warnings: vec![],
    };

    assert!(parse_result.tree.is_none());
    assert!(parse_result.warnings.is_empty());
}

#[test]
fn test_file_analysis_result_structure() {
    let file = code_analyzer::metrics::FileAnalysis {
        path: "test.rs".to_string(),
        language: "rust".to_string(),
        lines_of_code: 50,
        blank_lines: 5,
        comment_lines: 10,
        functions: 3,
        methods: 2,
        classes: 1,
        cyclomatic_complexity: 5,
        complexity_score_milli: 2500,
    };

    let result = code_analyzer::parse::FileAnalysisResult {
        analysis: file,
        warnings: vec![],
    };

    assert_eq!(result.analysis.lines_of_code, 50);
    assert!(result.warnings.is_empty());
}

#[test]
fn scenario_no_files_found_is_a_fatal_condition() {
    let args = CliArgs::default();
    let err = finalize_analysis(0, Vec::new(), Vec::new(), &args, test_config()).unwrap_err();
    assert!(matches!(err, AnalyzerError::Validation(_)));
    assert_eq!(
        err.message(),
        "Validation error: No supported files found in the specified directory"
    );
}

#[test]
fn all_files_failing_is_a_fatal_condition() {
    let args = CliArgs::default();
    let err = finalize_analysis(3, Vec::new(), Vec::new(), &args, test_config()).unwrap_err();
    assert_eq!(
        err.message(),
        "Validation error: Failed to analyze any files successfully"
    );
}

#[test]
fn finalize_applies_the_post_filters() {
    let args = CliArgs {
        min_lines: 50,
        ..Default::default()
    };
    let small = code_analyzer::metrics::FileAnalysis {
        path: "small.rs".to_string(),
        language: "rust".to_string(),
        lines_of_code: 10,
        blank_lines: 0,
        comment_lines: 0,
        functions: 1,
        methods: 0,
        classes: 0,
        cyclomatic_complexity: 1,
        complexity_score_milli: 450,
    };
    let large = code_analyzer::metrics::FileAnalysis {
        lines_of_code: 90,
        path: "large.rs".to_string(),
        ..small.clone()
    };
    let report = finalize_analysis(
        2,
        vec![small, large],
        Vec::new(),
        &args,
        test_config(),
    )
    .unwrap();
    assert_eq!(report.files.len(), 1);
    assert_eq!(report.files[0].path, "large.rs");
    assert_eq!(report.summary.total_files, 1);
}

#[test]
fn scenario_oversized_file_is_silently_filtered() {
    let config = FilterConfig::default();
    let manager = LanguageManager::new();
    // A file over the limit is skipped before any read of its contents:
    // the decision needs only its size, and yields a skip, not an error.
    let decision = should_include_file("huge.rs", Some(20 * 1024 * 1024), &config, &manager);
    assert_eq!(decision, IncludeResult::SkipSize);
    let decision = should_include_file("ok.rs", Some(1024), &config, &manager);
    assert_eq!(decision, IncludeResult::Include);
}

#[test]
fn hidden_and_foreign_files_are_skipped() {
    let config = FilterConfig::default();
    let manager = LanguageManager::new();
    assert_eq!(
        should_include_file("src/.hidden.rs", Some(10), &config, &manager),
        IncludeResult::SkipHidden
    );
    assert_eq!(
        should_include_file("README.md", Some(10), &config, &manager),
        IncludeResult::SkipLanguage
    );
    let mut restricted = FilterConfig::default();
    restricted.target_languages = vec!["python".to_string()];
    assert_eq!(
        should_include_file("main.rs", Some(10), &restricted, &manager),
        IncludeResult::SkipLanguage
    );
    assert_eq!(
        should_include_file("main.py", Some(10), &restricted, &manager),
        IncludeResult::Include
    );
}

#[test]
fn analyzing_twice_yields_identical_records() {
    let parser = parser_for_all();
    let source = "fn a() {}\nfn b() { if x { } }\n// note\n";
    let first = parser.analyze_source("twice.rs", source).unwrap().analysis;
    let second = parser.analyze_source("twice.rs", source).unwrap().analysis;
    assert_eq!(first.path, second.path);
    assert_eq!(first.language, second.language);
    assert_eq!(first.lines_of_code, second.lines_of_code);
    assert_eq!(first.blank_lines, second.blank_lines);
    assert_eq!(first.comment_lines, second.comment_lines);
    assert_eq!(first.functions, second.functions);
    assert_eq!(first.methods, second.methods);
    assert_eq!(first.classes, second.classes);
    assert_eq!(first.cyclomatic_complexity, second.cyclomatic_complexity);
    assert_eq!(first.complexity_score_milli, second.complexity_score_milli);
}

#[test]
fn tsx_ampersand_in_text_parses_cleanly_after_sanitization() {
    let parser = parser_for_all();
    let source = "export const C = () => (<div>Effects & Animations</div>);\n";
    let result = parser.analyze_source("c.tsx", source).unwrap();
    assert!(result.warnings.is_empty());
    assert_eq!(result.analysis.language, "typescript");
    assert_eq!(result.analysis.functions, 1);
}
