use code_analyzer::cli::SortBy;
use code_analyzer::language::SupportedLanguage;
use code_analyzer::metrics::{calculate_cyclomatic_complexity, FileAnalysis};
use code_analyzer::output::apply_sorting;
use code_analyzer::refactor::{
    identify_refactoring_candidates, RefactoringReason, RefactoringThresholds,
};
use code_analyzer::report::{
    create_project_summary, merge_analysis_reports, now_timestamp, AnalysisConfig,
    AnalysisReport,
};
use code_analyzer::score::isqrt;

fn analysis(path: &str, loc: usize, blank: usize, comments: usize) -> FileAnalysis {
    FileAnalysis {
        path: path.to_string(),
        language: "rust".to_string(),
        lines_of_code: loc,
        blank_lines: blank,
        comment_lines: comments,
        functions: 0,
        methods: 0,
        classes: 0,
        cyclomatic_complexity: 1,
        complexity_score_milli: 0,
    }
}

#[test]
fn test_file_analysis_complexity() {
    let mut record = FileAnalysis {
        path: "test.rs".to_string(),
        language: "rust".to_string(),
        lines_of_code: 100,
        blank_lines: 10,
        comment_lines: 20,
        functions: 5,
        methods: 3,
        classes: 2,
        cyclomatic_complexity: 10,
        complexity_score_milli: 0,
    };

    record.calculate_complexity();
    assert!(record.complexity_score_milli > 0);
}

#[test]
fn test_create_project_summary() {
    let mut first = analysis("test1.rs", 100, 10, 5);
    first.functions = 3;
    first.methods = 2;
    first.classes = 1;
    first.cyclomatic_complexity = 5;
    first.complexity_score_milli = 2500;
    let mut second = analysis("test2.rs", 200, 20, 10);
    second.functions = 5;
    second.methods = 4;
    second.classes = 2;
    second.cyclomatic_complexity = 8;
    second.complexity_score_milli = 4000;
    let files = vec![first, second];

    let summary = create_project_summary(&files);
    assert_eq!(summary.total_files, 2);
    assert_eq!(summary.total_lines, 345); // 100+10+5 + 200+20+10
    assert_eq!(summary.total_functions, 8);
    assert_eq!(summary.total_classes, 3);
    assert!(summary.has_language("rust"));

    let rust_stats = summary.language_stats("rust").unwrap();
    assert_eq!(rust_stats.file_count, 2);
    assert_eq!(rust_stats.avg_functions_per_file_milli, 4000); // 8/2 = 4.0
}

#[test]
fn test_calculate_cyclomatic_complexity_none_tree() {
    let language = SupportedLanguage::Rust;
    let complexity = calculate_cyclomatic_complexity(None, &language);

    // Should return minimum complexity of 1
    assert_eq!(complexity, 1);
}

#[test]
fn test_apply_sorting() {
    let mut one = analysis("src/main.rs", 150, 20, 30);
    one.functions = 8;
    one.complexity_score_milli = 3500;
    let mut two = analysis("lib/utils.js", 75, 10, 15);
    two.language = "javascript".to_string();
    two.functions = 5;
    two.complexity_score_milli = 2100;
    let mut three = analysis("tests/test_module.py", 200, 25, 40);
    three.language = "python".to_string();
    three.functions = 12;
    three.complexity_score_milli = 4800;
    let mut files = vec![one, two, three];

    // Test sorting by lines
    apply_sorting(&mut files, SortBy::Lines);
    assert_eq!(files[0].lines_of_code, 200); // Python file should be first

    // Test sorting by functions
    apply_sorting(&mut files, SortBy::Functions);
    assert_eq!(files[0].functions, 12); // Python file should be first

    // Test sorting by name
    apply_sorting(&mut files, SortBy::Name);
    // Should be sorted alphabetically by filename
    let first_name = files[0].path.rsplit('/').next().unwrap();
    let second_name = files[1].path.rsplit('/').next().unwrap();
    assert!(first_name <= second_name);
}

#[test]
fn test_merge_analysis_reports() {
    let files = vec![analysis("a.rs", 10, 1, 1), analysis("b.rs", 20, 2, 2)];
    let config = AnalysisConfig {
        target_path: "./test".to_string(),
        languages: vec!["rust".to_string()],
        min_lines: 1,
        max_lines: None,
        include_hidden: false,
        max_file_size_mb: 10,
    };
    let report = AnalysisReport {
        summary: create_project_summary(&files),
        files,
        config,
        generated_at: now_timestamp(),
        warnings: Vec::new(),
    };

    let merged = merge_analysis_reports(&vec![report.clone(), report.clone()]).unwrap();

    // Should have files from both reports
    assert_eq!(merged.files.len(), report.files.len() * 2);
    assert!(merged.summary.total_files >= report.summary.total_files);
}

#[test]
fn isqrt_exact_values() {
    assert_eq!(isqrt(0), 0);
    assert_eq!(isqrt(1), 1);
    assert_eq!(isqrt(3), 1);
    assert_eq!(isqrt(4), 2);
    assert_eq!(isqrt(12_000_000), 3464);
    assert_eq!(isqrt(2_000_000), 1414);
    assert_eq!(isqrt(u64::MAX), 4294967295);
}

#[test]
fn scenario_large_complex_file_score_and_candidacy() {
    // A 600-line file with CC 16, 12 functions and 2 classes scores about
    // 10.65 points: 3.0 (size) + 6.4 (complexity) + ~1.04 + ~0.21.
    let mut record = analysis("big.rs", 600, 0, 0);
    record.functions = 12;
    record.classes = 2;
    record.cyclomatic_complexity = 16;
    record.calculate_complexity();
    assert_eq!(record.complexity_score_milli, 10_651);

    let candidates = identify_refactoring_candidates(
        &vec![record],
        &RefactoringThresholds::default(),
    );
    assert_eq!(candidates.len(), 1);
    // Flagged by score, cyclomatic complexity and size, but not by the
    // function count (12 < 25).
    assert_eq!(candidates[0].reasons.len(), 3);
    assert!(matches!(
        candidates[0].reasons[0],
        RefactoringReason::HighComplexityScore(10_651)
    ));
    assert!(matches!(
        candidates[0].reasons[1],
        RefactoringReason::HighCyclomaticComplexity(16)
    ));
    assert!(matches!(
        candidates[0].reasons[2],
        RefactoringReason::LargeFile(600)
    ));
    assert_eq!(candidates[0].reasons_string(), "High Score, High CC, Large file");
}

#[test]
fn scenario_empty_record_is_never_a_candidate() {
    let mut record = analysis("empty.rs", 0, 0, 0);
    record.calculate_complexity();
    // cyclomatic complexity 1 contributes 0.4 points and nothing else
    assert_eq!(record.complexity_score_milli, 400);

    let candidates = identify_refactoring_candidates(
        &vec![record],
        &RefactoringThresholds::default(),
    );
    assert!(candidates.is_empty());
}

#[test]
fn default_thresholds_match_published_guidance() {
    let t = RefactoringThresholds::default();
    assert_eq!(t.max_complexity_score_milli, 10_000);
    assert_eq!(t.max_cyclomatic_complexity, 15);
    assert_eq!(t.max_lines_of_code, 500);
    assert_eq!(t.max_functions, 25);
}

#[test]
fn raising_one_threshold_cannot_add_candidates() {
    let mut a = analysis("a.rs", 600, 0, 0);
    a.cyclomatic_complexity = 16;
    a.calculate_complexity();
    let mut b = analysis("b.rs", 400, 0, 0);
    b.cyclomatic_complexity = 20;
    b.calculate_complexity();
    let files = vec![a, b];

    let lower = RefactoringThresholds::default();
    let mut higher = RefactoringThresholds::default();
    higher.max_cyclomatic_complexity = 30;

    let with_lower = identify_refactoring_candidates(&files, &lower);
    let with_higher = identify_refactoring_candidates(&files, &higher);
    assert!(with_higher.len() <= with_lower.len());
}

#[test]
fn candidates_sort_by_score_descending() {
    let mut a = analysis("a.rs", 600, 0, 0);
    a.cyclomatic_complexity = 16;
    a.calculate_complexity();
    let mut b = analysis("b.rs", 900, 0, 0);
    b.cyclomatic_complexity = 30;
    b.calculate_complexity();
    let files = vec![a, b];

    let candidates =
        identify_refactoring_candidates(&files, &RefactoringThresholds::default());
    assert_eq!(candidates.len(), 2);
    assert!(candidates[0].file.complexity_score_milli >= candidates[1].file.complexity_score_milli);
    assert_eq!(candidates[0].file.path, "b.rs");
}

#[test]
fn total_lines_saturates_instead_of_overflowing() {
    let record = analysis("big.rs", usize::MAX, usize::MAX, 5);
    assert_eq!(record.total_lines(), usize::MAX);
}
