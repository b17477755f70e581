use code_analyzer::cli::{CliArgs, OutputFormat, SortBy};
use code_analyzer::AnalysisConfig;

#[test]
fn test_sort_by_display() {
    assert_eq!(SortBy::Lines.name(), "lines");
    assert_eq!(SortBy::Functions.name(), "functions");
    assert_eq!(SortBy::Classes.name(), "classes");
}

#[test]
fn test_output_format_display() {
    assert_eq!(OutputFormat::Table.name(), "table");
    assert_eq!(OutputFormat::Json.name(), "json");
    assert_eq!(OutputFormat::Both.name(), "both");
}

#[test]
fn test_analysis_config_default() {
    let config = AnalysisConfig::default();
    assert_eq!(config.min_lines, 1);
    assert_eq!(config.max_lines, None); // Check max_lines is None
    assert_eq!(config.max_file_size_mb, 10);
    assert!(!config.include_hidden);
    assert!(!config.verbose);
}

#[test]
fn test_target_path() {
    let args = CliArgs {
        path: Some("/test/path".to_string()),
        ..Default::default()
    };
    assert_eq!(args.target_path(), "/test/path");

    let args = CliArgs {
        path: None,
        ..Default::default()
    };
    // Should fall back to the current directory marker
    assert!(!args.target_path().is_empty());
}

#[test]
fn test_json_output_path() {
    let args = CliArgs {
        output_file: Some("custom.json".to_string()),
        ..Default::default()
    };
    assert_eq!(args.json_output_path(), "custom.json");

    let args = CliArgs {
        output_file: None,
        ..Default::default()
    };
    assert_eq!(args.json_output_path(), "refactor-candidates.json");
}

#[test]
fn test_output_logic() {
    let args = CliArgs {
        output: OutputFormat::Table,
        json_only: false,
        ..Default::default()
    };
    assert!(args.should_output_terminal());
    assert!(!args.should_output_json());

    let args = CliArgs {
        output: OutputFormat::Json,
        json_only: false,
        ..Default::default()
    };
    assert!(!args.should_output_terminal());
    assert!(args.should_output_json());

    let args = CliArgs {
        output: OutputFormat::Both,
        json_only: false,
        ..Default::default()
    };
    assert!(args.should_output_terminal());
    assert!(args.should_output_json());

    let args = CliArgs {
        output: OutputFormat::Table,
        json_only: true,
        ..Default::default()
    };
    assert!(!args.should_output_terminal());
    assert!(args.should_output_json());
}

#[test]
fn test_validate_valid_args() {
    let args = CliArgs {
        min_lines: 1,
        max_lines: Some(1000),
        max_file_size_mb: 10,
        ..Default::default()
    };
    assert!(args.validate().is_ok());
}

#[test]
fn test_validate_min_lines_greater_than_max() {
    let args = CliArgs {
        min_lines: 100,
        max_lines: Some(50),
        ..Default::default()
    };
    let result = args.validate();
    assert!(result.is_err());
    assert!(result
        .unwrap_err()
        .message()
        .contains("min-lines must be less than max-lines"));
}

#[test]
fn test_validate_max_lines_equal_to_min_lines() {
    let args = CliArgs {
        min_lines: 50,
        max_lines: Some(50),
        ..Default::default()
    };
    let result = args.validate();
    assert!(result.is_err());
    assert!(result
        .unwrap_err()
        .message()
        .contains("min-lines must be less than max-lines"));
}

#[test]
fn test_validate_zero_file_size() {
    let args = CliArgs {
        max_file_size_mb: 0,
        ..Default::default()
    };
    let result = args.validate();
    assert!(result.is_err());
    assert!(result
        .unwrap_err()
        .message()
        .contains("max-file-size-mb must be greater than 0"));
}

#[test]
fn test_validate_with_none_path() {
    // None path should be valid (defaults to current directory)
    let args = CliArgs {
        path: None,
        ..Default::default()
    };
    assert!(args.validate().is_ok());
}

#[test]
fn test_validate_with_only_min_lines() {
    // No max_lines means no constraint
    let args = CliArgs {
        min_lines: 10,
        max_lines: None,
        ..Default::default()
    };
    assert!(args.validate().is_ok());
}

#[test]
fn cli_defaults_match_documented_values() {
    let args = CliArgs::default();
    assert_eq!(args.min_lines, 1);
    assert!(matches!(args.sort, SortBy::Complexity));
    assert!(matches!(args.output, OutputFormat::Table));
    assert!(!args.json_only);
    assert!(!args.verbose);
    assert_eq!(args.max_file_size_mb, 10);
    assert_eq!(args.limit, 10);
}
