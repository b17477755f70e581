use code_analyzer::error::AnalyzerError;

#[test]
fn test_error_display() {
    let err = AnalyzerError::parse_error("Invalid syntax");
    assert_eq!(err.message(), "Parse error: Invalid syntax");

    let err = AnalyzerError::unsupported_language("kotlin");
    assert_eq!(err.message(), "Unsupported programming language: kotlin");

    let err = AnalyzerError::invalid_path("/nonexistent/path");
    assert!(err.message().contains("Invalid path"));
}

#[test]
fn test_result_type_alias() {
    let test_function = || -> code_analyzer::error::Result<String> { Ok("success".to_string()) };

    assert!(test_function().is_ok());
}

#[test]
fn every_error_variant_has_its_prefix() {
    assert!(AnalyzerError::Io("x".to_string()).message().starts_with("IO error: "));
    assert!(AnalyzerError::Json("x".to_string()).message().starts_with("JSON error: "));
    assert!(AnalyzerError::Walk("x".to_string())
        .message()
        .starts_with("Directory traversal error: "));
    assert!(AnalyzerError::Progress("x".to_string())
        .message()
        .starts_with("Progress reporting error: "));
    assert!(AnalyzerError::tree_sitter_error("x")
        .message()
        .starts_with("Tree-sitter parsing error: "));
    assert!(AnalyzerError::config_error("x")
        .message()
        .starts_with("Configuration error: "));
    assert!(AnalyzerError::validation_error("x")
        .message()
        .starts_with("Validation error: "));
}

#[test]
fn test_error_conversion() {
    let io_err = std::io::Error::new(std::io::ErrorKind::NotFound, "File not found");
    let analyzer_err: AnalyzerError = io_err.into();

    match analyzer_err {
        AnalyzerError::Io(_) => (), // Expected
        _ => panic!("Expected Io variant"),
    }
}
