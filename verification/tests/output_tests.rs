use code_analyzer::cli::CliArgs;
use code_analyzer::output::{format_number, JsonExporter, OutputManager, TerminalReporter};
use code_analyzer::walk::WalkStats;

#[test]
fn test_terminal_reporter_creation() {
    let reporter = TerminalReporter::new();
    assert!(reporter.show_summary);
    assert!(reporter.color_enabled);

    let reporter = TerminalReporter::new().with_summary(false).with_colors(false);
    assert!(!reporter.show_summary);
    assert!(!reporter.color_enabled);
}

#[test]
fn test_format_file_path() {
    let reporter = TerminalReporter::new();

    // Short path should remain unchanged
    assert_eq!(reporter.format_file_path("src/main.rs"), "src/main.rs");

    // Long path should be truncated
    let long_path = "very/long/path/to/some/deeply/nested/directory/structure/file.rs";
    let formatted = reporter.format_file_path(long_path);
    assert!(formatted.starts_with("..."));
    assert!(formatted.len() <= 53); // 50 + "..."
}

#[test]
fn test_format_file_path_with_base_path() {
    let reporter = TerminalReporter::new().with_base_path("/home/user/project".to_string());

    // File within base path should show relative path
    assert_eq!(
        reporter.format_file_path("/home/user/project/src/main.rs"),
        "src/main.rs"
    );

    // File outside base path should show full path
    assert_eq!(
        reporter.format_file_path("/other/path/file.rs"),
        "/other/path/file.rs"
    );
}

#[test]
fn test_output_manager_creation() {
    let manager = OutputManager::new();
    assert!(manager.show_summary);

    let cli_args = CliArgs {
        json_only: true,
        ..Default::default()
    };

    let manager = OutputManager::from_cli_args(&cli_args, false);
    assert!(!manager.show_summary);
}

#[test]
fn test_manager_configuration() {
    let mut manager = OutputManager::new();

    manager.configure_terminal(false, false);
    manager.configure_json(false);

    assert!(!manager.show_summary);
    assert!(!manager.json_exporter.pretty_print);
}

#[test]
fn json_exporter_builders() {
    let exporter = JsonExporter::new();
    assert!(exporter.pretty_print);
    assert!(exporter.include_metadata);
    let exporter = exporter.pretty_print(false).include_metadata(false);
    assert!(!exporter.pretty_print);
    assert!(!exporter.include_metadata);
}

#[test]
fn severity_indicator_thresholds() {
    let reporter = TerminalReporter::new();
    assert_eq!(reporter.get_severity_indicator(12_000), "[HIGH]");
    assert_eq!(reporter.get_severity_indicator(10_000), "[HIGH]");
    assert_eq!(reporter.get_severity_indicator(7_000), "[MED]");
    assert_eq!(reporter.get_severity_indicator(5_000), "[MED]");
    assert_eq!(reporter.get_severity_indicator(4_999), "[LOW]");
    assert_eq!(reporter.get_severity_indicator(0), "[LOW]");
}

#[test]
fn format_number_groups_thousands() {
    assert_eq!(format_number(0), "0");
    assert_eq!(format_number(999), "999");
    assert_eq!(format_number(1000), "1,000");
    assert_eq!(format_number(1234567), "1,234,567");
}

#[test]
fn walk_stats_summary_line() {
    let stats = WalkStats {
        total_entries_scanned: 12,
        files_found: 7,
        directories_scanned: 3,
        files_skipped_size: 1,
        files_skipped_language: 2,
        files_skipped_hidden: 0,
        errors_encountered: 0,
    };
    assert_eq!(stats.summary(), "Scanned 12 entries, found 7 files, 0 errors");
}
