use code_analyzer::lines::{count_lines, is_comment_line, split_source_lines};

#[test]
fn test_line_counting() {
    let source = r#"
// This is a comment
fn main() {
    println!("Hello, world!");

    // Another comment
}

/* Block comment */
        "#;

    let counts = count_lines(source);
    assert!(counts.code > 0);
    assert!(counts.blank > 0);
    assert!(counts.comments > 0);
}

#[test]
fn test_is_comment_line() {
    assert!(is_comment_line("// Single line comment"));
    assert!(is_comment_line("# Python comment"));
    assert!(is_comment_line("/* Block comment */"));
    assert!(!is_comment_line("let x = 5;"));
    assert!(!is_comment_line("    code_with_spaces"));
}

#[test]
fn line_counting_exact_values() {
    let source = "fn main() {}\n\n// comment\n   \ncode\n";
    let counts = count_lines(source);
    assert_eq!(counts.code, 2);
    assert_eq!(counts.blank, 2);
    assert_eq!(counts.comments, 1);
}

#[test]
fn split_lines_matches_line_endings() {
    assert_eq!(split_source_lines(""), Vec::<String>::new());
    assert_eq!(split_source_lines("a\nb"), vec!["a", "b"]);
    assert_eq!(split_source_lines("a\nb\n"), vec!["a", "b"]);
    assert_eq!(split_source_lines("a\r\nb"), vec!["a", "b"]);
    assert_eq!(split_source_lines("\n"), vec![""]);
    assert_eq!(split_source_lines("a\n\nb"), vec!["a", "", "b"]);
}
