use code_analyzer::language::{
    detect_language_from_path, language_from_string, validate_language_list, LanguageManager,
    NodeKindMapper, SupportedLanguage,
};
use code_analyzer::{is_language_supported, supported_languages, validate_languages};

#[test]
fn test_language_from_string() {
    assert!(matches!(
        language_from_string("rust"),
        Ok(SupportedLanguage::Rust)
    ));
    assert!(matches!(
        language_from_string("javascript"),
        Ok(SupportedLanguage::JavaScript)
    ));
    assert!(language_from_string("unknown").is_err());
}

#[test]
fn test_node_kind_mapping() {
    let rust = SupportedLanguage::Rust;
    assert!(rust.is_function_node("function_item"));
    assert!(rust.is_class_node("struct_item"));
    assert!(!rust.is_function_node("struct_item"));

    let js = SupportedLanguage::JavaScript;
    assert!(js.is_function_node("function_declaration"));
    assert!(js.is_class_node("class_declaration"));
}

#[test]
fn test_validate_language_list() {
    let languages = vec!["rust".to_string(), "python".to_string()];
    let result = validate_language_list(&languages).unwrap();
    assert_eq!(result.len(), 2);
    assert!(result.contains(&SupportedLanguage::Rust));
    assert!(result.contains(&SupportedLanguage::Python));

    let invalid_languages = vec!["rust".to_string(), "unknown".to_string()];
    assert!(validate_language_list(&invalid_languages).is_err());
}

#[test]
fn test_all_languages() {
    let all = SupportedLanguage::all();
    assert!(all.len() >= 8); // We support at least 8 languages
    assert!(all.contains(&SupportedLanguage::Rust));
    assert!(all.contains(&SupportedLanguage::Python));
}

#[test]
fn test_language_display() {
    assert_eq!(SupportedLanguage::Rust.name(), "rust");
    assert_eq!(SupportedLanguage::JavaScript.name(), "javascript");
}

#[test]
fn test_language_detection() {
    let manager = LanguageManager::new();

    assert_eq!(
        manager.detect_language("test.rs"),
        Some(SupportedLanguage::Rust)
    );
    assert_eq!(
        manager.detect_language("test.js"),
        Some(SupportedLanguage::JavaScript)
    );
    assert_eq!(
        manager.detect_language("test.py"),
        Some(SupportedLanguage::Python)
    );
    assert_eq!(manager.detect_language("test.txt"), None);
}

#[test]
fn test_tsx_detection() {
    let manager = LanguageManager::new();

    // TSX files should use the Tsx variant (with tsx grammar)
    assert_eq!(
        manager.detect_language("Component.tsx"),
        Some(SupportedLanguage::Tsx)
    );
    // TS files should use TypeScript variant
    assert_eq!(
        manager.detect_language("utils.ts"),
        Some(SupportedLanguage::TypeScript)
    );
    // TSX should report as "typescript" in output
    assert_eq!(SupportedLanguage::Tsx.name(), "typescript");
}

#[test]
fn test_language_manager_with_restricted_languages() {
    let manager = LanguageManager::with_languages(vec![
        SupportedLanguage::Rust,
        SupportedLanguage::Python,
    ]);

    assert_eq!(
        manager.detect_language("test.rs"),
        Some(SupportedLanguage::Rust)
    );
    assert_eq!(manager.detect_language("test.js"), None);
}

#[test]
fn test_supported_languages() {
    let languages = supported_languages();
    assert!(!languages.is_empty());
    assert!(languages.contains(&"rust".to_string()));
    assert!(languages.contains(&"python".to_string()));
    assert!(languages.contains(&"javascript".to_string()));
}

#[test]
fn test_is_language_supported() {
    assert!(is_language_supported("rust"));
    assert!(is_language_supported("python"));
    assert!(is_language_supported("javascript"));
    assert!(!is_language_supported("unknown"));
}

#[test]
fn test_validate_languages() {
    let valid_languages = vec!["rust".to_string(), "python".to_string()];
    assert!(validate_languages(&valid_languages).is_ok());

    let invalid_languages = vec!["rust".to_string(), "unknown".to_string()];
    assert!(validate_languages(&invalid_languages).is_err());
}

#[test]
fn test_get_language_extensions() {
    let extensions = code_analyzer::get_language_extensions();
    assert!(!extensions.is_empty());
    assert_eq!(extensions.get("rs"), Some(&"rust".to_string()));
    assert_eq!(extensions.get("py"), Some(&"python".to_string()));
    assert_eq!(extensions.get("js"), Some(&"javascript".to_string()));
}

#[test]
fn test_detect_language_from_path_extensions() {
    assert_eq!(
        detect_language_from_path("a/b/c/main.go"),
        Some(SupportedLanguage::Go)
    );
    assert_eq!(
        detect_language_from_path("header.HPP"),
        Some(SupportedLanguage::Cpp)
    );
    assert_eq!(detect_language_from_path(".gitignore"), None);
    assert_eq!(detect_language_from_path("Makefile"), None);
    assert_eq!(
        detect_language_from_path("archive.tar.py"),
        Some(SupportedLanguage::Python)
    );
}

#[test]
fn test_method_kinds_may_be_empty() {
    // Not every grammar distinguishes methods; Rust's does not.
    assert!(SupportedLanguage::Rust.method_node_kinds().is_empty());
    assert!(!SupportedLanguage::Go.method_node_kinds().is_empty());
    // The other kind sets are never empty, for any language.
    for lang in SupportedLanguage::all() {
        assert!(!lang.function_node_kinds().is_empty());
        assert!(!lang.class_node_kinds().is_empty());
        assert!(!lang.control_flow_node_kinds().is_empty());
        assert!(!lang.comment_node_kinds().is_empty());
    }
}
