use code_analyzer::language::SupportedLanguage;
use code_analyzer::sanitize::sanitize_for_tree_sitter;

#[test]
fn parser_test_sanitize_typescript_export_type_star() {
    let input = r#"export type * from "../documents/types";"#;
    let sanitized = sanitize_for_tree_sitter(input, SupportedLanguage::TypeScript);
    assert!(sanitized.contains("export * from"));
    assert!(!sanitized.contains("export type * from"));
}

#[test]
fn parser_test_sanitize_tsx_escapes_ampersand_in_jsx_text() {
    let input = r#"export const C = () => (<div>Effects & Animations</div>);"#;
    let sanitized = sanitize_for_tree_sitter(input, SupportedLanguage::Tsx);
    assert!(sanitized.contains("Effects &amp; Animations"));
}

#[test]
fn parser_test_sanitize_tsx_escapes_ampersand_in_jsx_inside_expression() {
    let input = r#"
export const C = () => (
  <div>
    {cond ? (<p>a & b</p>) : (<p>c && d</p>)}
  </div>
);
"#;
    let sanitized = sanitize_for_tree_sitter(input, SupportedLanguage::Tsx);
    assert!(sanitized.contains("<p>a &amp; b</p>"));
    assert!(sanitized.contains("<p>c &amp;&amp; d</p>"));
}

#[test]
fn parser_test_sanitize_tsx_does_not_escape_type_intersection() {
    let input = r#"
export const X = React.forwardRef<
  React.ElementRef<typeof DialogPrimitive.Content>,
  React.ComponentPropsWithoutRef<typeof DialogPrimitive.Content> & {
    showCloseButton?: boolean;
  }
>(() => (<div>a & b</div>));
"#;
    let sanitized = sanitize_for_tree_sitter(input, SupportedLanguage::Tsx);
    assert!(sanitized.contains("ComponentPropsWithoutRef<typeof DialogPrimitive.Content> & {"));
    assert!(sanitized.contains("<div>a &amp; b</div>"));
}

#[test]
fn sanitizer_test_sanitize_typescript_export_type_star() {
    let input = r#"export type * from "../documents/types";"#;
    let sanitized = sanitize_for_tree_sitter(input, SupportedLanguage::TypeScript);
    assert!(sanitized.contains("export * from"));
    assert!(!sanitized.contains("export type * from"));
}

#[test]
fn sanitizer_test_sanitize_tsx_escapes_ampersand_in_jsx_text() {
    let input = r#"export const C = () => (<div>Effects & Animations</div>);"#;
    let sanitized = sanitize_for_tree_sitter(input, SupportedLanguage::Tsx);
    assert!(sanitized.contains("Effects &amp; Animations"));
}

#[test]
fn sanitizer_test_sanitize_tsx_escapes_ampersand_in_jsx_inside_expression() {
    let input = r#"
export const C = () => (
  <div>
    {cond ? (<p>a & b</p>) : (<p>c && d</p>)}
  </div>
);
"#;
    let sanitized = sanitize_for_tree_sitter(input, SupportedLanguage::Tsx);
    assert!(sanitized.contains("<p>a &amp; b</p>"));
    assert!(sanitized.contains("<p>c &amp;&amp; d</p>"));
}

#[test]
fn sanitizer_test_sanitize_tsx_does_not_escape_type_intersection() {
    let input = r#"
export const X = React.forwardRef<
  React.ElementRef<typeof DialogPrimitive.Content>,
  React.ComponentPropsWithoutRef<typeof DialogPrimitive.Content> & {
    showCloseButton?: boolean;
  }
>(() => (<div>a & b</div>));
"#;
    let sanitized = sanitize_for_tree_sitter(input, SupportedLanguage::Tsx);
    assert!(sanitized.contains("ComponentPropsWithoutRef<typeof DialogPrimitive.Content> & {"));
    assert!(sanitized.contains("<div>a &amp; b</div>"));
}

#[test]
fn sanitize_leaves_other_languages_unchanged() {
    let input = "int main() { return 1 & 2; }";
    let sanitized = sanitize_for_tree_sitter(input, SupportedLanguage::C);
    assert_eq!(sanitized, input);
}

#[test]
fn sanitize_tsx_passes_well_formed_entities_through() {
    let input = "const C = () => (<p>a &amp; b &#38; c &#x26; d &lt; e</p>);";
    let sanitized = sanitize_for_tree_sitter(input, SupportedLanguage::Tsx);
    assert_eq!(sanitized, input);
}

#[test]
fn sanitize_tsx_handles_self_closing_tags() {
    let input = "const C = () => (<div><br/>a & b</div>);";
    let sanitized = sanitize_for_tree_sitter(input, SupportedLanguage::Tsx);
    assert!(sanitized.contains("<br/>a &amp; b"));
}
