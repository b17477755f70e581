//! Error and warning types for the analyzer.

use vstd::prelude::*;

verus! {

/// Error type covering every failure the analyzer reports.
#[derive(Debug)]
pub enum AnalyzerError {
    /// A file-system operation failed.
    Io(String),
    /// Parsing failed outright.
    Parse(String),
    /// A path was rejected before analysis.
    InvalidPath(String),
    /// A language name or file extension outside the supported set.
    UnsupportedLanguage(String),
    /// A configuration value was rejected.
    ConfigError(String),
    /// The underlying grammar machinery failed.
    TreeSitter(String),
    /// Serializing or deserializing a report failed.
    Json(String),
    /// The directory walk reported a failure.
    Walk(String),
    /// Progress reporting failed.
    Progress(String),
    /// A validation rule was violated.
    Validation(String),
}

pub type Result<T> = core::result::Result<T, AnalyzerError>;

/// Declares `std::io::Error` so the conversion below can take one.
#[verifier::external_type_specification]
#[verifier::external_body]
pub struct ExIoError(std::io::Error);

/// Relies on `std::io::Error`'s `Display`: the error rendered as text.
#[verifier::external_body]
fn io_error_text(e: &std::io::Error) -> String {
    format!("{e}")
}

impl From<std::io::Error> for AnalyzerError {
    /// Wraps a file-system error, keeping its rendered message.
    fn from(e: std::io::Error) -> (r: Self)
        ensures
            r is Io,
    {
        AnalyzerError::Io(io_error_text(&e))
    }
}

impl vstd::std_specs::convert::FromSpecImpl<std::io::Error> for AnalyzerError {
    open spec fn obeys_from_spec() -> bool {
        false
    }

    open spec fn from_spec(e: std::io::Error) -> AnalyzerError {
        choose|r: AnalyzerError| #[trigger] (r is Io)
    }
}

/// The user-facing message of an error, one prefix per variant.
pub open spec fn spec_error_message(e: AnalyzerError) -> Seq<char> {
    match e {
        AnalyzerError::Io(m) => "IO error: "@ + m@,
        AnalyzerError::Parse(m) => "Parse error: "@ + m@,
        AnalyzerError::InvalidPath(m) => "Invalid path: "@ + m@,
        AnalyzerError::UnsupportedLanguage(m) => "Unsupported programming language: "@ + m@,
        AnalyzerError::ConfigError(m) => "Configuration error: "@ + m@,
        AnalyzerError::TreeSitter(m) => "Tree-sitter parsing error: "@ + m@,
        AnalyzerError::Json(m) => "JSON error: "@ + m@,
        AnalyzerError::Walk(m) => "Directory traversal error: "@ + m@,
        AnalyzerError::Progress(m) => "Progress reporting error: "@ + m@,
        AnalyzerError::Validation(m) => "Validation error: "@ + m@,
    }
}

impl AnalyzerError {
    /// Renders the error as its display message.
    pub fn message(&self) -> (r: String)
        ensures
            r@ == spec_error_message(*self),
    {
        match self {
            AnalyzerError::Io(m) => "IO error: ".to_owned().concat(m.as_str()),
            AnalyzerError::Parse(m) => "Parse error: ".to_owned().concat(m.as_str()),
            AnalyzerError::InvalidPath(m) => "Invalid path: ".to_owned().concat(m.as_str()),
            AnalyzerError::UnsupportedLanguage(m) => "Unsupported programming language: "
                .to_owned()
                .concat(m.as_str()),
            AnalyzerError::ConfigError(m) => "Configuration error: ".to_owned().concat(m.as_str()),
            AnalyzerError::TreeSitter(m) => "Tree-sitter parsing error: ".to_owned().concat(
                m.as_str(),
            ),
            AnalyzerError::Json(m) => "JSON error: ".to_owned().concat(m.as_str()),
            AnalyzerError::Walk(m) => "Directory traversal error: ".to_owned().concat(m.as_str()),
            AnalyzerError::Progress(m) => "Progress reporting error: ".to_owned().concat(
                m.as_str(),
            ),
            AnalyzerError::Validation(m) => "Validation error: ".to_owned().concat(m.as_str()),
        }
    }

    /// Wraps a message as a parse error.
    pub fn parse_error(msg: &str) -> (r: Self)
        ensures
            r matches AnalyzerError::Parse(m) && m@ == msg@,
    {
        AnalyzerError::Parse(msg.to_owned())
    }

    /// Wraps a message as a grammar-machinery error.
    pub fn tree_sitter_error(msg: &str) -> (r: Self)
        ensures
            r matches AnalyzerError::TreeSitter(m) && m@ == msg@,
    {
        AnalyzerError::TreeSitter(msg.to_owned())
    }

    /// Wraps a path as an invalid-path error.
    pub fn invalid_path(path: &str) -> (r: Self)
        ensures
            r matches AnalyzerError::InvalidPath(m) && m@ == path@,
    {
        AnalyzerError::InvalidPath(path.to_owned())
    }

    /// Wraps a language name as an unsupported-language error.
    pub fn unsupported_language(lang: &str) -> (r: Self)
        ensures
            r matches AnalyzerError::UnsupportedLanguage(m) && m@ == lang@,
    {
        AnalyzerError::UnsupportedLanguage(lang.to_owned())
    }

    /// Wraps a message as a configuration error.
    pub fn config_error(msg: &str) -> (r: Self)
        ensures
            r matches AnalyzerError::ConfigError(m) && m@ == msg@,
    {
        AnalyzerError::ConfigError(msg.to_owned())
    }

    /// Wraps a message as a validation error.
    pub fn validation_error(msg: &str) -> (r: Self)
        ensures
            r matches AnalyzerError::Validation(m) && m@ == msg@,
    {
        AnalyzerError::Validation(msg.to_owned())
    }
}

/// The kind of a non-fatal parse warning.
#[derive(Debug, Clone, Copy, PartialEq, Eq, Structural)]
pub enum WarningType {
    /// The tree was produced but holds error or missing nodes.
    SyntaxError,
    /// The tree was usable but rests on partial recovery.
    PartialParse,
    /// The file's bytes were not valid text.
    EncodingError,
}

/// One place in the source where a parse problem was seen.
#[derive(Debug, Clone)]
pub struct ParseWarningLocation {
    /// 1-based line number.
    pub line: usize,
    /// 1-based column number.
    pub column: usize,
    /// The grammar's label for the offending node.
    pub kind: String,
    /// The source line, trimmed and truncated.
    pub snippet: Option<String>,
}

/// A non-fatal problem met while analyzing one file.
#[derive(Debug, Clone)]
pub struct ParseWarning {
    /// The file the warning is about.
    pub file_path: String,
    /// What kind of problem was seen.
    pub warning_type: WarningType,
    /// Human-readable description.
    pub message: String,
    /// Up to a handful of concrete places in the source.
    pub locations: Vec<ParseWarningLocation>,
}

impl ParseWarning {
    /// A syntax-error warning with no locations yet.
    pub fn syntax_error(path: &str, message: String) -> (r: Self)
        ensures
            r.file_path@ == path@,
            r.warning_type == WarningType::SyntaxError,
            r.message == message,
            r.locations@.len() == 0,
    {
        ParseWarning {
            file_path: path.to_owned(),
            warning_type: WarningType::SyntaxError,
            message,
            locations: Vec::new(),
        }
    }

    /// An encoding-error warning with no locations.
    pub fn encoding_error(path: &str, message: String) -> (r: Self)
        ensures
            r.file_path@ == path@,
            r.warning_type == WarningType::EncodingError,
            r.message == message,
            r.locations@.len() == 0,
    {
        ParseWarning {
            file_path: path.to_owned(),
            warning_type: WarningType::EncodingError,
            message,
            locations: Vec::new(),
        }
    }
}

} // verus!
