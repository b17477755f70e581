//! The run configuration: every knob a caller can set, its validation
//! rules, and the small decision helpers the output stage consults.

use vstd::prelude::*;

use crate::error::{AnalyzerError, Result};
use crate::parse::spec_mb_to_bytes;
use crate::refactor::RefactoringThresholds;

verus! {

/// When to color terminal output.
#[derive(Debug, Clone, Copy, PartialEq, Eq, Structural)]
pub enum ColorMode {
    /// Follow whether standard output is a terminal.
    Auto,
    /// Always use colors.
    Always,
    /// Never use colors, for piping.
    Never,
}

impl Default for ColorMode {
    fn default() -> (r: Self)
        ensures
            r == ColorMode::Auto,
    {
        ColorMode::Auto
    }
}

/// What to order results by.
#[derive(Debug, Clone, Copy, PartialEq, Eq, Structural)]
pub enum SortBy {
    /// Lines of code, descending.
    Lines,
    /// Function count, descending.
    Functions,
    /// Class count, descending.
    Classes,
    /// File name, ascending.
    Name,
    /// Full path, ascending.
    Path,
    /// Complexity score, descending.
    Complexity,
}

/// The display name of a sort criterion.
pub open spec fn spec_sort_by_name(s: SortBy) -> Seq<char> {
    match s {
        SortBy::Lines => "lines"@,
        SortBy::Functions => "functions"@,
        SortBy::Classes => "classes"@,
        SortBy::Name => "name"@,
        SortBy::Path => "path"@,
        SortBy::Complexity => "complexity"@,
    }
}

impl SortBy {
    /// The criterion's display name.
    pub fn name(&self) -> (r: &'static str)
        ensures
            r@ == spec_sort_by_name(*self),
    {
        match self {
            SortBy::Lines => "lines",
            SortBy::Functions => "functions",
            SortBy::Classes => "classes",
            SortBy::Name => "name",
            SortBy::Path => "path",
            SortBy::Complexity => "complexity",
        }
    }
}

/// Which outputs to produce.
#[derive(Debug, Clone, Copy, PartialEq, Eq, Structural)]
pub enum OutputFormat {
    /// Terminal table only.
    Table,
    /// JSON file only.
    Json,
    /// Both terminal table and JSON file.
    Both,
    /// JSON holding only the per-file records.
    JsonFilesOnly,
    /// JSON holding only the project summary.
    JsonSummaryOnly,
}

/// The display name of an output format.
pub open spec fn spec_output_format_name(s: OutputFormat) -> Seq<char> {
    match s {
        OutputFormat::Table => "table"@,
        OutputFormat::Json => "json"@,
        OutputFormat::Both => "both"@,
        OutputFormat::JsonFilesOnly => "json-files-only"@,
        OutputFormat::JsonSummaryOnly => "json-summary-only"@,
    }
}

impl OutputFormat {
    /// The format's display name.
    pub fn name(&self) -> (r: &'static str)
        ensures
            r@ == spec_output_format_name(*self),
    {
        match self {
            OutputFormat::Table => "table",
            OutputFormat::Json => "json",
            OutputFormat::Both => "both",
            OutputFormat::JsonFilesOnly => "json-files-only",
            OutputFormat::JsonSummaryOnly => "json-summary-only",
        }
    }
}

/// Every knob of one analysis run.
#[derive(Debug, Clone)]
pub struct CliArgs {
    /// Directory to analyze; the current directory when absent.
    pub path: Option<String>,
    /// Drop files with fewer lines of code than this from the report.
    pub min_lines: usize,
    /// Drop files with more lines of code than this, when set.
    pub max_lines: Option<usize>,
    /// Drop files with fewer functions than this, when set.
    pub min_functions: Option<usize>,
    /// Drop files with fewer classes than this, when set.
    pub min_classes: Option<usize>,
    /// How to order the output.
    pub sort: SortBy,
    /// Which outputs to produce.
    pub output: OutputFormat,
    /// Produce only the JSON file, with no terminal display.
    pub json_only: bool,
    /// Report progress and details while running.
    pub verbose: bool,
    /// Language allow-list; empty means every supported language.
    pub languages: Vec<String>,
    /// Extra exclusion patterns beyond the ignore files.
    pub exclude: Vec<String>,
    /// Consider hidden files and directories.
    pub include_hidden: bool,
    /// Skip files larger than this many megabytes.
    pub max_file_size_mb: usize,
    /// Minimal output for automation.
    pub compact: bool,
    /// Where to write the JSON report, when set.
    pub output_file: Option<String>,
    /// Show only this many rows in terminal output.
    pub limit: usize,
    /// When to color terminal output.
    pub color: ColorMode,
    /// Candidate threshold on the complexity score, in thousandths.
    pub max_complexity_score_milli: Option<u64>,
    /// Candidate threshold on cyclomatic complexity.
    pub max_cc: Option<usize>,
    /// Candidate threshold on lines of code.
    pub max_loc: Option<usize>,
    /// Candidate threshold on functions per file.
    pub max_functions_per_file: Option<usize>,
    /// Analyze only files changed since this commit reference, when set.
    pub only_changed_since: Option<String>,
    /// Automation mode: fail the run when candidates exceed the allowance.
    pub ci: bool,
    /// How many candidates the automation mode allows.
    pub ci_max_candidates: usize,
}

impl Default for CliArgs {
    fn default() -> (r: Self)
        ensures
            r.path is None,
            r.min_lines == 1,
            r.max_lines is None,
            r.min_functions is None,
            r.min_classes is None,
            r.sort == SortBy::Complexity,
            r.output == OutputFormat::Table,
            !r.json_only,
            !r.verbose,
            r.languages@.len() == 0,
            r.exclude@.len() == 0,
            !r.include_hidden,
            r.max_file_size_mb == 10,
            !r.compact,
            r.output_file is None,
            r.limit == 10,
            r.color == ColorMode::Auto,
            r.max_complexity_score_milli is None,
            r.max_cc is None,
            r.max_loc is None,
            r.max_functions_per_file is None,
            r.only_changed_since is None,
            !r.ci,
            r.ci_max_candidates == 0,
    {
        CliArgs {
            path: None,
            min_lines: 1,
            max_lines: None,
            min_functions: None,
            min_classes: None,
            sort: SortBy::Complexity,
            output: OutputFormat::Table,
            json_only: false,
            verbose: false,
            languages: Vec::new(),
            exclude: Vec::new(),
            include_hidden: false,
            max_file_size_mb: 10,
            compact: false,
            output_file: None,
            limit: 10,
            color: ColorMode::Auto,
            max_complexity_score_milli: None,
            max_cc: None,
            max_loc: None,
            max_functions_per_file: None,
            only_changed_since: None,
            ci: false,
            ci_max_candidates: 0,
        }
    }
}

/// The first value-validation failure of a configuration, if any.  Checks
/// on the file system, such as whether the path exists, are the caller's.
pub open spec fn spec_validate_error(args: CliArgs) -> Option<Seq<char>> {
    if args.max_lines matches Some(mx) && args.min_lines >= mx {
        Some("min-lines must be less than max-lines"@)
    } else if args.max_file_size_mb == 0 {
        Some("max-file-size-mb must be greater than 0"@)
    } else if args.limit == 0 {
        Some("limit must be greater than 0"@)
    } else {
        None
    }
}

impl CliArgs {
    /// Validates the configuration's values: the line-count bounds must be
    /// ordered and the size and row limits positive.
    pub fn validate(&self) -> (r: Result<()>)
        ensures
            match spec_validate_error(*self) {
                Some(m) => r matches Err(e) && e matches AnalyzerError::Validation(msg)
                    && msg@ == m,
                None => r is Ok,
            },
    {
        if let Some(mx) = self.max_lines {
            if self.min_lines >= mx {
                return Err(AnalyzerError::validation_error(
                    "min-lines must be less than max-lines",
                ));
            }
        }
        if self.max_file_size_mb == 0 {
            return Err(AnalyzerError::validation_error(
                "max-file-size-mb must be greater than 0",
            ));
        }
        if self.limit == 0 {
            return Err(AnalyzerError::validation_error("limit must be greater than 0"));
        }
        Ok(())
    }

    /// The directory to analyze: the configured path, or the current
    /// directory written as `.`.
    pub fn target_path(&self) -> (r: String)
        ensures
            match self.path {
                Some(p) => r@ == p@,
                None => r@ == "."@,
            },
    {
        match &self.path {
            Some(p) => p.clone(),
            None => ".".to_owned(),
        }
    }

    /// Where the JSON report goes: the configured file, or the default
    /// `refactor-candidates.json`.
    pub fn json_output_path(&self) -> (r: String)
        ensures
            match self.output_file {
                Some(p) => r@ == p@,
                None => r@ == "refactor-candidates.json"@,
            },
    {
        match &self.output_file {
            Some(p) => p.clone(),
            None => "refactor-candidates.json".to_owned(),
        }
    }

    /// Whether a JSON report should be written.
    pub fn should_output_json(&self) -> (r: bool)
        ensures
            r == (self.output == OutputFormat::Json || self.output == OutputFormat::Both
                || self.output == OutputFormat::JsonFilesOnly || self.output
                == OutputFormat::JsonSummaryOnly || self.json_only),
    {
        match self.output {
            OutputFormat::Json | OutputFormat::Both | OutputFormat::JsonFilesOnly
                | OutputFormat::JsonSummaryOnly => true,
            OutputFormat::Table => self.json_only,
        }
    }

    /// Whether a terminal table should be displayed.
    pub fn should_output_terminal(&self) -> (r: bool)
        ensures
            r == (!self.json_only && (self.output == OutputFormat::Table || self.output
                == OutputFormat::Both)),
    {
        !self.json_only && match self.output {
            OutputFormat::Table | OutputFormat::Both => true,
            _ => false,
        }
    }

    /// The file-size limit in bytes.
    pub fn max_file_size_bytes(&self) -> (r: u64)
        ensures
            r == spec_mb_to_bytes(self.max_file_size_mb as nat),
    {
        let mb = self.max_file_size_mb as u64;
        let bytes: u64 = if mb > 0xFFFF_FFFF_FFFF_FFFF / 1048576 {
            0xFFFF_FFFF_FFFF_FFFF
        } else {
            mb * 1048576
        };
        bytes
    }

    /// Whether colored output should be used, given whether standard output
    /// is a terminal.
    pub fn should_use_colors(&self, stdout_is_tty: bool) -> (r: bool)
        ensures
            r == spec_should_use_colors(*self, stdout_is_tty),
    {
        match self.color {
            ColorMode::Always => true,
            ColorMode::Never => false,
            ColorMode::Auto => stdout_is_tty,
        }
    }
}

/// The color decision: always, never, or follow the terminal.
pub open spec fn spec_should_use_colors(args: CliArgs, stdout_is_tty: bool) -> bool {
    match args.color {
        ColorMode::Always => true,
        ColorMode::Never => false,
        ColorMode::Auto => stdout_is_tty,
    }
}

impl RefactoringThresholds {
    /// Thresholds from a run configuration, defaults for whatever it leaves
    /// unset.
    pub fn from_cli(args: &CliArgs) -> (r: Self)
        ensures
            r.max_complexity_score_milli == match args.max_complexity_score_milli {
                Some(v) => v,
                None => 10_000u64,
            },
            r.max_cyclomatic_complexity == match args.max_cc {
                Some(v) => v,
                None => 15usize,
            },
            r.max_lines_of_code == match args.max_loc {
                Some(v) => v,
                None => 500usize,
            },
            r.max_functions == match args.max_functions_per_file {
                Some(v) => v,
                None => 25usize,
            },
    {
        RefactoringThresholds {
            max_complexity_score_milli: match args.max_complexity_score_milli {
                Some(v) => v,
                None => 10_000,
            },
            max_cyclomatic_complexity: match args.max_cc {
                Some(v) => v,
                None => 15,
            },
            max_lines_of_code: match args.max_loc {
                Some(v) => v,
                None => 500,
            },
            max_functions: match args.max_functions_per_file {
                Some(v) => v,
                None => 25,
            },
        }
    }
}

} // verus!
