//! The discovery filtering policy: which of the walked paths are taken into
//! analysis, and the statistics kept about a walk.  The on-disk traversal
//! itself is a collaborator outside this crate.

use vstd::prelude::*;

use crate::cli::CliArgs;
use crate::language::{spec_language_name, LanguageManager};
use crate::parse::spec_mb_to_bytes;
use crate::text::{str_eq, u64_to_string, spec_decimal};

verus! {

/// Filtering knobs for the directory walk.
#[derive(Debug, Clone)]
pub struct FilterConfig {
    /// Files larger than this many bytes are skipped.
    pub max_file_size_bytes: u64,
    /// Whether hidden files and directories are considered.
    pub include_hidden: bool,
    /// Extra exclusion patterns beyond the ignore files.
    pub exclude_patterns: Vec<String>,
    /// Language names to include; empty means every supported language.
    pub target_languages: Vec<String>,
    /// Whether symbolic links are followed.
    pub follow_symlinks: bool,
    /// The traversal depth bound, when set.
    pub max_depth: Option<usize>,
}

impl Default for FilterConfig {
    fn default() -> (r: Self)
        ensures
            r.max_file_size_bytes == 10485760,
            !r.include_hidden,
            r.exclude_patterns@.len() == 0,
            r.target_languages@.len() == 0,
            !r.follow_symlinks,
            r.max_depth is None,
    {
        FilterConfig {
            max_file_size_bytes: 10485760,
            include_hidden: false,
            exclude_patterns: Vec::new(),
            target_languages: Vec::new(),
            follow_symlinks: false,
            max_depth: None,
        }
    }
}

/// The filter settings a run's configuration asks for.
pub fn filter_config_from_cli(args: &CliArgs) -> (r: FilterConfig)
    ensures
        r.max_file_size_bytes == spec_mb_to_bytes(args.max_file_size_mb as nat),
        r.include_hidden == args.include_hidden,
        r.exclude_patterns@ == args.exclude@,
        r.target_languages@ == args.languages@,
        !r.follow_symlinks,
        r.max_depth is None,
{
    FilterConfig {
        max_file_size_bytes: args.max_file_size_bytes(),
        include_hidden: args.include_hidden,
        exclude_patterns: clone_string_list(&args.exclude),
        target_languages: clone_string_list(&args.languages),
        follow_symlinks: false,
        max_depth: None,
    }
}

/// Copies a list of strings element by element.
fn clone_string_list(v: &Vec<String>) -> (r: Vec<String>)
    ensures
        r@ == v@,
{
    let n = v.len();
    let mut out: Vec<String> = Vec::new();
    let mut i: usize = 0;
    while i < n
        invariant
            n == v@.len(),
            i <= n,
            out@ =~= v@.take(i as int),
        decreases n - i,
    {
        out.push(v[i].clone());
        i += 1;
    }
    proof {
        assert(v@.take(n as int) =~= v@);
    }
    out
}

/// Statistics about one discovery pass.
#[derive(Debug, Clone, Copy, PartialEq, Eq, Structural)]
pub struct WalkStats {
    /// Every directory entry looked at.
    pub total_entries_scanned: usize,
    /// Files taken into analysis.
    pub files_found: usize,
    /// Directories passed through.
    pub directories_scanned: usize,
    /// Files skipped for exceeding the size limit.
    pub files_skipped_size: usize,
    /// Files skipped for an unsupported or excluded language.
    pub files_skipped_language: usize,
    /// Hidden files skipped.
    pub files_skipped_hidden: usize,
    /// Traversal errors met.
    pub errors_encountered: usize,
}

impl Default for WalkStats {
    fn default() -> (r: Self)
        ensures
            r == (WalkStats {
                total_entries_scanned: 0,
                files_found: 0,
                directories_scanned: 0,
                files_skipped_size: 0,
                files_skipped_language: 0,
                files_skipped_hidden: 0,
                errors_encountered: 0,
            }),
    {
        WalkStats {
            total_entries_scanned: 0,
            files_found: 0,
            directories_scanned: 0,
            files_skipped_size: 0,
            files_skipped_language: 0,
            files_skipped_hidden: 0,
            errors_encountered: 0,
        }
    }
}

impl WalkStats {
    /// A one-line description of the walk.
    pub fn summary(&self) -> (r: String)
        ensures
            r@ == "Scanned "@ + spec_decimal(self.total_entries_scanned as nat) + " entries, found "@
                + spec_decimal(self.files_found as nat) + " files, "@ + spec_decimal(
                self.errors_encountered as nat,
            ) + " errors"@,
    {
        "Scanned ".to_owned().concat(u64_to_string(self.total_entries_scanned as u64).as_str())
            .concat(" entries, found ").concat(
            u64_to_string(self.files_found as u64).as_str(),
        ).concat(" files, ").concat(u64_to_string(self.errors_encountered as u64).as_str())
            .concat(" errors")
    }
}

/// Why a walked file was taken or skipped.
#[derive(Debug, Clone, Copy, PartialEq, Eq, Structural)]
pub enum IncludeResult {
    /// The file goes into analysis.
    Include,
    /// Skipped: larger than the size limit, or its size unreadable.
    SkipSize,
    /// Skipped: unsupported or excluded language.
    SkipLanguage,
    /// Skipped: hidden while hidden files are off.
    SkipHidden,
}

/// Whether the path's final component starts with a dot.
pub open spec fn spec_is_hidden_name(p: Seq<char>) -> bool {
    let name = crate::language::spec_file_name(p);
    name.len() > 0 && name[0] == '.'
}

/// The inclusion decision for one walked file: the hidden gate first, then
/// language support, then the explicit language allow-list, then the size
/// limit.  The size limit is checked last, and files over it are silently
/// skipped, never read or reported as failures.
pub open spec fn spec_should_include(
    p: Seq<char>,
    size: Option<u64>,
    config: FilterConfig,
    manager: LanguageManager,
) -> IncludeResult {
    if !config.include_hidden && spec_is_hidden_name(p) {
        IncludeResult::SkipHidden
    } else if manager.detect_spec(p) is None {
        IncludeResult::SkipLanguage
    } else if config.target_languages@.len() > 0 && !config.target_languages@.map_values(
        |s: String| s@,
    ).contains(spec_language_name(manager.detect_spec(p)->Some_0)) {
        IncludeResult::SkipLanguage
    } else {
        match size {
            Some(sz) => if sz > config.max_file_size_bytes {
                IncludeResult::SkipSize
            } else {
                IncludeResult::Include
            },
            None => IncludeResult::SkipSize,
        }
    }
}

/// Decides whether a walked file is analyzed.  `size` carries the file's
/// size in bytes, or `None` when it could not be read.
pub fn should_include_file(
    path: &str,
    size: Option<u64>,
    config: &FilterConfig,
    manager: &LanguageManager,
) -> (r: IncludeResult)
    ensures
        r == spec_should_include(path@, size, *config, *manager),
{
    if !config.include_hidden {
        let name = crate::language::file_name_of(path);
        let cs = crate::text::str_chars_vec(name.as_str());
        if cs.len() > 0 && cs[0] == '.' {
            return IncludeResult::SkipHidden;
        }
    }
    let detected = manager.detect_language(path);
    let lang = match detected {
        Some(l) => l,
        None => {
            return IncludeResult::SkipLanguage;
        },
    };
    if config.target_languages.len() > 0 {
        let lang_name = lang.name();
        let m = config.target_languages.len();
        let mut found = false;
        let mut k: usize = 0;
        while k < m
            invariant
                m == config.target_languages@.len(),
                k <= m,
                found ==> config.target_languages@.map_values(|s: String| s@).contains(
                    spec_language_name(lang),
                ),
                !found ==> forall|j: int|
                    0 <= j < k ==> (#[trigger] config.target_languages@[j])@
                        != spec_language_name(lang),
                lang_name@ == spec_language_name(lang),
            ensures
                found ==> config.target_languages@.map_values(|s: String| s@).contains(
                    spec_language_name(lang),
                ),
                !found ==> forall|j: int|
                    0 <= j < m ==> (#[trigger] config.target_languages@[j])@
                        != spec_language_name(lang),
            decreases m - k,
        {
            if str_eq(config.target_languages[k].as_str(), lang_name) {
                proof {
                    assert(config.target_languages@.map_values(|s: String| s@)[k as int]
                        == spec_language_name(lang));
                }
                found = true;
                break;
            }
            k += 1;
        }
        if !found {
            proof {
                let views = config.target_languages@.map_values(|s: String| s@);
                assert forall|j: int| 0 <= j < views.len() implies #[trigger] views[j]
                    != spec_language_name(lang) by {
                    assert(views[j] == config.target_languages@[j]@);
                }
                assert(!views.contains(spec_language_name(lang)));
            }
            return IncludeResult::SkipLanguage;
        }
    }
    match size {
        Some(sz) => {
            if sz > config.max_file_size_bytes {
                IncludeResult::SkipSize
            } else {
                IncludeResult::Include
            }
        },
        None => IncludeResult::SkipSize,
    }
}

} // verus!
