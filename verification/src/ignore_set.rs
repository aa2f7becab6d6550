//! The ignore rules of a session: where they come from.
//!
//! The rules are read from a default ignore file that is made once per
//! machine, from a file of a reserved name in any listed directory, and from
//! a file that the environment may name. Later sources add rules to the
//! earlier ones. The rules are applied where a root is listed, whether or
//! not the root lies in a repository.

use vstd::prelude::*;
use crate::paths::{join_path, joined_path};
use crate::text::Texts;

verus! {

/// The environment variable that names one more ignore file.
pub open spec fn ignore_file_variable() -> Seq<char> {
    "TAURI_DEV_WATCHER_IGNORE_FILE"@
}

/// The directory, under the machine's temporary directory, that holds the
/// default ignore file.
pub open spec fn default_ignore_dir_name() -> Seq<char> {
    ".tauri-dev"@
}

/// The file name of the default ignore file.
pub open spec fn default_ignore_file_name() -> Seq<char> {
    ".gitignore"@
}

/// The file name under which any watched directory may hold ignore rules of
/// its own.
pub open spec fn custom_ignore_file_name() -> Seq<char> {
    ".taurignore"@
}

/// The sources of ignore rules, in the order in which they are added. A
/// later source adds rules; it never takes one away.
#[derive(Debug, Clone, PartialEq, Eq)]
pub struct IgnoreSet {
    /// The directory of the default ignore file.
    pub default_dir: String,
    /// The default ignore file, made once per machine.
    pub default_file: String,
    /// The file name looked for in every listed directory.
    pub custom_filename: String,
    /// The ignore file that the environment names, if it names one.
    pub override_file: Option<String>,
    /// How deep a root is listed: its immediate children only.
    pub max_depth: usize,
    /// Whether the rules apply only inside a repository.
    pub require_git: bool,
}

/// The model of an `IgnoreSet`.
pub struct IgnoreSetView {
    pub default_dir: Seq<char>,
    pub default_file: Seq<char>,
    pub custom_filename: Seq<char>,
    pub override_file: Option<Seq<char>>,
    pub max_depth: nat,
    pub require_git: bool,
}

impl View for IgnoreSet {
    type V = IgnoreSetView;

    open spec fn view(&self) -> IgnoreSetView {
        IgnoreSetView {
            default_dir: self.default_dir@,
            default_file: self.default_file@,
            custom_filename: self.custom_filename@,
            override_file: self.override_file.deep_view(),
            max_depth: self.max_depth as nat,
            require_git: self.require_git,
        }
    }
}

/// The ignore sources for a machine's temporary directory and what the
/// environment names.
pub open spec fn ignore_set_of(temp_dir: Seq<char>, override_file: Option<Seq<char>>) -> IgnoreSetView {
    IgnoreSetView {
        default_dir: joined_path(temp_dir, default_ignore_dir_name()),
        default_file: joined_path(
            joined_path(temp_dir, default_ignore_dir_name()),
            default_ignore_file_name(),
        ),
        custom_filename: custom_ignore_file_name(),
        override_file,
        max_depth: 1,
        require_git: false,
    }
}

/// The explicit ignore files of a set, in the order in which they are
/// added: the default file, then the one that the environment names.
pub open spec fn ignore_files_of(set: IgnoreSetView) -> Texts {
    match set.override_file {
        Some(file) => seq![set.default_file, file],
        None => seq![set.default_file],
    }
}

impl IgnoreSet {
    /// The ignore sources of a session. `temp_dir` is the machine's
    /// temporary directory, `override_file` the value of the environment
    /// variable that names one more ignore file.
    pub fn new(temp_dir: &str, override_file: Option<String>) -> (set: IgnoreSet)
        ensures
            set@ == ignore_set_of(temp_dir@, override_file.deep_view()),
    {
        let default_dir = join_path(temp_dir, ".tauri-dev");
        let default_file = join_path(default_dir.as_str(), ".gitignore");
        IgnoreSet {
            default_dir,
            default_file,
            custom_filename: ".taurignore".to_owned(),
            override_file,
            max_depth: 1,
            require_git: false,
        }
    }

    /// Whether the default ignore file has to be written: only where it
    /// does not exist yet, so that doing it again changes nothing.
    pub fn must_seed_default(default_file_exists: bool) -> (seed: bool)
        ensures
            seed == !default_file_exists,
    {
        !default_file_exists
    }

    /// The explicit ignore files, in the order in which they are added.
    pub fn files(&self) -> (files: Vec<String>)
        ensures
            files.deep_view() == ignore_files_of(self@),
    {
        let mut files: Vec<String> = Vec::new();
        files.push(self.default_file.clone());
        match &self.override_file {
            Some(file) => {
                files.push(file.clone());
                assert(files.deep_view() =~= ignore_files_of(self@));
            },
            None => {
                assert(files.deep_view() =~= ignore_files_of(self@));
            },
        }
        files
    }
}

} // verus!
