//! What the supervisor reads of a `Cargo.toml`: the package description,
//! the workspace's member list and the binary targets.

use vstd::prelude::*;
use crate::paths::{join_path, joined_path};
use crate::text::{copy_optional_text, copy_optional_texts, Texts};

verus! {

/// The `[workspace]` table.
#[derive(Debug, Clone, PartialEq, Eq)]
pub struct WorkspaceSettings {
    /// The member directories, relative to the workspace root, where the
    /// table declares them.
    pub members: Option<Vec<String>>,
}

/// The model of a `WorkspaceSettings`.
pub struct WorkspaceSettingsView {
    pub members: Option<Texts>,
}

impl View for WorkspaceSettings {
    type V = WorkspaceSettingsView;

    open spec fn view(&self) -> WorkspaceSettingsView {
        WorkspaceSettingsView { members: self.members.deep_view() }
    }
}

impl DeepView for WorkspaceSettings {
    type V = WorkspaceSettingsView;

    open spec fn deep_view(&self) -> WorkspaceSettingsView {
        self@
    }
}

/// One `[[bin]]` table.
#[derive(Debug, Clone, PartialEq, Eq)]
pub struct BinarySettings {
    pub name: String,
    /// The path of the binary's source file, where the table gives one.
    pub path: Option<String>,
}

/// The model of a `BinarySettings`.
pub struct BinarySettingsView {
    pub name: Seq<char>,
    pub path: Option<Seq<char>>,
}

impl View for BinarySettings {
    type V = BinarySettingsView;

    open spec fn view(&self) -> BinarySettingsView {
        BinarySettingsView { name: self.name@, path: self.path.deep_view() }
    }
}

impl DeepView for BinarySettings {
    type V = BinarySettingsView;

    open spec fn deep_view(&self) -> BinarySettingsView {
        self@
    }
}

/// The `[package]` table.
#[derive(Debug, Clone, PartialEq, Eq)]
pub struct CargoPackageSettings {
    /// The package's name.
    pub name: Option<String>,
    /// The package's version.
    pub version: Option<String>,
    /// The package's description.
    pub description: Option<String>,
    /// The package's homepage.
    pub homepage: Option<String>,
    /// The package's authors.
    pub authors: Option<Vec<String>>,
    /// The binary that runs by default.
    pub default_run: Option<String>,
}

/// The model of a `CargoPackageSettings`.
pub struct CargoPackageSettingsView {
    pub name: Option<Seq<char>>,
    pub version: Option<Seq<char>>,
    pub description: Option<Seq<char>>,
    pub homepage: Option<Seq<char>>,
    pub authors: Option<Texts>,
    pub default_run: Option<Seq<char>>,
}

impl View for CargoPackageSettings {
    type V = CargoPackageSettingsView;

    open spec fn view(&self) -> CargoPackageSettingsView {
        CargoPackageSettingsView {
            name: self.name.deep_view(),
            version: self.version.deep_view(),
            description: self.description.deep_view(),
            homepage: self.homepage.deep_view(),
            authors: self.authors.deep_view(),
            default_run: self.default_run.deep_view(),
        }
    }
}

impl DeepView for CargoPackageSettings {
    type V = CargoPackageSettingsView;

    open spec fn deep_view(&self) -> CargoPackageSettingsView {
        self@
    }
}

/// The root of a `Cargo.toml`.
#[derive(Debug, Clone, PartialEq, Eq)]
pub struct CargoSettings {
    /// The package description. The manifest of a workspace root may have
    /// none.
    pub package: Option<CargoPackageSettings>,
    /// The workspace table, present where the manifest is a workspace root.
    pub workspace: Option<WorkspaceSettings>,
    /// The binary targets.
    pub bin: Option<Vec<BinarySettings>>,
}

/// The model of a `CargoSettings`.
pub struct CargoSettingsView {
    pub package: Option<CargoPackageSettingsView>,
    pub workspace: Option<WorkspaceSettingsView>,
    pub bin: Option<Seq<BinarySettingsView>>,
}

impl View for CargoSettings {
    type V = CargoSettingsView;

    open spec fn view(&self) -> CargoSettingsView {
        CargoSettingsView {
            package: self.package.deep_view(),
            workspace: self.workspace.deep_view(),
            bin: self.bin.deep_view(),
        }
    }
}

impl DeepView for CargoSettings {
    type V = CargoSettingsView;

    open spec fn deep_view(&self) -> CargoSettingsView {
        self@
    }
}

/// What reading the `Cargo.toml` of a directory gave.
#[derive(Debug, Clone, PartialEq, Eq)]
pub enum ManifestRead {
    /// The file could not be opened.
    Unopened,
    /// The file could not be read to its end as text.
    Unreadable,
    /// The text is not a manifest.
    Unparsed,
    Parsed(CargoSettings),
}

/// Why no settings could be loaded. Each is fatal.
#[derive(Clone, Copy, Debug, PartialEq, Eq, Structural)]
pub enum LoadError {
    Open,
    Read,
    Parse,
}

/// The file name of a manifest.
pub open spec fn manifest_file_name() -> Seq<char> {
    "Cargo.toml"@
}

/// The settings, or the error, that reading a manifest amounts to.
pub open spec fn loaded(read: ManifestRead) -> Result<CargoSettingsView, LoadError> {
    match read {
        ManifestRead::Unopened => Err(LoadError::Open),
        ManifestRead::Unreadable => Err(LoadError::Read),
        ManifestRead::Unparsed => Err(LoadError::Parse),
        ManifestRead::Parsed(settings) => Ok(settings@),
    }
}

impl LoadError {
    /// The error in words.
    pub open spec fn text(self) -> Seq<char> {
        match self {
            LoadError::Open => "failed to open Cargo.toml"@,
            LoadError::Read => "failed to read Cargo.toml"@,
            LoadError::Parse => "failed to parse Cargo.toml"@,
        }
    }

    /// The error in words.
    pub fn message(&self) -> (message: String)
        ensures
            message@ == self.text(),
    {
        match self {
            LoadError::Open => "failed to open Cargo.toml".to_owned(),
            LoadError::Read => "failed to read Cargo.toml".to_owned(),
            LoadError::Parse => "failed to parse Cargo.toml".to_owned(),
        }
    }
}

impl CargoPackageSettings {
    /// A copy of the package description.
    pub fn copy(&self) -> (copy: CargoPackageSettings)
        ensures
            copy@ == self@,
    {
        CargoPackageSettings {
            name: copy_optional_text(&self.name),
            version: copy_optional_text(&self.version),
            description: copy_optional_text(&self.description),
            homepage: copy_optional_text(&self.homepage),
            authors: copy_optional_texts(&self.authors),
            default_run: copy_optional_text(&self.default_run),
        }
    }
}

impl CargoSettings {
    /// The path of the manifest of the directory `dir`.
    pub fn manifest_path(dir: &str) -> (path: String)
        ensures
            path@ == joined_path(dir@, manifest_file_name()),
    {
        join_path(dir, "Cargo.toml")
    }

    /// The settings that were read, or why there are none.
    pub fn load(read: ManifestRead) -> (settings: Result<CargoSettings, LoadError>)
        ensures
            match settings {
                Ok(found) => loaded(read) == Ok::<CargoSettingsView, LoadError>(found@),
                Err(error) => loaded(read) == Err::<CargoSettingsView, LoadError>(error),
            },
    {
        match read {
            ManifestRead::Unopened => Err(LoadError::Open),
            ManifestRead::Unreadable => Err(LoadError::Read),
            ManifestRead::Unparsed => Err(LoadError::Parse),
            ManifestRead::Parsed(settings) => Ok(settings),
        }
    }
}

} // verus!
