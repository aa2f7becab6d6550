//! The settings of the application: what its manifests say about the
//! package, and where its binary is built.

use vstd::prelude::*;
use crate::cargo_settings::{
    loaded,
    CargoPackageSettings,
    CargoPackageSettingsView,
    CargoSettings,
    CargoSettingsView,
    LoadError,
    ManifestRead,
};
use crate::manifest::{FeatureMap, FeatureTable};
use crate::metadata::{
    binary_dir_of,
    get_target_dir,
    MetadataError,
    MetadataErrorView,
    MetadataReply,
    MetadataReplyView,
};
use crate::options::{Options, OptionsView};
use crate::paths::{is_extension, join_path, joined_path, path_with_extension, with_extension};
use crate::text::{copy_optional_text, copy_optional_texts, has_text, occurs_in, Texts};

verus! {

/// What the configuration says of the package.
#[derive(Debug, Clone, PartialEq, Eq)]
pub struct PackageConfig {
    /// The product's name, where the configuration gives one.
    pub product_name: Option<String>,
    /// The product's version, where the configuration gives one.
    pub version: Option<String>,
}

/// The model of a `PackageConfig`.
pub struct PackageConfigView {
    pub product_name: Option<Seq<char>>,
    pub version: Option<Seq<char>>,
}

impl View for PackageConfig {
    type V = PackageConfigView;

    open spec fn view(&self) -> PackageConfigView {
        PackageConfigView {
            product_name: self.product_name.deep_view(),
            version: self.version.deep_view(),
        }
    }
}

/// The description of the package that bundling works from.
#[derive(Debug, Clone, PartialEq, Eq)]
pub struct PackageSettings {
    pub product_name: String,
    pub version: String,
    pub description: String,
    pub homepage: Option<String>,
    pub authors: Option<Vec<String>>,
    pub default_run: Option<String>,
}

/// The model of a `PackageSettings`.
pub struct PackageSettingsView {
    pub product_name: Seq<char>,
    pub version: Seq<char>,
    pub description: Seq<char>,
    pub homepage: Option<Seq<char>>,
    pub authors: Option<Texts>,
    pub default_run: Option<Seq<char>>,
}

impl View for PackageSettings {
    type V = PackageSettingsView;

    open spec fn view(&self) -> PackageSettingsView {
        PackageSettingsView {
            product_name: self.product_name@,
            version: self.version@,
            description: self.description@,
            homepage: self.homepage.deep_view(),
            authors: self.authors.deep_view(),
            default_run: self.default_run.deep_view(),
        }
    }
}

impl PackageSettings {
    /// A copy of the description.
    pub fn copy(&self) -> (copy: PackageSettings)
        ensures
            copy@ == self@,
    {
        PackageSettings {
            product_name: self.product_name.clone(),
            version: self.version.clone(),
            description: self.description.clone(),
            homepage: copy_optional_text(&self.homepage),
            authors: copy_optional_texts(&self.authors),
            default_run: copy_optional_text(&self.default_run),
        }
    }
}

/// What reading the build tool's own configuration gave.
#[derive(Debug, Clone, PartialEq, Eq)]
pub enum CargoConfigRead {
    /// It could not be read; the cause, in words.
    Unreadable(String),
    /// It was read; the build target that it sets, if it sets one.
    Read(Option<String>),
}

/// The model of a `CargoConfigRead`.
pub enum CargoConfigReadView {
    Unreadable(Seq<char>),
    Read(Option<Seq<char>>),
}

impl View for CargoConfigRead {
    type V = CargoConfigReadView;

    open spec fn view(&self) -> CargoConfigReadView {
        match self {
            CargoConfigRead::Unreadable(cause) => CargoConfigReadView::Unreadable(cause@),
            CargoConfigRead::Read(target) => CargoConfigReadView::Read(target.deep_view()),
        }
    }
}

/// Why there are no settings. Each is fatal.
#[derive(Debug, Clone, PartialEq, Eq)]
pub enum SettingsError {
    /// The manifest could not be loaded.
    Load(LoadError),
    /// The manifest describes no package.
    NoPackageInfo,
    /// The build tool's configuration could not be read; the cause, in
    /// words.
    CargoConfig(String),
}

/// The model of a `SettingsError`.
pub enum SettingsErrorView {
    Load(LoadError),
    NoPackageInfo,
    CargoConfig(Seq<char>),
}

impl View for SettingsError {
    type V = SettingsErrorView;

    open spec fn view(&self) -> SettingsErrorView {
        match self {
            SettingsError::Load(error) => SettingsErrorView::Load(*error),
            SettingsError::NoPackageInfo => SettingsErrorView::NoPackageInfo,
            SettingsError::CargoConfig(cause) => SettingsErrorView::CargoConfig(cause@),
        }
    }
}

impl SettingsErrorView {
    /// The error in words.
    pub open spec fn text(self) -> Seq<char> {
        match self {
            SettingsErrorView::Load(error) => "failed to load cargo settings: "@ + error.text(),
            SettingsErrorView::NoPackageInfo => "No package info in the config file"@,
            SettingsErrorView::CargoConfig(cause) => cause,
        }
    }
}

impl SettingsError {
    /// The error in words.
    pub fn message(&self) -> (message: String)
        ensures
            message@ == self@.text(),
    {
        match self {
            SettingsError::Load(error) => {
                let head = "failed to load cargo settings: ".to_owned();
                let cause = error.message();
                head.concat(cause.as_str())
            },
            SettingsError::NoPackageInfo => "No package info in the config file".to_owned(),
            SettingsError::CargoConfig(cause) => cause.clone(),
        }
    }
}

/// Whether the configuration and the manifest's package table give,
/// between them, the product a name and a version.
pub open spec fn names_product(config: PackageConfigView, package: CargoPackageSettingsView) -> bool {
    &&& config.product_name is Some || package.name is Some
    &&& config.version is Some || package.version is Some
}

/// Whether the product has a name and a version wherever the manifest was
/// loaded and describes a package. A manifest that could not be loaded, and
/// one without a package table, ask for nothing.
pub open spec fn is_named_by(config: PackageConfigView, read: ManifestRead) -> bool {
    match loaded(read) {
        Ok(cargo_settings) => match cargo_settings.package {
            Some(package) => names_product(config, package),
            None => true,
        },
        Err(_) => true,
    }
}

/// The description of the package: name and version as the configuration
/// gives them, else as the manifest does; the rest from the manifest.
pub open spec fn package_settings_of(
    config: PackageConfigView,
    package: CargoPackageSettingsView,
) -> PackageSettingsView {
    PackageSettingsView {
        product_name: match config.product_name {
            Some(name) => name,
            None => package.name->Some_0,
        },
        version: match config.version {
            Some(version) => version,
            None => package.version->Some_0,
        },
        description: match package.description {
            Some(description) => description,
            None => Seq::empty(),
        },
        homepage: package.homepage,
        authors: package.authors,
        default_run: package.default_run,
    }
}

/// The settings of the application.
pub struct RustAppSettings {
    manifest: FeatureMap,
    cargo_settings: CargoSettings,
    cargo_package_settings: CargoPackageSettings,
    package_settings: PackageSettings,
    cargo_config_target: Option<String>,
}

/// The model of a `RustAppSettings`.
pub struct RustAppSettingsView {
    /// The feature table of the build manifest.
    pub features: FeatureTable,
    pub cargo_settings: CargoSettingsView,
    pub cargo_package_settings: CargoPackageSettingsView,
    pub package_settings: PackageSettingsView,
    /// The build target that the build tool's configuration sets.
    pub cargo_config_target: Option<Seq<char>>,
}

impl View for RustAppSettings {
    type V = RustAppSettingsView;

    closed spec fn view(&self) -> RustAppSettingsView {
        RustAppSettingsView {
            features: self.manifest@,
            cargo_settings: self.cargo_settings@,
            cargo_package_settings: self.cargo_package_settings@,
            package_settings: self.package_settings@,
            cargo_config_target: self.cargo_config_target.deep_view(),
        }
    }
}

/// The settings, or the error, that the manifests amount to. The errors
/// come in the order in which the manifests are consulted.
pub open spec fn app_settings_of(
    config: PackageConfigView,
    features: FeatureTable,
    read: ManifestRead,
    cargo_config: CargoConfigReadView,
) -> Result<RustAppSettingsView, SettingsErrorView> {
    match loaded(read) {
        Err(error) => Err(SettingsErrorView::Load(error)),
        Ok(cargo_settings) => match cargo_settings.package {
            None => Err(SettingsErrorView::NoPackageInfo),
            Some(package) => match cargo_config {
                CargoConfigReadView::Unreadable(cause) => Err(SettingsErrorView::CargoConfig(cause)),
                CargoConfigReadView::Read(target) => Ok(
                    RustAppSettingsView {
                        features,
                        cargo_settings,
                        cargo_package_settings: package,
                        package_settings: package_settings_of(config, package),
                        cargo_config_target: target,
                    },
                ),
            },
        },
    }
}

/// Whether `result` is `expected`, the settings taken by their model.
pub open spec fn is_settings_result(
    result: Result<RustAppSettings, SettingsError>,
    expected: Result<RustAppSettingsView, SettingsErrorView>,
) -> bool {
    match result {
        Ok(settings) => expected == Ok::<RustAppSettingsView, SettingsErrorView>(settings@),
        Err(error) => expected == Err::<RustAppSettingsView, SettingsErrorView>(error@),
    }
}

/// The file extension of a binary built for `target`.
pub open spec fn binary_extension(target: Seq<char>) -> Seq<char> {
    if occurs_in(target, "windows"@) {
        "exe"@
    } else {
        Seq::empty()
    }
}

/// The path of the binary `name` in the directory `out_dir`, built for
/// `target`.
pub open spec fn binary_path_of(out_dir: Seq<char>, name: Seq<char>, target: Seq<char>) -> Seq<
    char,
> {
    path_with_extension(joined_path(out_dir, name), binary_extension(target))
}

/// Why the path of the binary is not known.
#[derive(Debug, Clone, PartialEq, Eq)]
pub enum BinaryPathError {
    /// The output directory is not known.
    OutDir(MetadataError),
    /// The host's target triple is not known; the cause, in words.
    Target(String),
}

/// The model of a `BinaryPathError`.
pub enum BinaryPathErrorView {
    OutDir(MetadataErrorView),
    Target(Seq<char>),
}

impl View for BinaryPathError {
    type V = BinaryPathErrorView;

    open spec fn view(&self) -> BinaryPathErrorView {
        match self {
            BinaryPathError::OutDir(error) => BinaryPathErrorView::OutDir(error@),
            BinaryPathError::Target(cause) => BinaryPathErrorView::Target(cause@),
        }
    }
}

impl BinaryPathErrorView {
    /// The error in words.
    pub open spec fn text(self) -> Seq<char> {
        match self {
            BinaryPathErrorView::OutDir(error) => "failed to get project out directory: "@
                + error.text(),
            BinaryPathErrorView::Target(cause) => cause,
        }
    }
}

impl BinaryPathError {
    /// The error in words.
    pub fn message(&self) -> (message: String)
        ensures
            message@ == self@.text(),
    {
        match self {
            BinaryPathError::OutDir(error) => {
                let head = "failed to get project out directory: ".to_owned();
                let cause = error.message();
                head.concat(cause.as_str())
            },
            BinaryPathError::Target(cause) => cause.clone(),
        }
    }
}

/// The target that a build is for: the chosen one, else the one that the
/// build tool's configuration sets.
pub open spec fn build_target(chosen: Option<Seq<char>>, configured: Option<Seq<char>>) -> Option<
    Seq<char>,
> {
    match chosen {
        Some(target) => Some(target),
        None => configured,
    }
}

/// The path of the application's binary, or the error, for a metadata reply
/// and the host's target triple.
pub open spec fn app_binary_path_of(
    settings: RustAppSettingsView,
    options: OptionsView,
    reply: MetadataReplyView,
    host_triple: Result<Seq<char>, Seq<char>>,
) -> Result<Seq<char>, BinaryPathErrorView> {
    match binary_dir_of(
        reply,
        build_target(options.target, settings.cargo_config_target),
        !options.debug,
    ) {
        Err(error) => Err(BinaryPathErrorView::OutDir(error)),
        Ok(out_dir) => {
            let name = settings.cargo_package_settings.name->Some_0;
            match options.target {
                Some(target) => Ok(binary_path_of(out_dir, name, target)),
                None => match host_triple {
                    Ok(target) => Ok(binary_path_of(out_dir, name, target)),
                    Err(cause) => Err(BinaryPathErrorView::Target(cause)),
                },
            }
        },
    }
}

/// The target triple of the host, from `tauri_utils::platform::target_triple`,
/// or in words why it is not known.
///
/// Trusted, and nothing is claimed: the answer depends on the machine that
/// the library was built for.
#[verifier::external_body]
pub(crate) fn host_target_triple() -> (triple: Result<String, String>) {
    tauri_utils::platform::target_triple().map_err(|error| error.to_string())
}

/// Whether `result` is `expected`, the path taken by its model.
pub open spec fn is_binary_path_result(
    result: Result<String, BinaryPathError>,
    expected: Result<Seq<char>, BinaryPathErrorView>,
) -> bool {
    match result {
        Ok(path) => expected == Ok::<Seq<char>, BinaryPathErrorView>(path@),
        Err(error) => expected == Err::<Seq<char>, BinaryPathErrorView>(error@),
    }
}

/// The file extension of a binary built for `target`: `exe` where the
/// target's triple names Windows, none elsewhere.
pub fn extension_for(target: &str) -> (extension: String)
    ensures
        extension@ == binary_extension(target@),
        is_extension(extension@),
{
    proof {
        lemma_binary_extension_is_extension(target@);
    }
    if has_text(target, "windows") {
        "exe".to_owned()
    } else {
        String::new()
    }
}

/// The extension of a binary holds no path separator.
pub proof fn lemma_binary_extension_is_extension(target: Seq<char>)
    ensures
        is_extension(binary_extension(target)),
{
    reveal_strlit("exe");
    let exe = "exe"@;
    assert(exe.len() == 3);
    assert(exe[0] == 'e' && exe[1] == 'x' && exe[2] == 'e');
    assert forall|i: int| 0 <= i < exe.len() implies exe[i] != '/' && exe[i] != '\\' by {}
}

impl RustAppSettings {
    /// The settings of the application. `config` is what the configuration
    /// says of the package, `manifest` the feature table of the build
    /// manifest, `read` what reading the project's `Cargo.toml` gave, and
    /// `cargo_config` what reading the build tool's configuration gave.
    ///
    /// A manifest that cannot be loaded, or that describes no package, is
    /// refused with its error. Where the manifest describes a package, the
    /// product needs a name and a version, from the configuration or from
    /// the manifest's package table.
    pub fn new(
        config: &PackageConfig,
        manifest: FeatureMap,
        read: ManifestRead,
        cargo_config: CargoConfigRead,
    ) -> (settings: Result<RustAppSettings, SettingsError>)
        requires
            is_named_by(config@, read),
        ensures
            is_settings_result(settings, app_settings_of(config@, manifest@, read, cargo_config@)),
    {
        let cargo_settings = match CargoSettings::load(read) {
            Ok(cargo_settings) => cargo_settings,
            Err(error) => {
                return Err(SettingsError::Load(error));
            },
        };
        let cargo_package_settings = match &cargo_settings.package {
            Some(package) => package.copy(),
            None => {
                return Err(SettingsError::NoPackageInfo);
            },
        };
        let package_settings = PackageSettings {
            product_name: match &config.product_name {
                Some(name) => name.clone(),
                None => match &cargo_package_settings.name {
                    Some(name) => name.clone(),
                    None => String::new(),
                },
            },
            version: match &config.version {
                Some(version) => version.clone(),
                None => match &cargo_package_settings.version {
                    Some(version) => version.clone(),
                    None => String::new(),
                },
            },
            description: match &cargo_package_settings.description {
                Some(description) => description.clone(),
                None => String::new(),
            },
            homepage: copy_optional_text(&cargo_package_settings.homepage),
            authors: copy_optional_texts(&cargo_package_settings.authors),
            default_run: copy_optional_text(&cargo_package_settings.default_run),
        };
        let cargo_config_target = match cargo_config {
            CargoConfigRead::Read(target) => target,
            CargoConfigRead::Unreadable(cause) => {
                return Err(SettingsError::CargoConfig(cause));
            },
        };
        Ok(
            RustAppSettings {
                manifest,
                cargo_settings,
                cargo_package_settings,
                package_settings,
                cargo_config_target,
            },
        )
    }

    /// The manifest's package table.
    pub fn cargo_package_settings(&self) -> (package: &CargoPackageSettings)
        ensures
            package@ == self@.cargo_package_settings,
    {
        &self.cargo_package_settings
    }

    /// The manifest.
    pub fn cargo_settings(&self) -> (settings: &CargoSettings)
        ensures
            settings@ == self@.cargo_settings,
    {
        &self.cargo_settings
    }

    /// The feature table of the build manifest.
    pub fn features(&self) -> (features: &FeatureMap)
        ensures
            features@ == self@.features,
    {
        &self.manifest
    }

    /// Replaces the feature table, after the build manifest was
    /// regenerated.
    pub fn set_features(&mut self, manifest: FeatureMap)
        ensures
            final(self)@ == (RustAppSettingsView { features: manifest@, ..old(self)@ }),
    {
        self.manifest = manifest;
    }

    /// The description of the package.
    pub fn get_package_settings(&self) -> (package: PackageSettings)
        ensures
            package@ == self@.package_settings,
    {
        self.package_settings.copy()
    }

    /// The directory in which the compiled binary lies. The build is for
    /// `target`, else for the target that the build tool's configuration
    /// sets, else for the host.
    pub fn out_dir(&self, reply: MetadataReply, target: Option<String>, debug: bool) -> (dir: Result<
        String,
        MetadataError,
    >)
        ensures
            crate::metadata::is_directory_result(
                dir,
                binary_dir_of(
                    reply@,
                    build_target(target.deep_view(), self@.cargo_config_target),
                    !debug,
                ),
            ),
    {
        match &target {
            Some(chosen) => get_target_dir(reply, Some(chosen.as_str()), !debug),
            None => match &self.cargo_config_target {
                Some(configured) => get_target_dir(reply, Some(configured.as_str()), !debug),
                None => get_target_dir(reply, None, !debug),
            },
        }
    }

    /// The path of the application's binary: in the output directory, under
    /// the package's name, with the extension of the target. `host_triple`
    /// is the target triple of the host, or why it is not known; it is
    /// looked at only where the options name no target.
    ///
    /// The manifest's package table must name the package.
    pub fn app_binary_path_for(
        &self,
        options: &Options,
        reply: MetadataReply,
        host_triple: Result<String, String>,
    ) -> (path: Result<String, BinaryPathError>)
        requires
            self@.cargo_package_settings.name is Some,
        ensures
            is_binary_path_result(
                path,
                app_binary_path_of(self@, options@, reply@, text_result(host_triple)),
            ),
    {
        let name = match &self.cargo_package_settings.name {
            Some(name) => name.clone(),
            None => String::new(),
        };
        let out_dir = match self.out_dir(reply, copy_optional_text(&options.target), options.debug) {
            Ok(dir) => dir,
            Err(error) => {
                return Err(BinaryPathError::OutDir(error));
            },
        };
        let target = match &options.target {
            Some(target) => target.clone(),
            None => match host_triple {
                Ok(target) => target,
                Err(cause) => {
                    return Err(BinaryPathError::Target(cause));
                },
            },
        };
        let extension = extension_for(target.as_str());
        let plain = join_path(out_dir.as_str(), name.as_str());
        Ok(with_extension(plain.as_str(), extension.as_str()))
    }

    /// The path of the application's binary. Where the options name no
    /// target, the binary is named as one for the host.
    ///
    /// The manifest's package table must name the package.
    pub fn app_binary_path(&self, options: &Options, reply: MetadataReply) -> (path: Result<
        String,
        BinaryPathError,
    >)
        requires
            self@.cargo_package_settings.name is Some,
        ensures
            exists|host_triple: Result<Seq<char>, Seq<char>>|
                is_binary_path_result(
                    path,
                    #[trigger] app_binary_path_of(self@, options@, reply@, host_triple),
                ),
    {
        let host_triple = match &options.target {
            Some(target) => Ok(target.clone()),
            None => host_target_triple(),
        };
        let ghost host = text_result(host_triple);
        let path = self.app_binary_path_for(options, reply, host_triple);
        assert(is_binary_path_result(path, app_binary_path_of(self@, options@, reply@, host)));
        path
    }
}

/// The model of a result that holds text either way.
pub open spec fn text_result(result: Result<String, String>) -> Result<Seq<char>, Seq<char>> {
    match result {
        Ok(text) => Ok(text@),
        Err(text) => Err(text@),
    }
}

} // verus!
