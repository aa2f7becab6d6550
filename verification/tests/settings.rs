use tauri_dev::cargo_settings::{CargoPackageSettings, CargoSettings, LoadError, ManifestRead};
use tauri_dev::manifest::FeatureMap;
use tauri_dev::metadata::{CargoMetadata, MetadataError, MetadataReply};
use tauri_dev::options::Options;
use tauri_dev::settings::{
    extension_for, BinaryPathError, CargoConfigRead, PackageConfig, PackageSettings,
    RustAppSettings, SettingsError,
};

fn s(text: &str) -> String {
    text.to_string()
}

fn package(name: Option<&str>, version: Option<&str>) -> CargoPackageSettings {
    CargoPackageSettings {
        name: name.map(s),
        version: version.map(s),
        description: Some(s("An application")),
        homepage: Some(s("https://example.org")),
        authors: Some(vec![s("one"), s("two")]),
        default_run: Some(s("app")),
    }
}

fn parsed(package: Option<CargoPackageSettings>) -> ManifestRead {
    ManifestRead::Parsed(CargoSettings { package, workspace: None, bin: None })
}

fn no_config() -> PackageConfig {
    PackageConfig { product_name: None, version: None }
}

fn settings_with(name: &str, cargo_target: Option<&str>) -> RustAppSettings {
    RustAppSettings::new(
        &no_config(),
        FeatureMap::new(),
        parsed(Some(package(Some(name), Some("1.0.0")))),
        CargoConfigRead::Read(cargo_target.map(s)),
    )
    .ok()
    .unwrap()
}

fn metadata() -> MetadataReply {
    MetadataReply::Document(CargoMetadata {
        target_directory: s("/w/target"),
        workspace_root: s("/w"),
    })
}

#[test]
fn the_manifest_describes_the_package_where_the_configuration_does_not() {
    let settings = settings_with("app", None);
    assert_eq!(
        settings.get_package_settings(),
        PackageSettings {
            product_name: s("app"),
            version: s("1.0.0"),
            description: s("An application"),
            homepage: Some(s("https://example.org")),
            authors: Some(vec![s("one"), s("two")]),
            default_run: Some(s("app")),
        }
    );
    assert_eq!(*settings.cargo_package_settings(), package(Some("app"), Some("1.0.0")));
    assert_eq!(settings.cargo_settings().package, Some(package(Some("app"), Some("1.0.0"))));
    assert!(!settings.features().contains("default"));
}

#[test]
fn the_configuration_names_the_product_first() {
    let config = PackageConfig { product_name: Some(s("My App")), version: Some(s("2.0.0")) };
    let mut described = package(None, None);
    described.description = None;
    described.homepage = None;
    described.authors = None;
    described.default_run = None;
    let settings = RustAppSettings::new(
        &config,
        FeatureMap::new(),
        parsed(Some(described.clone())),
        CargoConfigRead::Read(None),
    )
    .ok()
    .unwrap();
    assert_eq!(
        settings.get_package_settings(),
        PackageSettings {
            product_name: s("My App"),
            version: s("2.0.0"),
            description: s(""),
            homepage: None,
            authors: None,
            default_run: None,
        }
    );
    assert_eq!(*settings.cargo_package_settings(), described);
}

#[test]
fn a_manifest_that_cannot_be_loaded_is_fatal() {
    for (read, error) in [
        (ManifestRead::Unopened, LoadError::Open),
        (ManifestRead::Unreadable, LoadError::Read),
        (ManifestRead::Unparsed, LoadError::Parse),
    ] {
        let result = RustAppSettings::new(
            &no_config(),
            FeatureMap::new(),
            read,
            CargoConfigRead::Unreadable(s("broken")),
        );
        assert_eq!(result.err(), Some(SettingsError::Load(error)));
    }
}

#[test]
fn a_manifest_without_a_package_is_fatal() {
    let result = RustAppSettings::new(
        &PackageConfig { product_name: Some(s("x")), version: Some(s("1")) },
        FeatureMap::new(),
        parsed(None),
        CargoConfigRead::Unreadable(s("broken")),
    );
    assert_eq!(result.err(), Some(SettingsError::NoPackageInfo));
}

#[test]
fn an_unreadable_build_configuration_is_fatal() {
    let result = RustAppSettings::new(
        &no_config(),
        FeatureMap::new(),
        parsed(Some(package(Some("app"), Some("1.0.0")))),
        CargoConfigRead::Unreadable(s("invalid type: integer")),
    );
    assert_eq!(result.err(), Some(SettingsError::CargoConfig(s("invalid type: integer"))));
}

#[test]
fn each_settings_error_has_its_words() {
    assert_eq!(
        SettingsError::Load(LoadError::Open).message(),
        "failed to load cargo settings: failed to open Cargo.toml"
    );
    assert_eq!(
        SettingsError::Load(LoadError::Parse).message(),
        "failed to load cargo settings: failed to parse Cargo.toml"
    );
    assert_eq!(SettingsError::NoPackageInfo.message(), "No package info in the config file");
    assert_eq!(SettingsError::CargoConfig(s("why")).message(), "why");
}

#[test]
fn the_feature_table_can_be_replaced() {
    let mut settings = settings_with("app", None);
    let mut features = FeatureMap::new();
    features.insert(s("default"), vec![s("a")]);
    settings.set_features(features);
    assert_eq!(settings.features().get("default"), Some(&vec![s("a")]));
    assert_eq!(settings.get_package_settings().product_name, "app");
}

#[test]
fn the_output_directory_is_that_of_the_chosen_target() {
    let settings = settings_with("app", Some("aarch64-unknown-linux-gnu"));
    assert_eq!(
        settings.out_dir(metadata(), Some(s("x86_64-pc-windows-msvc")), true),
        Ok(s("/w/target/x86_64-pc-windows-msvc/debug"))
    );
    assert_eq!(
        settings.out_dir(metadata(), Some(s("x86_64-pc-windows-msvc")), false),
        Ok(s("/w/target/x86_64-pc-windows-msvc/release"))
    );
}

#[test]
fn the_output_directory_falls_back_to_the_configured_target() {
    let settings = settings_with("app", Some("aarch64-unknown-linux-gnu"));
    assert_eq!(
        settings.out_dir(metadata(), None, false),
        Ok(s("/w/target/aarch64-unknown-linux-gnu/release"))
    );
    let settings = settings_with("app", None);
    assert_eq!(settings.out_dir(metadata(), None, true), Ok(s("/w/target/debug")));
}

#[test]
fn the_output_directory_needs_the_metadata() {
    let settings = settings_with("app", None);
    assert_eq!(
        settings.out_dir(MetadataReply::Failed { stderr: b"no".to_vec() }, None, true),
        Err(MetadataError::NonZeroExit(s("no")))
    );
}

#[test]
fn the_binary_of_a_windows_target_is_an_exe() {
    let settings = settings_with("app", None);
    let options = Options {
        target: Some(s("x86_64-pc-windows-msvc")),
        debug: true,
        ..Options::default()
    };
    assert_eq!(
        settings.app_binary_path_for(&options, metadata(), Err(s("unknown host"))),
        Ok(s("/w/target/x86_64-pc-windows-msvc/debug/app.exe"))
    );
}

#[test]
fn the_binary_of_the_host_goes_by_the_host() {
    let settings = settings_with("app", None);
    let options = Options::default();
    assert_eq!(
        settings.app_binary_path_for(&options, metadata(), Ok(s("x86_64-unknown-linux-gnu"))),
        Ok(s("/w/target/release/app"))
    );
    assert_eq!(
        settings.app_binary_path_for(&options, metadata(), Ok(s("x86_64-pc-windows-gnu"))),
        Ok(s("/w/target/release/app.exe"))
    );
}

#[test]
fn the_configured_target_places_the_binary_and_the_host_names_it() {
    let settings = settings_with("app", Some("x86_64-pc-windows-msvc"));
    let options = Options::default();
    assert_eq!(
        settings.app_binary_path_for(&options, metadata(), Ok(s("x86_64-unknown-linux-gnu"))),
        Ok(s("/w/target/x86_64-pc-windows-msvc/release/app"))
    );
}

#[test]
fn the_extension_replaces_what_follows_the_last_dot() {
    let settings = settings_with("my.app", None);
    let options = Options::default();
    assert_eq!(
        settings.app_binary_path_for(&options, metadata(), Ok(s("x86_64-unknown-linux-gnu"))),
        Ok(s("/w/target/release/my"))
    );
    assert_eq!(
        settings.app_binary_path_for(&options, metadata(), Ok(s("x86_64-pc-windows-msvc"))),
        Ok(s("/w/target/release/my.exe"))
    );
}

#[test]
fn the_binary_path_needs_the_output_directory_first() {
    let settings = settings_with("app", None);
    let options = Options::default();
    let error = settings
        .app_binary_path_for(&options, MetadataReply::Malformed(s("bad")), Err(s("unknown host")))
        .err()
        .unwrap();
    assert_eq!(error, BinaryPathError::OutDir(MetadataError::Malformed(s("bad"))));
    assert_eq!(
        error.message(),
        "failed to get project out directory: failed to get cargo metadata: bad"
    );
}

#[test]
fn the_binary_path_needs_a_target() {
    let settings = settings_with("app", None);
    let options = Options::default();
    let error =
        settings.app_binary_path_for(&options, metadata(), Err(s("unknown host"))).err().unwrap();
    assert_eq!(error, BinaryPathError::Target(s("unknown host")));
    assert_eq!(error.message(), "unknown host");
}

#[test]
fn only_windows_targets_have_an_extension() {
    assert_eq!(extension_for("x86_64-pc-windows-msvc"), "exe");
    assert_eq!(extension_for("windows"), "exe");
    assert_eq!(extension_for("x86_64-unknown-linux-gnu"), "");
    assert_eq!(extension_for("aarch64-apple-darwin"), "");
    assert_eq!(extension_for("Windows"), "");
    assert_eq!(extension_for(""), "");
}

#[test]
fn a_copy_of_a_description_is_the_description() {
    let settings = settings_with("app", None);
    let description = settings.get_package_settings();
    assert_eq!(description.copy(), description);
}

#[test]
fn without_a_chosen_target_the_binary_is_one_for_the_host() {
    let settings = settings_with("app", None);
    let options = Options::default();
    let host = tauri_utils::platform::target_triple().map_err(|error| error.to_string());
    assert!(host.is_ok());
    assert_eq!(
        settings.app_binary_path(&options, metadata()),
        settings.app_binary_path_for(&options, metadata(), host)
    );
    assert_eq!(
        settings.app_binary_path(&options, MetadataReply::Unavailable(s("gone"))),
        Err(BinaryPathError::OutDir(MetadataError::Unavailable(s("gone"))))
    );
}

#[test]
fn with_a_chosen_target_the_host_does_not_matter() {
    let settings = settings_with("app", None);
    let options = Options { target: Some(s("i686-pc-windows-msvc")), ..Options::default() };
    assert_eq!(
        settings.app_binary_path(&options, metadata()),
        Ok(s("/w/target/i686-pc-windows-msvc/release/app.exe"))
    );
}
