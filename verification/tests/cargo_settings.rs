use tauri_dev::cargo_settings::{
    BinarySettings, CargoPackageSettings, CargoSettings, LoadError, ManifestRead,
    WorkspaceSettings,
};

fn package() -> CargoPackageSettings {
    CargoPackageSettings {
        name: Some("app".to_string()),
        version: Some("0.1.0".to_string()),
        description: None,
        homepage: Some("https://example.org".to_string()),
        authors: Some(vec!["one".to_string(), "two".to_string()]),
        default_run: None,
    }
}

#[test]
fn what_was_parsed_is_loaded() {
    let settings = CargoSettings {
        package: Some(package()),
        workspace: Some(WorkspaceSettings { members: Some(vec!["a".to_string()]) }),
        bin: Some(vec![BinarySettings { name: "app".to_string(), path: None }]),
    };
    assert_eq!(CargoSettings::load(ManifestRead::Parsed(settings.clone())), Ok(settings));
}

#[test]
fn each_way_to_fail_has_its_error() {
    assert_eq!(CargoSettings::load(ManifestRead::Unopened), Err(LoadError::Open));
    assert_eq!(CargoSettings::load(ManifestRead::Unreadable), Err(LoadError::Read));
    assert_eq!(CargoSettings::load(ManifestRead::Unparsed), Err(LoadError::Parse));
}

#[test]
fn each_error_has_its_words() {
    assert_eq!(LoadError::Open.message(), "failed to open Cargo.toml");
    assert_eq!(LoadError::Read.message(), "failed to read Cargo.toml");
    assert_eq!(LoadError::Parse.message(), "failed to parse Cargo.toml");
}

#[test]
fn the_manifest_lies_in_the_directory() {
    assert_eq!(CargoSettings::manifest_path("/w/app"), "/w/app/Cargo.toml");
    assert_eq!(CargoSettings::manifest_path("/w/app/"), "/w/app/Cargo.toml");
    assert_eq!(CargoSettings::manifest_path(""), "Cargo.toml");
}

#[test]
fn a_copy_of_a_package_is_the_package() {
    let package = package();
    assert_eq!(package.copy(), package);
}
