use std::path::Path;

use tauri_dev::cargo_settings::CargoSettings;
use tauri_dev::events::{is_config_change, ChangeEvent, ChangeKind};
use tauri_dev::metadata::{get_target_dir, CargoMetadata, MetadataReply};
use tauri_dev::scope::WatchScope;

const PATHS: [&str; 12] = [
    "",
    "/",
    ".",
    "..",
    "a",
    "a/",
    "a/b",
    "/a/b",
    "/a/./b/",
    "a/../b",
    "/w/tauri.conf.json",
    "tauri.conf.json",
];

#[test]
fn members_are_adjoined_as_the_standard_library_adjoins() {
    for root in PATHS {
        let members: Vec<String> = PATHS.iter().map(|member| member.to_string()).collect();
        let expected: Vec<String> = PATHS
            .iter()
            .map(|member| Path::new(root).join(member).to_string_lossy().into_owned())
            .collect();
        if !WatchScope::is_single_crate("/somewhere/else", root) {
            let scope = WatchScope::resolve("/somewhere/else", root, Some(members));
            assert_eq!(scope.roots(), expected);
        }
        assert_eq!(
            CargoSettings::manifest_path(root),
            Path::new(root).join("Cargo.toml").to_string_lossy()
        );
    }
}

#[test]
fn directories_are_compared_as_the_standard_library_compares() {
    for a in PATHS {
        for b in PATHS {
            assert_eq!(WatchScope::is_single_crate(a, b), Path::new(a) == Path::new(b));
        }
    }
}

#[test]
fn the_final_component_is_the_one_of_the_standard_library() {
    for path in PATHS {
        let change = ChangeEvent { path: path.to_string(), kind: ChangeKind::Modified };
        let expected = Path::new(path).file_name().and_then(|name| name.to_str())
            == Some("tauri.conf.json");
        assert_eq!(is_config_change(&change), expected);
    }
}

#[test]
fn the_target_directory_is_adjoined_as_the_standard_library_adjoins() {
    for directory in PATHS {
        for triple in ["x86_64-unknown-linux-gnu", "/absolute", ""] {
            let reply = MetadataReply::Document(CargoMetadata {
                target_directory: directory.to_string(),
                workspace_root: "/w".to_string(),
            });
            let expected = Path::new(directory).join(triple).join("release");
            assert_eq!(
                get_target_dir(reply, Some(triple), true),
                Ok(expected.to_string_lossy().into_owned())
            );
        }
    }
}
