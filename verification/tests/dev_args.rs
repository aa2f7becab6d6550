use tauri_dev::dev_args::dev_options;
use tauri_dev::manifest::FeatureMap;

fn texts(items: &[&str]) -> Vec<String> {
    items.iter().map(|s| s.to_string()).collect()
}

fn table(entries: &[(&str, &[&str])]) -> FeatureMap {
    let mut table = FeatureMap::new();
    for (name, enables) in entries {
        table.insert(name.to_string(), texts(enables));
    }
    table
}

#[test]
fn dev_options_splits_at_first_separator() {
    let mut args = texts(&["--verbose", "--", "one", "--", "two"]);
    let mut features = None;
    let run_args = dev_options(&mut args, &mut features, &FeatureMap::new());
    assert_eq!(args, texts(&["--verbose"]));
    assert_eq!(run_args, texts(&["one", "--", "two", "--no-default-features"]));
    assert_eq!(features, None);
}

#[test]
fn dev_options_adds_the_flag_once() {
    let mut args = texts(&["--verbose"]);
    let mut features = None;
    let run_args = dev_options(&mut args, &mut features, &FeatureMap::new());
    assert_eq!(args, texts(&["--verbose", "--no-default-features"]));
    assert!(run_args.is_empty());

    let run_args = dev_options(&mut args, &mut features, &FeatureMap::new());
    assert_eq!(args, texts(&["--verbose", "--no-default-features"]));
    assert!(run_args.is_empty());
    assert_eq!(features, None);
}

#[test]
fn dev_options_on_no_arguments() {
    let mut args = Vec::new();
    let mut features = None;
    let run_args = dev_options(&mut args, &mut features, &FeatureMap::new());
    assert_eq!(args, texts(&["--no-default-features"]));
    assert!(run_args.is_empty());
    assert_eq!(features, None);
}

#[test]
fn dev_options_enables_the_kept_defaults() {
    let manifest = table(&[
        ("default", &["custom-protocol", "tray", "tauri/custom-protocol", "serde/derive"]),
        ("custom-protocol", &["tauri/custom-protocol"]),
        ("tray", &["tauri/system-tray"]),
    ]);
    let mut args = texts(&["--release"]);
    let mut features = Some(texts(&["extra"]));
    let run_args = dev_options(&mut args, &mut features, &manifest);
    assert_eq!(args, texts(&["--release", "--no-default-features"]));
    assert!(run_args.is_empty());
    assert_eq!(features, Some(texts(&["extra", "tray", "serde/derive"])));
}

#[test]
fn dev_options_makes_a_feature_list_where_there_was_none() {
    let manifest = table(&[("default", &["a", "b"]), ("a", &[])]);
    let mut args = Vec::new();
    let mut features = None;
    dev_options(&mut args, &mut features, &manifest);
    assert_eq!(features, Some(texts(&["a", "b"])));
}

#[test]
fn dev_options_leaves_features_alone_where_no_default_is_kept() {
    let manifest = table(&[
        ("default", &["custom-protocol"]),
        ("custom-protocol", &["tauri/custom-protocol"]),
    ]);
    let mut args = Vec::new();
    let mut features = None;
    dev_options(&mut args, &mut features, &manifest);
    assert_eq!(features, None);

    let mut features = Some(texts(&["x"]));
    let mut args = Vec::new();
    dev_options(&mut args, &mut features, &manifest);
    assert_eq!(features, Some(texts(&["x"])));
}

#[test]
fn dev_options_leaves_features_alone_where_the_defaults_are_off_already() {
    let manifest = table(&[("default", &["a"])]);
    let mut args = texts(&["--no-default-features", "--", "run"]);
    let mut features = None;
    let run_args = dev_options(&mut args, &mut features, &manifest);
    assert_eq!(args, texts(&["--no-default-features"]));
    assert_eq!(run_args, texts(&["run"]));
    assert_eq!(features, None);
}

#[test]
fn dev_options_sees_the_flag_among_the_run_arguments() {
    let manifest = table(&[("default", &["a"])]);
    let mut args = texts(&["--", "--no-default-features"]);
    let mut features = None;
    let run_args = dev_options(&mut args, &mut features, &manifest);
    assert!(args.is_empty());
    assert_eq!(run_args, texts(&["--no-default-features"]));
    assert_eq!(features, None);
}

#[test]
fn dev_options_with_a_trailing_separator() {
    let mut args = texts(&["--no-default-features", "--"]);
    let mut features = None;
    let run_args = dev_options(&mut args, &mut features, &FeatureMap::new());
    assert_eq!(args, texts(&["--no-default-features"]));
    assert!(run_args.is_empty());
}

#[test]
fn feature_map_keeps_the_last_declaration() {
    let mut manifest = FeatureMap::new();
    assert!(!manifest.contains("default"));
    assert_eq!(manifest.get("default"), None);
    manifest.insert("default".to_string(), texts(&["a"]));
    manifest.insert("default".to_string(), texts(&["b"]));
    assert!(manifest.contains("default"));
    assert_eq!(manifest.get("default"), Some(&texts(&["b"])));
    assert!(!manifest.contains("b"));
}
