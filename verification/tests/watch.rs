use tauri_dev::watch::{
    plan_entry, registrations, Entry, RecursiveMode, Registration, DEBOUNCE_WINDOW_SECS,
};

fn entry(path: &str, is_dir: bool) -> Entry {
    Entry { path: path.to_string(), is_dir }
}

fn registration(path: &str, mode: RecursiveMode) -> Registration {
    Registration { path: path.to_string(), mode }
}

#[test]
fn directories_are_watched_recursively_and_files_alone() {
    let entries = vec![
        entry("/project", true),
        entry("/project/src", true),
        entry("/project/Cargo.toml", false),
        entry("/project/icons", true),
    ];
    assert_eq!(
        registrations("/project", &entries),
        vec![
            registration("/project/src", RecursiveMode::Recursive),
            registration("/project/Cargo.toml", RecursiveMode::NonRecursive),
            registration("/project/icons", RecursiveMode::Recursive),
        ]
    );
}

#[test]
fn the_root_is_never_its_own_child() {
    let entries = vec![entry("/project", true), entry("/project/", true), entry("", true)];
    assert!(registrations("/project", &entries).is_empty());
}

#[test]
fn relative_entries_are_watched_under_the_root() {
    let entries = vec![entry("src", true), entry("build.rs", false)];
    assert_eq!(
        registrations("/project", &entries),
        vec![
            registration("/project/src", RecursiveMode::Recursive),
            registration("/project/build.rs", RecursiveMode::NonRecursive),
        ]
    );
}

#[test]
fn nothing_listed_nothing_registered() {
    assert!(registrations("/project", &Vec::new()).is_empty());
}

#[test]
fn an_entry_left_out_of_the_listing_is_not_registered() {
    let listed = vec![entry("/project/src", true)];
    let plan = registrations("/project", &listed);
    assert!(plan.iter().all(|r| r.path != "/project/target"));
    assert!(plan.iter().all(|r| r.path != "/project/node_modules"));
}

#[test]
fn plan_entry_goes_by_what_it_is_told() {
    assert_eq!(plan_entry("/p".to_string(), true, true), None);
    assert_eq!(plan_entry("/p".to_string(), true, false), None);
    assert_eq!(
        plan_entry("/p/src".to_string(), false, true),
        Some(registration("/p/src", RecursiveMode::Recursive))
    );
    assert_eq!(
        plan_entry("/p/a.rs".to_string(), false, false),
        Some(registration("/p/a.rs", RecursiveMode::NonRecursive))
    );
}

#[test]
fn the_debounce_window_is_one_second() {
    assert_eq!(DEBOUNCE_WINDOW_SECS, 1);
}
