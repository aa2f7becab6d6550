use tauri_dev::mobile::{
    find_placeholder, installs_pods, note_directory, project_path, rename_component, valid_archs,
    writes_template,
};

fn texts(items: &[&str]) -> Vec<String> {
    items.iter().map(|s| s.to_string()).collect()
}

#[test]
fn the_application_names_its_directory() {
    assert_eq!(
        project_path(texts(&["Sources", "{{app.name}}", "main.mm"]), "demo"),
        texts(&["Sources", "demo", "main.mm"])
    );
    assert_eq!(
        project_path(texts(&["{{app.name}}_iOS", "Info.plist"]), "demo"),
        texts(&["demo_iOS", "Info.plist"])
    );
}

#[test]
fn every_match_in_the_component_is_replaced() {
    assert_eq!(
        project_path(texts(&["{{app.name}}-{{app.name}}.xcodeproj"]), "demo"),
        texts(&["demo-demo.xcodeproj"])
    );
}

#[test]
fn only_the_first_component_with_the_placeholder_is_renamed() {
    assert_eq!(
        project_path(texts(&["a", "{{app.name}}", "{{app.name}}.swift"]), "demo"),
        texts(&["a", "demo", "{{app.name}}.swift"])
    );
}

#[test]
fn a_path_without_the_placeholder_stays() {
    assert_eq!(
        project_path(texts(&["Sources", "{app.name}", "{{app.name}"]), "demo"),
        texts(&["Sources", "{app.name}", "{{app.name}"])
    );
    assert_eq!(project_path(Vec::new(), "demo"), Vec::<String>::new());
}

#[test]
fn the_placeholder_is_found_where_it_first_stands() {
    assert_eq!(find_placeholder(&texts(&["a", "x{{app.name}}y", "{{app.name}}"])), 1);
    assert_eq!(find_placeholder(&texts(&["a", "b"])), 2);
    assert_eq!(find_placeholder(&Vec::new()), 0);
}

#[test]
fn rename_component_goes_by_what_it_is_told() {
    assert_eq!(rename_component(texts(&["a", "b"]), 1, "c".to_string()), texts(&["a", "c"]));
    assert_eq!(rename_component(texts(&["a", "b"]), 2, "c".to_string()), texts(&["a", "b"]));
}

#[test]
fn a_template_is_written_where_the_project_lacks_it() {
    assert!(writes_template(&"project.yml".to_string(), false));
    assert!(!writes_template(&"project.yml".to_string(), true));
}

#[test]
fn the_build_task_is_written_in_any_case() {
    assert!(writes_template(&"BuildTask.kt".to_string(), true));
    assert!(writes_template(&"BuildTask.kt".to_string(), false));
    assert!(!writes_template(&"buildtask.kt".to_string(), true));
}

#[test]
fn a_directory_is_created_once() {
    let mut created = Vec::new();
    assert!(note_directory(&mut created, "/p/gen/apple".to_string()));
    assert!(note_directory(&mut created, "/p/gen/apple/Sources".to_string()));
    assert!(!note_directory(&mut created, "/p/gen/apple".to_string()));
    assert!(!note_directory(&mut created, "/p/gen/apple/".to_string()));
    assert!(!note_directory(&mut created, "/p/gen/./apple/Sources".to_string()));
    assert_eq!(created, texts(&["/p/gen/apple", "/p/gen/apple/Sources"]));
}

#[test]
fn pods_are_installed_where_there_are_any() {
    assert!(!installs_pods(0, 0));
    assert!(installs_pods(1, 0));
    assert!(installs_pods(0, 2));
    assert!(installs_pods(3, 4));
}

#[test]
fn the_valid_architectures_go_by_the_machine() {
    assert_eq!(valid_archs(true), texts(&["arm64", "arm64-sim"]));
    assert_eq!(valid_archs(false), texts(&["arm64", "x86_64"]));
}
