use tauri_dev::text::{
    contains_text, copy_optional_text, copy_optional_texts, copy_texts, has_ending, has_text,
    is_text, replace_text,
};

fn texts(items: &[&str]) -> Vec<String> {
    items.iter().map(|s| s.to_string()).collect()
}

#[test]
fn text_is_compared_by_its_characters() {
    assert!(is_text(&"--".to_string(), "--"));
    assert!(!is_text(&"--".to_string(), "---"));
    assert!(is_text(&String::new(), ""));
    assert!(is_text(&"é".to_string(), "\u{e9}"));
    assert!(!is_text(&"é".to_string(), "e\u{301}"));
}

#[test]
fn a_list_contains_what_it_holds() {
    let list = texts(&["a", "bc", ""]);
    assert!(contains_text(&list, "a"));
    assert!(contains_text(&list, "bc"));
    assert!(contains_text(&list, ""));
    assert!(!contains_text(&list, "b"));
    assert!(!contains_text(&Vec::new(), ""));
}

#[test]
fn copies_are_equal_to_what_was_copied() {
    let list = texts(&["a", "bc"]);
    assert_eq!(copy_texts(&list), list);
    assert_eq!(copy_texts(&Vec::new()), Vec::<String>::new());
    assert_eq!(copy_optional_text(&Some("a".to_string())), Some("a".to_string()));
    assert_eq!(copy_optional_text(&None), None);
    assert_eq!(copy_optional_texts(&Some(list.clone())), Some(list));
    assert_eq!(copy_optional_texts(&None), None);
}

#[test]
fn text_occurs_where_its_characters_stand_together() {
    assert!(has_text("x86_64-pc-windows-msvc", "windows"));
    assert!(has_text("windows", "windows"));
    assert!(has_text("abc", ""));
    assert!(has_text("", ""));
    assert!(has_text("grüße-windows", "e-w"));
    assert!(!has_text("window", "windows"));
    assert!(!has_text("win-dows", "windows"));
    assert!(!has_text("", "a"));
    assert!(has_text("aab", "ab"));
}

#[test]
fn text_ends_with_its_last_characters() {
    assert!(has_ending("icon.ico", ".ico"));
    assert!(has_ending(".ico", ".ico"));
    assert!(has_ending("abc", ""));
    assert!(has_ending("größe", "ße"));
    assert!(!has_ending("ico", ".ico"));
    assert!(!has_ending("icon.ico.png", ".ico"));
    assert!(!has_ending("icon.ICO", ".ico"));
}

#[test]
fn every_occurrence_is_replaced_from_the_left() {
    assert_eq!(replace_text("a-b-c", "-", "--"), "a--b--c");
    assert_eq!(replace_text("aaa", "aa", "b"), "ba");
    assert_eq!(replace_text("aaaa", "aa", "b"), "bb");
    assert_eq!(replace_text("{{app.name}}", "{{app.name}}", "demo"), "demo");
    assert_eq!(replace_text("x{{app.name}}", "{{app.name}}", ""), "x");
    assert_eq!(replace_text("grüße", "ü", "ue"), "grueße");
    assert_eq!(replace_text("abc", "abcd", "x"), "abc");
    assert_eq!(replace_text("", "a", "x"), "");
    assert_eq!(replace_text("abab", "ab", "ab"), "abab");
}

#[test]
fn an_empty_pattern_occurs_nowhere() {
    assert_eq!(replace_text("abc", "", "x"), "abc");
    assert_eq!(replace_text("", "", "x"), "");
}

#[test]
fn replacing_agrees_with_the_standard_library() {
    let texts = ["", "a", "aa", "aaa", "abcabc", "{{a}}{{a}", "xyzxy", "--x--"];
    let patterns = ["a", "aa", "abc", "{{a}}", "xy", "-", "--", "zz"];
    let replacements = ["", "a", "b", "aa", "long replacement"];
    for text in texts {
        for pattern in patterns {
            for replacement in replacements {
                assert_eq!(
                    replace_text(text, pattern, replacement),
                    text.replace(pattern, replacement)
                );
            }
        }
    }
}
