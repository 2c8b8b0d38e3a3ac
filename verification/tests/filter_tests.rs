use modpack::filter::{exclude, is_hidden};
use modpack::text::same_text;

#[test]
fn artifact_itself_is_hidden() {
    assert!(is_hidden("test_mod_1.0.0.zip", "test_mod_1.0.0.zip"));
}

#[test]
fn dot_prefixed_names_are_hidden() {
    assert!(is_hidden(".git", "test_mod_1.0.0.zip"));
    assert!(is_hidden(".gitignore", "test_mod_1.0.0.zip"));
    assert!(is_hidden("..", "test_mod_1.0.0.zip"));
}

#[test]
fn root_marker_is_not_hidden() {
    assert!(!is_hidden(".", "test_mod_1.0.0.zip"));
}

#[test]
fn cache_directory_is_hidden() {
    assert!(is_hidden("build", "test_mod_1.0.0.zip"));
}

#[test]
fn ordinary_names_are_kept() {
    assert!(!is_hidden("data.lua", "test_mod_1.0.0.zip"));
    assert!(!is_hidden("info.json", "test_mod_1.0.0.zip"));
    assert!(!is_hidden("builder", "test_mod_1.0.0.zip"));
    assert!(!is_hidden("rebuild", "test_mod_1.0.0.zip"));
    assert!(!is_hidden("a.b", "test_mod_1.0.0.zip"));
    assert!(!is_hidden("", "test_mod_1.0.0.zip"));
}

#[test]
fn root_of_the_traversal_may_be_dot_prefixed() {
    assert!(!exclude(".", true, "test_mod_1.0.0.zip"));
    assert!(!exclude(".project", true, "test_mod_1.0.0.zip"));
    assert!(exclude(".project", false, "test_mod_1.0.0.zip"));
    assert!(exclude(".", false, "test_mod_1.0.0.zip"));
}

#[test]
fn root_of_the_traversal_is_still_held_to_the_other_rules() {
    assert!(exclude("build", true, "test_mod_1.0.0.zip"));
    assert!(exclude("test_mod_1.0.0.zip", true, "test_mod_1.0.0.zip"));
    assert!(!exclude("project", true, "test_mod_1.0.0.zip"));
    assert!(!exclude("project", false, "test_mod_1.0.0.zip"));
}

#[test]
fn names_are_compared_exactly() {
    assert!(!is_hidden("Build", "test_mod_1.0.0.zip"));
    assert!(!is_hidden("build ", "test_mod_1.0.0.zip"));
    assert!(!is_hidden("test_mod_1.0.0.ZIP", "test_mod_1.0.0.zip"));
    assert!(!is_hidden("a.", "test_mod_1.0.0.zip"));
    assert!(is_hidden(".a", ".a"));
    assert!(is_hidden("x", "x"));
    assert!(is_hidden(".", "."));
}

#[test]
fn same_text_compares_contents() {
    assert!(same_text("", ""));
    assert!(same_text("abc", "abc"));
    assert!(!same_text("abc", "abd"));
    assert!(!same_text("abc", "ab"));
}
