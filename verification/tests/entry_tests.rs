use modpack::entry::{plan_entries, plan_entry, ArchiveEntry, SourceEntry};
use modpack::manifest::ModManifest;

fn test_mod() -> ModManifest {
    ModManifest { name: "test_mod".to_string(), version: "1.0.0".to_string() }
}

fn file(path: &str) -> SourceEntry {
    SourceEntry { path: path.to_string(), is_file: true }
}

fn dir(path: &str) -> SourceEntry {
    SourceEntry { path: path.to_string(), is_file: false }
}

fn archived_file(source: &str, archive_path: &str) -> ArchiveEntry {
    ArchiveEntry::File { source: source.to_string(), archive_path: archive_path.to_string() }
}

fn archived_dir(archive_path: &str) -> ArchiveEntry {
    ArchiveEntry::Directory { archive_path: archive_path.to_string() }
}

fn paths(entries: &[ArchiveEntry]) -> Vec<String> {
    entries.iter().map(|entry| entry.path().clone()).collect()
}

#[test]
fn file_is_mapped_under_root() {
    assert_eq!(
        plan_entry(&test_mod(), &file("./data.lua"), '/'),
        Some(archived_file("./data.lua", "test_mod_1.0.0/data.lua"))
    );
}

#[test]
fn directory_is_mapped_as_marker() {
    assert_eq!(
        plan_entry(&test_mod(), &dir("./prototypes"), '/'),
        Some(archived_dir("test_mod_1.0.0/prototypes"))
    );
}

#[test]
fn traversal_root_gets_no_entry() {
    assert_eq!(plan_entry(&test_mod(), &dir("."), '/'), None);
    assert_eq!(plan_entry(&test_mod(), &dir(""), '/'), None);
    assert_eq!(plan_entry(&test_mod(), &dir("./"), '/'), None);
}

#[test]
fn hidden_entries_get_no_entry() {
    assert_eq!(plan_entry(&test_mod(), &dir("./.git"), '/'), None);
    assert_eq!(plan_entry(&test_mod(), &file("./.gitignore"), '/'), None);
    assert_eq!(plan_entry(&test_mod(), &dir("./build"), '/'), None);
    assert_eq!(plan_entry(&test_mod(), &file("./test_mod_1.0.0.zip"), '/'), None);
}

#[test]
fn whatever_lies_below_a_hidden_directory_gets_no_entry() {
    assert_eq!(plan_entry(&test_mod(), &file("./.git/objects/ab/cdef"), '/'), None);
    assert_eq!(plan_entry(&test_mod(), &file("./build/old/data.lua"), '/'), None);
    assert_eq!(plan_entry(&test_mod(), &file("./a/b/c/.d/e/f.lua"), '/'), None);
    assert_eq!(plan_entry(&test_mod(), &file("./a/b/build/f.lua"), '/'), None);
    assert_eq!(plan_entry(&test_mod(), &file("./a/../b.lua"), '/'), None);
}

#[test]
fn names_that_only_resemble_hidden_ones_are_kept() {
    assert_eq!(
        plan_entry(&test_mod(), &file("./builder/build.lua"), '/'),
        Some(archived_file("./builder/build.lua", "test_mod_1.0.0/builder/build.lua"))
    );
    assert_eq!(
        plan_entry(&test_mod(), &file("./test_mod_1.0.1.zip"), '/'),
        Some(archived_file("./test_mod_1.0.1.zip", "test_mod_1.0.0/test_mod_1.0.1.zip"))
    );
}

#[test]
fn entry_kinds_answer_their_questions() {
    let as_file = archived_file("./data.lua", "test_mod_1.0.0/data.lua");
    let as_dir = archived_dir("test_mod_1.0.0/prototypes");
    assert!(as_file.is_file());
    assert!(!as_dir.is_file());
    assert_eq!(as_file.path(), "test_mod_1.0.0/data.lua");
    assert_eq!(as_dir.path(), "test_mod_1.0.0/prototypes");
    assert_eq!(as_file.clone(), as_file);
    assert_eq!(as_dir.clone(), as_dir);
}

#[test]
fn example_project_is_packaged_without_hidden_entries() {
    let listing = vec![
        dir("."),
        file("./info.json"),
        dir("./.git"),
        file("./.git/HEAD"),
        file("./data.lua"),
        file("./.gitignore"),
        dir("./build"),
        file("./build/test_mod_0.9.0.zip"),
        file("./control.lua"),
    ];
    let plan = plan_entries(&test_mod(), &listing, '/');
    assert_eq!(
        plan,
        vec![
            archived_file("./info.json", "test_mod_1.0.0/info.json"),
            archived_file("./data.lua", "test_mod_1.0.0/data.lua"),
            archived_file("./control.lua", "test_mod_1.0.0/control.lua"),
        ]
    );
}

#[test]
fn clean_tree_is_packaged_whole() {
    let listing = vec![
        dir("."),
        file("./info.json"),
        dir("./prototypes"),
        dir("./prototypes/empty"),
        file("./prototypes/item.lua"),
        dir("./locale"),
        dir("./locale/en"),
        file("./locale/en/strings.cfg"),
    ];
    let plan = plan_entries(&test_mod(), &listing, '/');
    assert_eq!(
        plan,
        vec![
            archived_file("./info.json", "test_mod_1.0.0/info.json"),
            archived_dir("test_mod_1.0.0/prototypes"),
            archived_dir("test_mod_1.0.0/prototypes/empty"),
            archived_file("./prototypes/item.lua", "test_mod_1.0.0/prototypes/item.lua"),
            archived_dir("test_mod_1.0.0/locale"),
            archived_dir("test_mod_1.0.0/locale/en"),
            archived_file("./locale/en/strings.cfg", "test_mod_1.0.0/locale/en/strings.cfg"),
        ]
    );
}

#[test]
fn every_planned_path_stands_under_the_root_and_shows_nothing_hidden() {
    let listing = vec![
        dir("."),
        file("./a/.b/c"),
        file("./a/b/c"),
        dir("./x/build"),
        file("./x/build/y"),
        file("./x/y/test_mod_1.0.0.zip"),
        file("./x/y/z"),
        dir("./.."),
    ];
    let plan = plan_entries(&test_mod(), &listing, '/');
    assert_eq!(paths(&plan), vec!["test_mod_1.0.0/a/b/c", "test_mod_1.0.0/x/y/z"]);
    for entry in &plan {
        let below = entry.path().strip_prefix("test_mod_1.0.0/").unwrap();
        for segment in below.split('/') {
            assert!(!segment.is_empty());
            assert!(!segment.starts_with('.'));
            assert_ne!(segment, "build");
            assert_ne!(segment, "test_mod_1.0.0.zip");
        }
    }
}

#[test]
fn order_of_the_listing_does_not_change_what_is_packaged() {
    let one = vec![file("./b.lua"), dir("./.git"), file("./a.lua"), dir("./d")];
    let other = vec![dir("./d"), file("./a.lua"), file("./b.lua"), dir("./.git")];
    let mut first = paths(&plan_entries(&test_mod(), &one, '/'));
    let mut second = paths(&plan_entries(&test_mod(), &other, '/'));
    assert_eq!(first, vec!["test_mod_1.0.0/b.lua", "test_mod_1.0.0/a.lua", "test_mod_1.0.0/d"]);
    first.sort();
    second.sort();
    assert_eq!(first, second);
}

#[test]
fn planning_twice_gives_the_same_plan() {
    let listing = vec![dir("."), file("./info.json"), dir("./prototypes"), file("./.hidden")];
    assert_eq!(
        plan_entries(&test_mod(), &listing, '/'),
        plan_entries(&test_mod(), &listing, '/')
    );
}

#[test]
fn empty_listing_gives_empty_plan() {
    assert_eq!(plan_entries(&test_mod(), &vec![], '/'), vec![]);
}

#[test]
fn host_separator_does_not_reach_the_archive() {
    let listing = vec![dir("."), dir(".\\prototypes"), file(".\\prototypes\\item.lua")];
    let plan = plan_entries(&test_mod(), &listing, '\\');
    assert_eq!(
        plan,
        vec![
            archived_dir("test_mod_1.0.0/prototypes"),
            archived_file(".\\prototypes\\item.lua", "test_mod_1.0.0/prototypes/item.lua"),
        ]
    );
}
