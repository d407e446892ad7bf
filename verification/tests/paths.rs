use templater::paths::{
    chars_of, is_contained, is_excluded, join, keep_entry, project_name_of, split, walk_rules,
};

#[test]
fn characters_of_a_text() {
    assert_eq!(chars_of("héllo"), vec!['h', 'é', 'l', 'l', 'o']);
    assert_eq!(chars_of(""), Vec::<char>::new());
}

#[test]
fn path_is_split_at_its_slashes() {
    assert_eq!(split("a/b/c"), vec!["a", "b", "c"]);
    assert_eq!(split("abc"), vec!["abc"]);
    assert_eq!(split(""), vec![""]);
    assert_eq!(split("/"), vec!["", ""]);
    assert_eq!(split("/a//b/"), vec!["", "a", "", "b", ""]);
    assert_eq!(split("é/ü"), vec!["é", "ü"]);
}

#[test]
fn walk_leaves_out_version_control_and_descriptor() {
    assert!(!keep_entry(".git"));
    assert!(!keep_entry("template.toml"));
    assert!(keep_entry(".gitignore"));
    assert!(keep_entry(".hidden"));
    assert!(keep_entry("Template.toml"));
    assert!(keep_entry("main.rs"));
    assert!(keep_entry(""));
}

#[test]
fn reserved_segment_excludes_a_path() {
    assert!(is_excluded("template.toml"));
    assert!(is_excluded(".git/config"));
    assert!(is_excluded("sub/.git/HEAD"));
    assert!(is_excluded("sub/template.toml"));
    assert!(!is_excluded("src/main.rs"));
    assert!(!is_excluded("template.toml.bak"));
    assert!(!is_excluded(".github/workflows/ci.yml"));
    assert!(!is_excluded(""));
}

#[test]
fn contained_paths() {
    assert!(is_contained("a"));
    assert!(is_contained("a/b.txt"));
    assert!(is_contained("./a"));
    assert!(is_contained("a/../b"));
    assert!(is_contained("a//b"));
    assert!(is_contained("demo/main.ext"));
    assert!(is_contained("..a"));
}

#[test]
fn escaping_paths() {
    assert!(!is_contained(""));
    assert!(!is_contained("/"));
    assert!(!is_contained("/etc/passwd"));
    assert!(!is_contained(".."));
    assert!(!is_contained("../a"));
    assert!(!is_contained("a/../../b"));
    assert!(!is_contained("a/../../a/b"));
    assert!(!is_contained("a/.."));
    assert!(!is_contained("."));
    assert!(!is_contained("./"));
}

#[test]
fn project_is_named_after_the_target() {
    assert_eq!(project_name_of("/tmp/out/demo"), "demo");
    assert_eq!(project_name_of("/tmp/out/demo/"), "demo");
    assert_eq!(project_name_of("demo"), "demo");
    assert_eq!(project_name_of("/tmp/out"), "out");
    assert_eq!(project_name_of("/"), "");
    assert_eq!(project_name_of(""), "");
    assert_eq!(project_name_of("a//"), "a");
}

#[test]
fn join_puts_a_slash_between() {
    assert_eq!(join("/tmp/out", "demo/main.ext"), "/tmp/out/demo/main.ext");
    assert_eq!(join("", "a"), "/a");
    assert_eq!(join("a", ""), "a/");
}

#[test]
fn walk_honours_only_the_ignore_files_of_the_template() {
    let rules = walk_rules();
    assert!(rules.include_hidden);
    assert!(rules.tree_ignores);
    assert!(!rules.parent_ignores);
    assert!(!rules.global_ignores);
    assert!(!rules.repository_excludes);
}
