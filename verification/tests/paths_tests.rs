use mmlib::paths::get_repo_path;
use mmlib::paths::get_repos_folder;
use mmlib::paths::is_absolute_path;
use mmlib::paths::join_path;
use mmlib::paths::parent_path;
use mmlib::paths::repo_path_of;
use mmlib::paths::repos_folder_of;
use mmlib::paths::strip_path_prefix;

#[test]
fn join_inserts_separator() {
    assert_eq!(join_path("/a/b", "c"), "/a/b/c");
}

#[test]
fn join_keeps_existing_separator() {
    assert_eq!(join_path("/a/b/", "c"), "/a/b/c");
}

#[test]
fn join_onto_empty_base() {
    assert_eq!(join_path("", "c"), "c");
}

#[test]
fn join_absolute_component_replaces_base() {
    assert_eq!(join_path("/a", "/b"), "/b");
}

#[test]
fn absolute_paths_start_with_separator() {
    assert!(is_absolute_path("/x"));
    assert!(!is_absolute_path("x/y"));
    assert!(!is_absolute_path(""));
}

#[test]
fn strip_with_trailing_separator() {
    assert_eq!(strip_path_prefix("/w/repo/today.md", "/w/repo/").as_deref(), Some("today.md"));
}

#[test]
fn strip_without_trailing_separator() {
    assert_eq!(strip_path_prefix("/w/repo/a/b.md", "/w/repo").as_deref(), Some("a/b.md"));
}

#[test]
fn strip_of_base_itself_is_empty() {
    assert_eq!(strip_path_prefix("/w/repo", "/w/repo/").as_deref(), Some(""));
    assert_eq!(strip_path_prefix("/w/repo/", "/w/repo/").as_deref(), Some(""));
    assert_eq!(strip_path_prefix("/w/repo", "/w/repo").as_deref(), Some(""));
}

#[test]
fn strip_outside_base_fails() {
    assert!(strip_path_prefix("/elsewhere/x.md", "/w/repo/").is_none());
    assert!(strip_path_prefix("/w/repository/x.md", "/w/repo").is_none());
    assert!(strip_path_prefix("relative.md", "/w/repo/").is_none());
}

#[test]
fn parent_of_nested_path() {
    assert_eq!(parent_path("a/b/c.md").as_deref(), Some("a/b"));
}

#[test]
fn parent_of_top_level_path_is_root() {
    assert_eq!(parent_path("c.md").as_deref(), Some(""));
}

#[test]
fn parent_of_empty_path_is_none() {
    assert!(parent_path("").is_none());
}

#[test]
fn repos_folder_layout() {
    assert_eq!(repos_folder_of("/data"), "/data/mm/repos");
}

#[test]
fn repo_path_layout() {
    assert_eq!(repo_path_of("/data", &Some("diary")), "/data/mm/repos/diary");
    assert_eq!(repo_path_of("/data", &None), "/data/mm/repos/mm_main_local");
}

#[test]
fn ambient_repo_path_lies_under_repos_folder() {
    if let Some(root) = get_repos_folder() {
        let named = get_repo_path(&Some("diary")).unwrap();
        assert_eq!(named, format!("{}/diary", root));
        let main = get_repo_path(&None).unwrap();
        assert_eq!(main, format!("{}/mm_main_local", root));
    }
}
