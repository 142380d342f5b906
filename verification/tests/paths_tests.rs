use grm::config::Config;
use grm::paths::{
    cat_paths, extract_repo_paths, get_local_repo_path, get_media_repo_path,
    get_remote_repo_path, passes_tree_filter, qualify_repo_paths, repo_basename,
};

#[test]
fn cat_paths_joins_base_and_relative() {
    assert_eq!(cat_paths("base", "rel"), "base/rel");
    assert_eq!(cat_paths("/base/dir", "a/b"), "/base/dir/a/b");
}

#[test]
fn cat_paths_absolute_relative_is_unchanged() {
    assert_eq!(cat_paths("base", "/abs/path"), "/abs/path");
}

#[test]
fn cat_paths_empty_sides() {
    assert_eq!(cat_paths("", "rel"), "rel");
    assert_eq!(cat_paths("base", ""), "base");
    assert_eq!(cat_paths("", ""), "");
}

#[test]
fn cat_paths_strips_redundant_dot_slash() {
    assert_eq!(cat_paths("./base", "./rel"), "base/rel");
    assert_eq!(cat_paths("././x", "y"), "x/y");
}

#[test]
fn basename_strips_one_git_suffix() {
    assert_eq!(repo_basename("group/name.git"), "name");
    assert_eq!(repo_basename("name"), "name");
    assert_eq!(repo_basename("a/b.git.git"), "b.git");
}

#[test]
fn basename_edge_cases() {
    assert_eq!(repo_basename(".git"), ".git");
    assert_eq!(repo_basename("x/.git"), ".git");
    assert_eq!(repo_basename("trailing/"), "");
    assert_eq!(repo_basename(""), "");
}

#[test]
fn extract_defaults_local_and_media_to_basename() {
    let cells = vec!["group/name.git".to_string()];
    let spec = extract_repo_paths(&cells);
    assert_eq!(spec.remote_rel, "group/name.git");
    assert_eq!(spec.local_rel, "name");
    assert_eq!(spec.media_rel, "name");
}

#[test]
fn extract_respects_overrides() {
    let cells = vec!["r/x.git".to_string(), "L".to_string(), "M".to_string()];
    let spec = extract_repo_paths(&cells);
    assert_eq!(spec.local_rel, "L");
    assert_eq!(spec.media_rel, "M");
}

#[test]
fn extract_empty_cells_fall_back_to_basename() {
    let cells = vec!["r/x.git".to_string(), String::new(), String::new()];
    let spec = extract_repo_paths(&cells);
    assert_eq!(spec.local_rel, "x");
    assert_eq!(spec.media_rel, "x");
}

#[test]
fn qualify_prefixes_each_component() {
    let mut config = Config::new();
    config.rpath_base = "/srv".to_string();
    config.remote_dir = "repos".to_string();
    config.local_dir = "work".to_string();
    config.gm_dir = "media".to_string();
    let (remote, local, media) = qualify_repo_paths(&config, "a/b.git", "b", "b");
    assert_eq!(remote, "/srv/repos/a/b.git");
    assert_eq!(local, "work/b");
    assert_eq!(media, "media/b");
}

#[test]
fn repo_path_helpers_join_against_their_directories() {
    let mut config = Config::new();
    config.remote_dir = "repos".to_string();
    config.local_dir = "work".to_string();
    config.gm_dir = "media".to_string();
    assert_eq!(get_remote_repo_path(&config, Some("a")), "repos/a");
    assert_eq!(get_local_repo_path(&config, Some("a")), "work/a");
    assert_eq!(get_media_repo_path(&config, Some("a")), "media/a");
    assert_eq!(get_remote_repo_path(&config, None), "repos");
    assert_eq!(get_local_repo_path(&config, Some("")), "work");
}

#[test]
fn tree_filter_empty_passes_everything() {
    assert!(passes_tree_filter("", "/anywhere/at/all"));
}

#[test]
fn tree_filter_requires_substring_of_absolute_path() {
    assert!(passes_tree_filter("/home/me/work", "/home/me/work/repo"));
    assert!(passes_tree_filter("/home/me/work", "/mnt/c/home/me/work/repo"));
    assert!(!passes_tree_filter("/home/me/work", "/home/other/repo"));
}

#[test]
fn tree_filter_normalizes_backslashes() {
    assert!(passes_tree_filter("C:\\repos", "C:/repos/x"));
    assert!(passes_tree_filter("C:/repos", "C:\\repos\\x"));
}
