use zed_logic::paths::{join_write_paths, normalize_path};

#[test]
fn test_join_write_paths_resolves_relative_and_absolute() {
    let base = "/project";
    let abs = "/abs/path";
    let joined = join_write_paths(
        &[
            abs.to_string(),
            "relative/dir".to_string(),
            "file.txt".to_string(),
        ],
        Some(base),
        false,
    );
    assert_eq!(
        joined,
        vec![
            abs.to_string(),
            "/project/relative/dir".to_string(),
            "/project/file.txt".to_string(),
        ]
    );
}

#[test]
fn test_join_write_paths_drops_relative_without_base() {
    let abs = "/abs/keep";
    let joined = join_write_paths(&[abs.to_string(), "relative/drop".to_string()], None, false);
    assert_eq!(joined, vec![abs.to_string()]);
}

#[test]
fn test_join_write_paths_converts_wsl_drive_mounts_on_windows() {
    let joined = join_write_paths(
        &["/mnt/c/example/write-root".to_string()],
        Some("C:\\project"),
        true,
    );
    assert_eq!(joined, vec!["C:\\example\\write-root".to_string()]);
}

#[test]
fn test_join_write_paths_only_converts_wsl_drive_mounts_for_windows_paths() {
    let joined = join_write_paths(
        &["/mnt/c/example/write-root".to_string()],
        Some("/project"),
        false,
    );
    assert_eq!(joined, vec!["/mnt/c/example/write-root".to_string()]);
}

#[test]
fn test_join_write_paths_preserves_wsl_absolute_paths_on_windows() {
    let joined = join_write_paths(&["/home/example".to_string()], Some("C:\\project"), true);
    assert_eq!(joined, vec!["/home/example".to_string()]);
}

#[test]
fn test_join_write_paths_normalizes_parent_traversal() {
    let base = "/project";
    let joined = join_write_paths(
        &["build/../../escape".to_string(), "/abs/a/../b".to_string()],
        Some(base),
        false,
    );
    assert_eq!(joined, vec!["/escape".to_string(), "/abs/b".to_string()]);
}

#[test]
fn join_write_paths_normalizes_windows_drive_paths() {
    let joined = join_write_paths(
        &["build/../../escape".to_string(), "C:\\abs\\a\\..\\b".to_string()],
        Some("C:\\project"),
        true,
    );
    assert_eq!(joined, vec!["C:\\escape".to_string(), "C:\\abs\\b".to_string()]);
}

#[test]
fn join_write_paths_maps_bare_drive_mount_to_drive_root() {
    let joined = join_write_paths(&["/mnt/d".to_string()], None, true);
    assert_eq!(joined, vec!["D:\\".to_string()]);
}

#[test]
fn normalize_path_collapses_dots() {
    assert_eq!(normalize_path("/tmp/../../"), "/");
    assert_eq!(normalize_path("a/./b/../c"), "a/c");
    assert_eq!(normalize_path("../x/.."), "..");
    assert_eq!(normalize_path("."), "");
    assert_eq!(normalize_path("//a//b/"), "/a/b");
    assert_eq!(normalize_path("../../a"), "../../a");
}
