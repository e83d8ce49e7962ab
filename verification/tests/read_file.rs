use zed_logic::read_file::{
    check_path_settings, directory_error, initial_title, location_row, not_found_error,
    reads_line_range, result_tag, PathSettings, ReadFileToolInput,
};

fn input(start: Option<u32>, end: Option<u32>) -> ReadFileToolInput {
    ReadFileToolInput { path: "src/main.rs".to_string(), start_line: start, end_line: end }
}

#[test]
fn titles_name_the_lines() {
    assert_eq!(
        initial_title(Some(&input(Some(10), Some(20))), Some("proj/src/main.rs")),
        "Read file `proj/src/main.rs` (lines 10-20)"
    );
    assert_eq!(
        initial_title(Some(&input(Some(7), None)), Some("proj/src/main.rs")),
        "Read file `proj/src/main.rs` (from line 7)"
    );
    assert_eq!(
        initial_title(Some(&input(None, Some(5))), Some("proj/src/main.rs")),
        "Read file `proj/src/main.rs`"
    );
    assert_eq!(initial_title(Some(&input(None, None)), None), "Read file");
    assert_eq!(initial_title(None, Some("x")), "Read file");
}

#[test]
fn location_points_at_the_row_before() {
    assert_eq!(location_row(Some(1)), Some(0));
    assert_eq!(location_row(Some(0)), Some(0));
    assert_eq!(location_row(Some(42)), Some(41));
    assert_eq!(location_row(None), None);
}

#[test]
fn settings_refusals_in_order() {
    let none = PathSettings {
        global_excluded: false,
        global_private: false,
        worktree_excluded: false,
        worktree_private: false,
    };
    assert_eq!(check_path_settings("a.env", none), Ok(()));
    let both = PathSettings { global_private: true, worktree_excluded: true, ..none };
    assert_eq!(
        check_path_settings("a.env", both),
        Err("Cannot read file because its path matches the global `private_files` setting: a.env".to_string())
    );
    let excluded = PathSettings { global_excluded: true, global_private: true, ..none };
    assert_eq!(
        check_path_settings("x", excluded),
        Err("Cannot read file because its path matches the global `file_scan_exclusions` setting: x".to_string())
    );
    let worktree = PathSettings { worktree_private: true, ..none };
    assert_eq!(
        check_path_settings("y", worktree),
        Err("Cannot read file because its path matches the worktree `private_files` setting: y".to_string())
    );
    let worktree_excluded = PathSettings { worktree_excluded: true, ..none };
    assert_eq!(
        check_path_settings("z", worktree_excluded),
        Err("Cannot read file because its path matches the worktree `file_scan_exclusions` setting: z".to_string())
    );
}

#[test]
fn error_texts() {
    assert_eq!(
        directory_error("src"),
        "src is a directory, not a file. Use the list_directory tool to explore directory contents."
    );
    assert_eq!(not_found_error("gone.rs"), "gone.rs not found");
}

#[test]
fn result_tags_and_ranges() {
    assert_eq!(result_tag("src/main.rs", false), "src/main.rs");
    assert_eq!(result_tag("src/main.rs", true), "");
    assert!(reads_line_range(&input(Some(1), None)));
    assert!(reads_line_range(&input(None, Some(1))));
    assert!(!reads_line_range(&input(None, None)));
}
