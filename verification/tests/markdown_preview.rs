use zed_logic::markdown_preview::{
    is_markdown_path, preview_url_path, resolve_preview_image, split_preview_url,
    url_click_action, MarkdownPreviewMode, PreviewImage, UrlClickAction,
};
use zed_logic::markdown_sync::{
    bind_editor, checkbox_markers, click_moves_cursor, find_canonical_editor, follows_active_item,
    rebind_after_workspace_change, schedules_update, selected_source_index,
    source_editor_reaction, BindOutcome, EditorSlot, SourceEditorEvent, SourceEditorReaction,
};

#[test]
fn modes_round_trip_through_the_database() {
    for mode in [MarkdownPreviewMode::Default, MarkdownPreviewMode::Follow] {
        assert_eq!(MarkdownPreviewMode::from_db(mode.to_db()), mode);
    }
    assert_eq!(MarkdownPreviewMode::Follow.to_db(), 1);
    assert_eq!(MarkdownPreviewMode::from_db(7), MarkdownPreviewMode::Default);
}

#[test]
fn markdown_paths() {
    assert!(is_markdown_path("README.md"));
    assert!(is_markdown_path("/docs/Guide.MarkDown"));
    assert!(is_markdown_path("notes/a.b.MD"));
    assert!(is_markdown_path("dir/file.md/."));
    assert!(!is_markdown_path(".md"));
    assert!(!is_markdown_path("file.mdx"));
    assert!(!is_markdown_path("dir/.."));
    assert!(!is_markdown_path(""));
    assert!(!is_markdown_path("md"));
}

#[test]
fn links_split_at_the_first_hash() {
    assert_eq!(split_preview_url("a.md#b#c"), ("a.md".to_string(), Some("b#c".to_string())));
    assert_eq!(split_preview_url("a.md"), ("a.md".to_string(), None));
    assert_eq!(split_preview_url("#top"), (String::new(), Some("top".to_string())));
}

#[test]
fn link_clicks() {
    match url_click_action("#intro") {
        UrlClickAction::ScrollToHeading(s) => assert_eq!(s, "intro"),
        _ => panic!("a fragment scrolls"),
    }
    match url_click_action("other.md#intro") {
        UrlClickAction::Open(p) => assert_eq!(p, "other.md"),
        _ => panic!("a path opens"),
    }
    assert!(matches!(url_click_action(""), UrlClickAction::Nothing));
}

#[test]
fn link_paths_are_decoded() {
    assert_eq!(preview_url_path("my%20file.md#x"), "my file.md");
    assert_eq!(preview_url_path("plain.md"), "plain.md");
    assert_eq!(preview_url_path("bad%FF.md"), "bad%FF.md");
}

#[test]
fn image_sources() {
    assert!(matches!(resolve_preview_image("data:image/png;base64,xx", Some("/b"), None), PreviewImage::Skip));
    match resolve_preview_image("https://x/y.png", None, None) {
        PreviewImage::Uri(u) => assert_eq!(u, "https://x/y.png"),
        _ => panic!("web images are used as they are"),
    }
    match resolve_preview_image("/img/a%20b.png", Some("/base"), Some("/root")) {
        PreviewImage::WorkspaceFile(p) => assert_eq!(p, "/root/img/a b.png"),
        _ => panic!("rooted paths resolve in the workspace"),
    }
    match resolve_preview_image("/abs.png", Some("/base"), None) {
        PreviewImage::File(p) => assert_eq!(p, "/abs.png"),
        _ => panic!("absolute paths stay"),
    }
    match resolve_preview_image("rel/x.png", Some("/base/"), None) {
        PreviewImage::File(p) => assert_eq!(p, "/base/rel/x.png"),
        _ => panic!("relative paths resolve against the file's directory"),
    }
    assert!(matches!(resolve_preview_image("rel.png", None, Some("/root")), PreviewImage::Skip));
}

#[test]
fn editor_events() {
    assert_eq!(source_editor_reaction(SourceEditorEvent::Edited), SourceEditorReaction::ReparseDebounced);
    assert_eq!(source_editor_reaction(SourceEditorEvent::DirtyChanged), SourceEditorReaction::ReparseDebounced);
    assert_eq!(source_editor_reaction(SourceEditorEvent::FileHandleChanged), SourceEditorReaction::RebaseAndReparse);
    assert_eq!(source_editor_reaction(SourceEditorEvent::SelectionsChanged), SourceEditorReaction::FollowSelection);
    assert_eq!(source_editor_reaction(SourceEditorEvent::Other), SourceEditorReaction::Ignore);
}

#[test]
fn update_scheduling() {
    assert!(schedules_update(true, true, false));
    assert!(!schedules_update(true, true, true));
    assert!(schedules_update(true, false, true));
    assert!(!schedules_update(false, false, false));
    assert_eq!(selected_source_index(Some(3), Some(3), 42), Some(42));
    assert_eq!(selected_source_index(Some(3), Some(4), 42), None);
    assert_eq!(selected_source_index(None, None, 42), None);
}

#[test]
fn canonical_editor_for_a_buffer() {
    let slot = |editor_id, buffer_id| EditorSlot { editor_id, buffer_id };
    let editors = [slot(1, Some(9)), slot(2, Some(7)), slot(3, Some(7)), slot(4, None)];
    assert_eq!(find_canonical_editor(&editors, 3, Some(7)), Some(3));
    assert_eq!(find_canonical_editor(&editors, 99, Some(7)), Some(2));
    assert_eq!(find_canonical_editor(&editors, 1, Some(5)), None);
    assert_eq!(find_canonical_editor(&editors, 1, None), None);
    assert_eq!(rebind_after_workspace_change(true, Some(2), Some(3)), Some(2));
    assert_eq!(rebind_after_workspace_change(true, Some(3), Some(3)), None);
    assert_eq!(rebind_after_workspace_change(false, Some(2), Some(3)), None);
    assert_eq!(rebind_after_workspace_change(true, Some(2), None), Some(2));
}

#[test]
fn binding_editors() {
    assert_eq!(bind_editor(Some(1), 1), BindOutcome::Unchanged);
    assert_eq!(bind_editor(Some(1), 2), BindOutcome::Bound(true));
    assert_eq!(bind_editor(None, 2), BindOutcome::Bound(false));
    assert!(follows_active_item(false, true, true));
    assert!(!follows_active_item(true, true, true));
    assert!(!follows_active_item(false, true, false));
}

#[test]
fn checkbox_and_clicks() {
    assert_eq!(checkbox_markers(true), ("[x]", "[ ]"));
    assert_eq!(checkbox_markers(false), ("[ ]", "[x]"));
    assert!(click_moves_cursor(true, 2));
    assert!(!click_moves_cursor(true, 1));
    assert!(!click_moves_cursor(false, 2));
}
