//! How the Markdown preview follows its source editor: which editor events
//! reparse or move the preview, when an update is scheduled, which editor
//! the preview binds to, and what a click in the preview edits.
use vstd::prelude::*;

verus! {

/// The events of the source editor that the preview listens to.
#[derive(Clone, Copy, Debug, PartialEq, Eq, Structural)]
pub enum SourceEditorEvent {
    Edited,
    BufferEdited,
    DirtyChanged,
    BuffersEdited,
    FileHandleChanged,
    SelectionsChanged,
    Other,
}

/// What the preview does on an event of its source editor.
#[derive(Clone, Copy, Debug, PartialEq, Eq, Structural)]
pub enum SourceEditorReaction {
    /// Reparse once typing pauses.
    ReparseDebounced,
    /// Take the new file's directory as base, reparse at once, and tell
    /// that the source file changed.
    RebaseAndReparse,
    /// Move the preview to the selection.
    FollowSelection,
    Ignore,
}

/// The preview's reaction to an event of its source editor.
pub fn source_editor_reaction(event: SourceEditorEvent) -> (r: SourceEditorReaction)
    ensures
        r == match event {
            SourceEditorEvent::Edited | SourceEditorEvent::BufferEdited
            | SourceEditorEvent::DirtyChanged
            | SourceEditorEvent::BuffersEdited => SourceEditorReaction::ReparseDebounced,
            SourceEditorEvent::FileHandleChanged => SourceEditorReaction::RebaseAndReparse,
            SourceEditorEvent::SelectionsChanged => SourceEditorReaction::FollowSelection,
            SourceEditorEvent::Other => SourceEditorReaction::Ignore,
        },
{
    match event {
        SourceEditorEvent::Edited | SourceEditorEvent::BufferEdited
        | SourceEditorEvent::DirtyChanged
        | SourceEditorEvent::BuffersEdited => SourceEditorReaction::ReparseDebounced,
        SourceEditorEvent::FileHandleChanged => SourceEditorReaction::RebaseAndReparse,
        SourceEditorEvent::SelectionsChanged => SourceEditorReaction::FollowSelection,
        SourceEditorEvent::Other => SourceEditorReaction::Ignore,
    }
}

/// Whether an update of the preview is scheduled: there is a source editor,
/// and a debounced update does not pile onto one already pending (an
/// immediate one replaces it).
pub fn schedules_update(has_source_editor: bool, wait_for_debounce: bool, update_pending: bool) -> (r:
    bool)
    ensures
        r == (has_source_editor && !(wait_for_debounce && update_pending)),
{
    has_source_editor && !(wait_for_debounce && update_pending)
}

/// The source offset of the selection, when it lies in the preview's own
/// buffer.
pub fn selected_source_index(
    preview_buffer: Option<u64>,
    selection_buffer: Option<u64>,
    offset: usize,
) -> (r: Option<usize>)
    ensures
        r == if preview_buffer is Some && selection_buffer == preview_buffer {
            Some(offset)
        } else {
            None
        },
{
    match (preview_buffer, selection_buffer) {
        (Some(a), Some(b)) => if a == b {
            Some(offset)
        } else {
            None
        },
        _ => None,
    }
}

/// An editor of the workspace: its id and the buffer it shows, when it
/// shows a single one.
#[derive(Clone, Copy, Debug, PartialEq, Eq, Structural)]
pub struct EditorSlot {
    pub editor_id: u64,
    pub buffer_id: Option<u64>,
}

/// `i` is the first position of an editor of `buffer`.
pub open spec fn first_of_buffer(editors: Seq<EditorSlot>, buffer: u64, i: int) -> bool {
    &&& 0 <= i < editors.len()
    &&& editors[i].buffer_id == Some(buffer)
    &&& forall|j: int| 0 <= j < i ==> editors[j].buffer_id != Some(buffer)
}

/// The editor that the preview should be bound to among the workspace's
/// editors: the current one when it shows the preview's buffer, else the
/// first editor of that buffer, else none.
pub open spec fn canonical_editor(
    editors: Seq<EditorSlot>,
    current: u64,
    buffer: u64,
) -> Option<u64> {
    if exists|i: int|
        0 <= i < editors.len() && editors[i].buffer_id == Some(buffer) && editors[i].editor_id
            == current {
        Some(current)
    } else if exists|i: int| 0 <= i < editors.len() && editors[i].buffer_id == Some(buffer) {
        Some(editors[choose|i: int| first_of_buffer(editors, buffer, i)].editor_id)
    } else {
        None
    }
}

/// Finds the editor the preview should follow for its buffer.
pub fn find_canonical_editor(editors: &[EditorSlot], current: u64, buffer: Option<u64>) -> (r:
    Option<u64>)
    ensures
        r == match buffer {
            Some(b) => canonical_editor(editors@, current, b),
            None => None,
        },
{
    if buffer.is_none() {
        return None;
    }
    let b = buffer.unwrap();
    assert(buffer == Some(b));
    let mut fallback: Option<usize> = None;
    let mut i: usize = 0;
    while i < editors.len()
        invariant
            buffer == Some(b),
            i <= editors@.len(),
            forall|j: int|
                0 <= j < i && editors@[j].buffer_id == Some(b) ==> editors@[j].editor_id != current,
            match fallback {
                Some(f) => f < i && editors@[f as int].buffer_id == Some(b) && forall|j: int|
                    0 <= j < f ==> editors@[j].buffer_id != Some(b),
                None => forall|j: int| 0 <= j < i ==> editors@[j].buffer_id != Some(b),
            },
        decreases editors@.len() - i,
    {
        let e = editors[i];
        match e.buffer_id {
            Some(eb) => {
                if eb == b {
                    if e.editor_id == current {
                        proof {
                            let s = editors@;
                            assert(s[i as int].buffer_id == Some(b) && s[i as int].editor_id
                                == current);
                        }
                        return Some(current);
                    }
                    if fallback.is_none() {
                        fallback = Some(i);
                    }
                }
            },
            None => {},
        }
        i = i + 1;
    }
    proof {
        let s = editors@;
        assert(!exists|k: int|
            0 <= k < s.len() && s[k].buffer_id == Some(b) && s[k].editor_id == current);
    }
    match fallback {
        Some(f) => {
            proof {
                let s = editors@;
                assert(first_of_buffer(s, b, f as int));
                let c = choose|k: int| first_of_buffer(s, b, k);
                assert(first_of_buffer(s, b, c));
                if c < f {
                    assert(s[c].buffer_id != Some(b));
                } else if c > f {
                    assert(s[f as int].buffer_id != Some(b));
                }
                assert(c == f);
            }
            Some(editors[f].editor_id)
        },
        None => None,
    }
}

/// The editor the preview rebinds to after the workspace gained or lost an
/// item: the canonical editor, when it is not the bound one already.
pub fn rebind_after_workspace_change(
    item_added_or_removed: bool,
    candidate: Option<u64>,
    bound: Option<u64>,
) -> (r: Option<u64>)
    ensures
        r == if item_added_or_removed && candidate is Some && candidate != bound {
            candidate
        } else {
            None
        },
{
    if !item_added_or_removed {
        return None;
    }
    match candidate {
        Some(c) => match bound {
            Some(b) => if b == c {
                None
            } else {
                Some(c)
            },
            None => Some(c),
        },
        None => None,
    }
}

/// What binding the preview to an editor does.
#[derive(Clone, Copy, Debug, PartialEq, Eq, Structural)]
pub enum BindOutcome {
    /// It is bound to that editor already.
    Unchanged,
    /// Bound; `true` when it replaced another editor (which is announced).
    Bound(bool),
}

/// Binds the preview to an editor.
pub fn bind_editor(bound: Option<u64>, editor: u64) -> (r: BindOutcome)
    ensures
        r == if bound == Some(editor) {
            BindOutcome::Unchanged
        } else {
            BindOutcome::Bound(bound is Some)
        },
{
    match bound {
        Some(b) => if b == editor {
            BindOutcome::Unchanged
        } else {
            BindOutcome::Bound(true)
        },
        None => BindOutcome::Bound(false),
    }
}

/// Whether the active item of the workspace becomes the preview's source
/// (in follow mode): it is not the preview itself, it is an editor, and it
/// edits Markdown.
pub fn follows_active_item(is_preview_itself: bool, is_editor: bool, is_markdown: bool) -> (r:
    bool)
    ensures
        r == (!is_preview_itself && is_editor && is_markdown),
{
    !is_preview_itself && is_editor && is_markdown
}

/// The task marker written when a checkbox is toggled, and the one that the
/// source holds before: `[x]` when checking, `[ ]` when unchecking.
pub fn checkbox_markers(new_checked: bool) -> (r: (&'static str, &'static str))
    ensures
        new_checked ==> r.0@ == "[x]"@ && r.1@ == "[ ]"@,
        !new_checked ==> r.0@ == "[ ]"@ && r.1@ == "[x]"@,
{
    if new_checked {
        ("[x]", "[ ]")
    } else {
        ("[ ]", "[x]")
    }
}

/// Whether a click on the preview moves the source cursor there: a double
/// click, when the preview has a source editor.
pub fn click_moves_cursor(has_source_editor: bool, click_count: usize) -> (r: bool)
    ensures
        r == (has_source_editor && click_count == 2),
{
    has_source_editor && click_count == 2
}

} // verus!
