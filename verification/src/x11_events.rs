//! Decisions of the X11 event loop: the drag-and-drop protocol, the sync
//! counter, modifier and layout changes, dead-key composition, the
//! modifiers of a key event, and which window-manager states a window has.
use vstd::prelude::*;

use crate::wayland::ClickState;
use crate::x11::{atom_supported, XcbAtoms};

verus! {

/// The atoms of the drag-and-drop client messages.
#[derive(Clone, Copy, Debug)]
pub struct XdndAtoms {
    pub enter: u32,
    pub leave: u32,
    pub position: u32,
    pub drop: u32,
}

/// Where the pointer is in a window, in device pixels.
#[derive(Clone, Copy, Debug, PartialEq, Eq, Structural)]
pub struct DropPosition {
    pub x: i32,
    pub y: i32,
}

/// The state of a drag over a window: the window it comes from, the type to
/// ask for, whether the data was fetched, and where the pointer is.
#[derive(Clone, Copy, Debug, PartialEq, Eq, Structural)]
pub struct XdndState {
    pub other_window: u32,
    pub drag_type: u32,
    pub retrieved: bool,
    pub position: DropPosition,
}

impl XdndState {
    /// No drag.
    pub open spec fn spec_idle() -> XdndState {
        XdndState { other_window: 0, drag_type: 0, retrieved: false, position: DropPosition { x: 0, y: 0 } }
    }

    /// No drag.
    pub fn idle() -> (r: XdndState)
        ensures
            r == XdndState::spec_idle(),
    {
        XdndState { other_window: 0, drag_type: 0, retrieved: false, position: DropPosition { x: 0, y: 0 } }
    }
}

/// What a drag-and-drop message asks of the client.
#[derive(Clone, Copy, Debug, PartialEq, Eq, Structural)]
pub enum XdndAction {
    Nothing,
    /// The source offers more than three types: read its type list and
    /// take the first supported one (`xdnd_first_supported_atom`).
    ReadTypeList,
    /// The drag left: report it pending at the last position, then exited.
    Exited { position: DropPosition },
    /// The pointer moved: ask for the data (unless it was fetched) with this
    /// type and time, answer with a status for this action, and report the
    /// drag pending at the new position.
    Moved { convert_type: Option<u32>, time: u32, status_action: u32, position: DropPosition },
    /// The drop happened: answer that it is finished and report it
    /// submitted at the last position.
    Dropped { position: DropPosition },
}

/// The first of `types` that the window takes, if any.
pub open spec fn find_supported(types: Seq<u32>, atoms: XcbAtoms) -> Option<u32>
    decreases types.len(),
{
    if types.len() == 0 {
        None
    } else if atom_supported(types[0], atoms) {
        Some(types[0])
    } else {
        find_supported(types.skip(1), atoms)
    }
}

/// The state and action after a drag-and-drop message: enter names the
/// source (data 0) and either says that it offers more than three types
/// (bit 0 of data 1) or lists them (data 2 to 4, the first supported one is
/// taken); position moves the drag and carries the time (data 3) and action
/// (data 4); leave and drop end the drag; other messages change nothing.
pub open spec fn spec_xdnd_message(
    state: XdndState,
    message_type: u32,
    data: Seq<u32>,
    pointer: Option<DropPosition>,
    messages: XdndAtoms,
    types: XcbAtoms,
) -> (XdndState, XdndAction) {
    if message_type == messages.enter {
        let entered = XdndState { other_window: data[0], ..state };
        if data[1] & 1 == 1 {
            (entered, XdndAction::ReadTypeList)
        } else {
            match find_supported(seq![data[2], data[3], data[4]], types) {
                Some(t) => (XdndState { drag_type: t, ..entered }, XdndAction::Nothing),
                None => (entered, XdndAction::Nothing),
            }
        }
    } else if message_type == messages.leave {
        (XdndState::spec_idle(), XdndAction::Exited { position: state.position })
    } else if message_type == messages.position {
        let p = match pointer {
            Some(p) => p,
            None => state.position,
        };
        (
            XdndState { position: p, ..state },
            XdndAction::Moved {
                convert_type: if state.retrieved {
                    None
                } else {
                    Some(state.drag_type)
                },
                time: data[3],
                status_action: data[4],
                position: p,
            },
        )
    } else if message_type == messages.drop {
        (XdndState::spec_idle(), XdndAction::Dropped { position: state.position })
    } else {
        (state, XdndAction::Nothing)
    }
}

/// Handles a drag-and-drop client message of type `message_type` with data
/// `data`; `pointer` is where the pointer is in the window, when it could be
/// asked.
pub fn xdnd_message(
    state: &mut XdndState,
    message_type: u32,
    data: [u32; 5],
    pointer: Option<DropPosition>,
    messages: &XdndAtoms,
    types: &XcbAtoms,
) -> (r: XdndAction)
    ensures
        (*final(state), r) == spec_xdnd_message(
            *old(state),
            message_type,
            data@,
            pointer,
            *messages,
            *types,
        ),
{
    if message_type == messages.enter {
        state.other_window = data[0];
        if data[1] & 1 == 1 {
            return XdndAction::ReadTypeList;
        }
        let ghost s = seq![data[2], data[3], data[4]];
        proof {
            assert(s.skip(1) =~= seq![data[3], data[4]]);
            assert(s.skip(1).skip(1) =~= seq![data[4]]);
            assert(s.skip(1).skip(1).skip(1) =~= Seq::<u32>::empty());
            reveal_with_fuel(find_supported, 4);
        }
        if crate::x11::xdnd_is_atom_supported(data[2], types) {
            state.drag_type = data[2];
        } else if crate::x11::xdnd_is_atom_supported(data[3], types) {
            state.drag_type = data[3];
        } else if crate::x11::xdnd_is_atom_supported(data[4], types) {
            state.drag_type = data[4];
        }
        XdndAction::Nothing
    } else if message_type == messages.leave {
        let position = state.position;
        *state = XdndState::idle();
        XdndAction::Exited { position }
    } else if message_type == messages.position {
        match pointer {
            Some(p) => {
                state.position = p;
            },
            None => {},
        }
        let convert_type = if state.retrieved {
            None
        } else {
            Some(state.drag_type)
        };
        XdndAction::Moved { convert_type, time: data[3], status_action: data[4], position: state.position }
    } else if message_type == messages.drop {
        let position = state.position;
        *state = XdndState::idle();
        XdndAction::Dropped { position }
    } else {
        XdndAction::Nothing
    }
}

/// The dropped data arrived: it is not asked for again during this drag.
pub fn xdnd_data_retrieved(state: &mut XdndState)
    ensures
        final(state).retrieved,
        final(state).other_window == old(state).other_window,
        final(state).drag_type == old(state).drag_type,
        final(state).position == old(state).position,
{
    state.retrieved = true;
}

/// The data of the status message that answers a position message: the
/// window, "will accept" (1), no rectangle, and the action.
pub fn xdnd_status_data(window: u32, action: u32) -> (r: [u32; 5])
    ensures
        r@ == seq![window, 1u32, 0u32, 0u32, action],
{
    [window, 1, 0, 0, action]
}

/// The data of the finished message that answers a drop: the window,
/// "accepted" (1), and the copy action.
pub fn xdnd_finished_data(window: u32, copy_action: u32) -> (r: [u32; 5])
    ensures
        r@ == seq![window, 1u32, copy_action, 0u32, 0u32],
{
    [window, 1, copy_action, 0, 0]
}

/// The value of a sync counter (`_NET_WM_SYNC_REQUEST`), from the low and
/// high words of the request (data 2 and 3).
#[derive(Clone, Copy, Debug, PartialEq, Eq, Structural)]
pub struct SyncValue {
    pub lo: u32,
    pub hi: i32,
}

/// The counter value that a sync request carries: the high word is the
/// request's word taken as signed.
pub fn sync_request_value(lo_word: u32, hi_word: u32) -> (r: SyncValue)
    ensures
        r.lo == lo_word,
        r.hi == hi_word as i32,
        r.hi as int * 0x1_0000_0000 + r.lo as int == if hi_word < 0x8000_0000 {
            hi_word as int * 0x1_0000_0000 + lo_word as int
        } else {
            (hi_word as int - 0x1_0000_0000) * 0x1_0000_0000 + lo_word as int
        },
{
    let hi: i32 = #[verifier::truncate] (hi_word as i32);
    proof {
        assert(hi_word < 0x8000_0000 ==> hi_word as i32 == hi_word as int) by (bit_vector);
        assert(hi_word >= 0x8000_0000 ==> hi_word as i32 == hi_word as int - 0x1_0000_0000) by (
        bit_vector);
    }
    SyncValue { lo: lo_word, hi }
}

/// What a change of the keyboard state sends.
#[derive(Clone, Copy, Debug, PartialEq, Eq, Structural)]
pub struct KeyboardStateChange {
    /// The focused window hears of new modifiers (or caps lock).
    pub notify_modifiers: bool,
    /// The last reported modifiers and caps lock are updated.
    pub record: bool,
    /// The keyboard layout changed.
    pub layout_changed: bool,
}

/// What an xkb state change does: new modifiers or caps lock are reported
/// to the focused window (and recorded) when there is one; a new layout
/// group counts as a layout change.
pub fn keyboard_state_change(
    modifiers: u32,
    capslock: bool,
    last_modifiers: u32,
    last_capslock: bool,
    has_focused_window: bool,
    old_layout: u32,
    new_layout: u32,
) -> (r: KeyboardStateChange)
    ensures
        r.notify_modifiers == ((modifiers != last_modifiers || capslock != last_capslock)
            && has_focused_window),
        r.record == r.notify_modifiers,
        r.layout_changed == (old_layout != new_layout),
{
    let changed = modifiers != last_modifiers || capslock != last_capslock;
    KeyboardStateChange {
        notify_modifiers: changed && has_focused_window,
        record: changed && has_focused_window,
        layout_changed: old_layout != new_layout,
    }
}

/// The modifier keys of the core protocol (shift, lock, control, mod1 to
/// mod5): the low eight bits of a key event's state.
pub const CORE_MODIFIER_MASK: u16 = 0xff;

/// The depressed modifiers of a key event: the modifier keys that its
/// state holds, other than those latched or locked.
pub fn depressed_modifiers(event_state: u16, latched: u32, locked: u32) -> (r: u32)
    ensures
        r == ((event_state & CORE_MODIFIER_MASK) as u32) & !(latched | locked),
        r & latched == 0,
        r & locked == 0,
        r <= 0xff,
{
    let active: u32 = (event_state & CORE_MODIFIER_MASK) as u32;
    let r = active & !(latched | locked);
    proof {
        assert(active <= 0xff) by (bit_vector)
            requires
                active == ((event_state & 0xff) as u32),
        ;
        assert(r & latched == 0 && r & locked == 0 && r <= 0xff) by (bit_vector)
            requires
                r == active & !(latched | locked),
                active <= 0xff,
        ;
    }
    r
}

/// The state of a dead-key composition after a key.
#[derive(Clone, Copy, Debug, PartialEq, Eq, Structural)]
pub enum ComposeStatus {
    Nothing,
    Composing,
    Composed,
    Cancelled,
}

/// What a key does to composition.
pub struct ComposeOutcome {
    /// The character the key types, when composition replaces it.
    pub key_char: Option<Option<String>>,
    /// The composed key's name, when composition replaces it.
    pub key_name: Option<String>,
    /// The pre-edit text afterwards.
    pub pre_edit: Option<String>,
    /// The pre-edit text shown to the window.
    pub show_pre_edit: Option<String>,
    /// The text committed to the window.
    pub commit: Option<String>,
    /// The key is fed to the composer again (after a cancel).
    pub feed_again: bool,
}

pub open spec fn opt_text(s: Option<String>) -> Option<Seq<char>> {
    match s {
        Some(t) => Some(t@),
        None => None,
    }
}

fn copy_opt(s: &Option<String>) -> (r: Option<String>)
    ensures
        opt_text(r) == opt_text(*s),
{
    match s {
        Some(t) => Some(t.clone()),
        None => None,
    }
}

/// The effect of a key on a composition in progress: a finished one types
/// the composed text and ends the pre-edit; one that goes on types nothing
/// and shows the composed text so far (else the dead key itself); a
/// cancelled one commits the pre-edit, shows the dead key, and feeds the
/// key again. `composed` is the composer's text, `composed_name` the name
/// of its keysym, `dead_key` the text of the key as a dead key.
pub fn compose_step(
    status: ComposeStatus,
    composed: Option<String>,
    composed_name: Option<String>,
    dead_key: Option<String>,
    pre_edit: Option<String>,
) -> (r: ComposeOutcome)
    ensures
        match status {
            ComposeStatus::Composed => {
                &&& r.key_char matches Some(c) && opt_text(c) == opt_text(composed)
                &&& opt_text(r.key_name) == opt_text(composed_name)
                &&& r.pre_edit is None
                &&& r.show_pre_edit is None
                &&& r.commit is None
                &&& !r.feed_again
            },
            ComposeStatus::Composing => {
                let shown = match composed {
                    Some(c) => Some(c@),
                    None => opt_text(dead_key),
                };
                &&& r.key_char matches Some(c) && c is None
                &&& r.key_name is None
                &&& opt_text(r.pre_edit) == shown
                &&& r.show_pre_edit matches Some(s) && Some(s@) == (match shown {
                    Some(t) => Some(t),
                    None => Some(Seq::<char>::empty()),
                })
                &&& r.commit is None
                &&& !r.feed_again
            },
            ComposeStatus::Cancelled => {
                &&& r.key_char is None
                &&& r.key_name is None
                &&& r.pre_edit is None
                &&& opt_text(r.commit) == opt_text(pre_edit)
                &&& opt_text(r.show_pre_edit) == opt_text(dead_key)
                &&& r.feed_again
            },
            ComposeStatus::Nothing => {
                &&& r.key_char is None
                &&& r.key_name is None
                &&& opt_text(r.pre_edit) == opt_text(pre_edit)
                &&& r.show_pre_edit is None
                &&& r.commit is None
                &&& !r.feed_again
            },
        },
{
    match status {
        ComposeStatus::Composed => ComposeOutcome {
            key_char: Some(composed),
            key_name: composed_name,
            pre_edit: None,
            show_pre_edit: None,
            commit: None,
            feed_again: false,
        },
        ComposeStatus::Composing => {
            let text = match composed {
                Some(c) => Some(c),
                None => dead_key,
            };
            let shown = match &text {
                Some(t) => t.clone(),
                None => String::new(),
            };
            ComposeOutcome {
                key_char: Some(None),
                key_name: None,
                pre_edit: text,
                show_pre_edit: Some(shown),
                commit: None,
                feed_again: false,
            }
        },
        ComposeStatus::Cancelled => ComposeOutcome {
            key_char: None,
            key_name: None,
            pre_edit: None,
            show_pre_edit: dead_key,
            commit: pre_edit,
            feed_again: true,
        },
        ComposeStatus::Nothing => ComposeOutcome {
            key_char: None,
            key_name: None,
            pre_edit: copy_opt(&pre_edit),
            show_pre_edit: None,
            commit: None,
            feed_again: false,
        },
    }
}

/// The atoms of the window-manager states a window follows.
#[derive(Clone, Copy, Debug)]
pub struct WmStateAtoms {
    pub focused: u32,
    pub fullscreen: u32,
    pub maximized_vert: u32,
    pub maximized_horz: u32,
    pub hidden: u32,
}

/// The window-manager states of a window.
#[derive(Clone, Copy, Debug, PartialEq, Eq, Structural)]
pub struct WmStates {
    pub active: bool,
    pub fullscreen: bool,
    pub maximized_vertical: bool,
    pub maximized_horizontal: bool,
    pub hidden: bool,
}

/// Whether the list holds `atom` where it does not stand for a state that
/// comes earlier in the order focused, fullscreen, vertical, horizontal,
/// hidden (each atom sets the first state it names).
pub open spec fn names_state(list: Seq<u32>, atom: u32, earlier: Seq<u32>) -> bool {
    list.contains(atom) && !earlier.contains(atom)
}

/// The states of a window from its `_NET_WM_STATE` atoms.
pub fn wm_states_from_atoms(list: &[u32], atoms: &WmStateAtoms) -> (r: WmStates)
    ensures
        r.active == names_state(list@, atoms.focused, seq![]),
        r.fullscreen == names_state(list@, atoms.fullscreen, seq![atoms.focused]),
        r.maximized_vertical == names_state(
            list@,
            atoms.maximized_vert,
            seq![atoms.focused, atoms.fullscreen],
        ),
        r.maximized_horizontal == names_state(
            list@,
            atoms.maximized_horz,
            seq![atoms.focused, atoms.fullscreen, atoms.maximized_vert],
        ),
        r.hidden == names_state(
            list@,
            atoms.hidden,
            seq![atoms.focused, atoms.fullscreen, atoms.maximized_vert, atoms.maximized_horz],
        ),
{
    let mut r = WmStates {
        active: false,
        fullscreen: false,
        maximized_vertical: false,
        maximized_horizontal: false,
        hidden: false,
    };
    let mut i: usize = 0;
    let ghost e1: Seq<u32> = seq![atoms.focused];
    let ghost e2: Seq<u32> = seq![atoms.focused, atoms.fullscreen];
    let ghost e3: Seq<u32> = seq![atoms.focused, atoms.fullscreen, atoms.maximized_vert];
    let ghost e4: Seq<u32> = seq![
        atoms.focused,
        atoms.fullscreen,
        atoms.maximized_vert,
        atoms.maximized_horz,
    ];
    proof {
        assert(!e1.contains(atoms.fullscreen) <==> atoms.fullscreen != atoms.focused) by {
            if atoms.fullscreen == atoms.focused {
                assert(e1[0] == atoms.fullscreen);
            }
        }
        assert(!e2.contains(atoms.maximized_vert) <==> (atoms.maximized_vert != atoms.focused
            && atoms.maximized_vert != atoms.fullscreen)) by {
            if atoms.maximized_vert == atoms.focused {
                assert(e2[0] == atoms.maximized_vert);
            }
            if atoms.maximized_vert == atoms.fullscreen {
                assert(e2[1] == atoms.maximized_vert);
            }
        }
        assert(!e3.contains(atoms.maximized_horz) <==> (atoms.maximized_horz != atoms.focused
            && atoms.maximized_horz != atoms.fullscreen && atoms.maximized_horz
            != atoms.maximized_vert)) by {
            if atoms.maximized_horz == atoms.focused {
                assert(e3[0] == atoms.maximized_horz);
            }
            if atoms.maximized_horz == atoms.fullscreen {
                assert(e3[1] == atoms.maximized_horz);
            }
            if atoms.maximized_horz == atoms.maximized_vert {
                assert(e3[2] == atoms.maximized_horz);
            }
        }
        assert(!e4.contains(atoms.hidden) <==> (atoms.hidden != atoms.focused && atoms.hidden
            != atoms.fullscreen && atoms.hidden != atoms.maximized_vert && atoms.hidden
            != atoms.maximized_horz)) by {
            if atoms.hidden == atoms.focused {
                assert(e4[0] == atoms.hidden);
            }
            if atoms.hidden == atoms.fullscreen {
                assert(e4[1] == atoms.hidden);
            }
            if atoms.hidden == atoms.maximized_vert {
                assert(e4[2] == atoms.hidden);
            }
            if atoms.hidden == atoms.maximized_horz {
                assert(e4[3] == atoms.hidden);
            }
        }
    }
    while i < list.len()
        invariant
            i <= list@.len(),
            r.active == list@.take(i as int).contains(atoms.focused),
            r.fullscreen == (list@.take(i as int).contains(atoms.fullscreen) && atoms.fullscreen
                != atoms.focused),
            r.maximized_vertical == (list@.take(i as int).contains(atoms.maximized_vert)
                && atoms.maximized_vert != atoms.focused && atoms.maximized_vert
                != atoms.fullscreen),
            r.maximized_horizontal == (list@.take(i as int).contains(atoms.maximized_horz)
                && atoms.maximized_horz != atoms.focused && atoms.maximized_horz
                != atoms.fullscreen && atoms.maximized_horz != atoms.maximized_vert),
            r.hidden == (list@.take(i as int).contains(atoms.hidden) && atoms.hidden
                != atoms.focused && atoms.hidden != atoms.fullscreen && atoms.hidden
                != atoms.maximized_vert && atoms.hidden != atoms.maximized_horz),
        decreases list@.len() - i,
    {
        let a = list[i];
        proof {
            let t = list@.take(i + 1);
            assert(t =~= list@.take(i as int).push(a));
            assert forall|x: u32| t.contains(x) <==> (list@.take(i as int).contains(x) || x == a) by {
                if t.contains(x) {
                    let k = choose|k: int| 0 <= k < t.len() && t[k] == x;
                    if k < i {
                        assert(list@.take(i as int)[k] == x);
                    }
                }
                if x == a {
                    assert(t[i as int] == x);
                }
                if list@.take(i as int).contains(x) {
                    let k = choose|k: int| 0 <= k < i && list@.take(i as int)[k] == x;
                    assert(t[k] == x);
                }
            }
        }
        if a == atoms.focused {
            r.active = true;
        } else if a == atoms.fullscreen {
            r.fullscreen = true;
        } else if a == atoms.maximized_vert {
            r.maximized_vertical = true;
        } else if a == atoms.maximized_horz {
            r.maximized_horizontal = true;
        } else if a == atoms.hidden {
            r.hidden = true;
        }
        i = i + 1;
    }
    proof {
        assert(list@.take(list@.len() as int) =~= list@);
        assert(!Seq::<u32>::empty().contains(atoms.focused));
    }
    r
}

/// What a mouse press does to text being composed.
pub enum PressComposition {
    /// The input method composes: reset it and unmark the text.
    ResetInputMethod,
    /// A dead-key composition is pending: commit its pre-edit text (the
    /// composer is reset).
    Commit(String),
    Nothing,
}

/// What a mouse press does to text being composed: an input-method
/// composition is abandoned; otherwise a pending dead-key pre-edit is
/// committed as it stands.
pub fn press_composition(composing: bool, has_input_method: bool, pre_edit: Option<String>) -> (r:
    PressComposition)
    ensures
        composing && has_input_method ==> r is ResetInputMethod,
        !(composing && has_input_method) ==> match pre_edit {
            Some(t) => r matches PressComposition::Commit(c) && c@ == t@,
            None => r is Nothing,
        },
{
    if composing && has_input_method {
        return PressComposition::ResetInputMethod;
    }
    match pre_edit {
        Some(t) => PressComposition::Commit(t),
        None => PressComposition::Nothing,
    }
}

/// Whether a motion event moved the pointer: its valuator mask holds the x
/// or the y axis (bits 0 and 1).
pub fn motion_moves_pointer(valuator_mask: u32) -> (r: bool)
    ensures
        r == (valuator_mask & 3 != 0),
        r == (valuator_mask % 4 != 0),
{
    proof {
        assert(valuator_mask & 3 == valuator_mask % 4) by (bit_vector);
    }
    valuator_mask & 3 != 0
}

/// Whether the cursor over a blocked window is set back to the arrow: the
/// window is blocked, shows another cursor, and the arrow could be loaded.
pub fn blocked_cursor_reset(blocked: bool, shows_arrow: bool, arrow_loaded: bool) -> (r: bool)
    ensures
        r == (blocked && !shows_arrow && arrow_loaded),
{
    blocked && !shows_arrow && arrow_loaded
}

/// The cursor that the first successful load gave: a load that failed
/// (`None`) or gave the empty cursor 0 passes to the next name.
pub open spec fn first_loaded(loads: Seq<Option<u32>>) -> Option<u32>
    decreases loads.len(),
{
    if loads.len() == 0 {
        None
    } else if loads[0] is Some && loads[0]->0 != 0 {
        loads[0]
    } else {
        first_loaded(loads.drop_first())
    }
}

/// Picks the cursor for a style from the outcomes of loading its icon names
/// in order; `None` where none gave a cursor, and the default icon is then
/// tried.
pub fn first_loaded_cursor(loads: &[Option<u32>]) -> (r: Option<u32>)
    ensures
        r == first_loaded(loads@),
        r matches Some(c) ==> c != 0,
{
    let mut i: usize = 0;
    proof {
        assert(loads@.skip(0) =~= loads@);
    }
    while i < loads.len()
        invariant
            i <= loads@.len(),
            first_loaded(loads@) == first_loaded(loads@.skip(i as int)),
        decreases loads@.len() - i,
    {
        proof {
            assert(loads@.skip(i as int).drop_first() =~= loads@.skip(i + 1));
        }
        if let Some(c) = loads[i] {
            if c != 0 {
                return Some(c);
            }
        }
        i = i + 1;
    }
    proof {
        assert(loads@.skip(i as int).len() == 0);
        lemma_first_loaded_nonzero(loads@);
    }
    None
}

proof fn lemma_first_loaded_nonzero(loads: Seq<Option<u32>>)
    ensures
        first_loaded(loads) matches Some(c) ==> c != 0,
    decreases loads.len(),
{
    if loads.len() > 0 {
        lemma_first_loaded_nonzero(loads.drop_first());
    }
}

/// What a client message from the window manager does to a window, before
/// drag and drop is looked at.
#[derive(Clone, Copy, Debug, PartialEq, Eq, Structural)]
pub enum WmMessageStep {
    /// The message is for a window that is not the client's: it is dropped.
    Ignore,
    /// A delete-window request: the window's `should_close` is asked, and
    /// `close_answer_step` takes its answer.
    AskToClose,
    /// A sync request: the counter takes this value.
    RecordSync(SyncValue),
    /// Neither request.
    Other,
}

/// The first step for a client message with the data words `data` (the
/// message's atom first) sent to a window that is the client's or not.
pub fn wm_message_step(
    window_registered: bool,
    data: [u32; 5],
    delete_window_atom: u32,
    sync_request_atom: u32,
) -> (r: WmMessageStep)
    ensures
        !window_registered ==> r == WmMessageStep::Ignore,
        window_registered && data[0] == delete_window_atom ==> r == WmMessageStep::AskToClose,
        window_registered && data[0] != delete_window_atom && data[0] == sync_request_atom ==> r
            == WmMessageStep::RecordSync(
            SyncValue { lo: data[2], hi: data[3] as i32 },
        ),
        window_registered && data[0] != delete_window_atom && data[0] != sync_request_atom ==> r
            == WmMessageStep::Other,
{
    if !window_registered {
        WmMessageStep::Ignore
    } else if data[0] == delete_window_atom {
        WmMessageStep::AskToClose
    } else if data[0] == sync_request_atom {
        WmMessageStep::RecordSync(sync_request_value(data[2], data[3]))
    } else {
        WmMessageStep::Other
    }
}

/// What follows the window's answer to a delete-window request.
#[derive(Clone, Copy, Debug, PartialEq, Eq, Structural)]
pub enum CloseAnswerStep {
    /// The window closes.
    Close,
    /// The window stays; the message, being also the sync atom, records
    /// this counter value.
    RecordSync(SyncValue),
    /// The window stays.
    Stay,
}

/// The window closes exactly when its `should_close` answered yes;
/// otherwise the message is still checked for a sync request.
pub fn close_answer_step(should_close: bool, data: [u32; 5], sync_request_atom: u32) -> (r:
    CloseAnswerStep)
    ensures
        should_close ==> r == CloseAnswerStep::Close,
        !should_close && data[0] == sync_request_atom ==> r == CloseAnswerStep::RecordSync(
            SyncValue { lo: data[2], hi: data[3] as i32 },
        ),
        !should_close && data[0] != sync_request_atom ==> r == CloseAnswerStep::Stay,
{
    if should_close {
        CloseAnswerStep::Close
    } else if data[0] == sync_request_atom {
        CloseAnswerStep::RecordSync(sync_request_value(data[2], data[3]))
    } else {
        CloseAnswerStep::Stay
    }
}

/// A direction of wheel scrolling.
#[derive(Clone, Copy, Debug, PartialEq, Eq, Structural)]
pub enum ScrollDirection {
    Up,
    Down,
    Left,
    Right,
}

/// What the detail of a pointer button event names.
#[derive(Clone, Copy, Debug, PartialEq, Eq, Structural)]
pub enum ButtonOrScroll {
    /// A mouse button, by its number.
    Button(u32),
    /// A wheel step.
    Scroll(ScrollDirection),
}

/// What a button press sends to the window.
#[derive(Clone, Copy, Debug, PartialEq, Eq, Structural)]
pub enum PressAction {
    /// A mouse-down with the click count of the run it belongs to.
    MouseDown { button: u32, click_count: usize },
    /// A scroll of whole lines in a direction.
    ScrollLines(ScrollDirection),
    /// Nothing: an unknown detail, or a wheel press that only emulates the
    /// smooth scrolling that motion events already carry.
    Nothing,
}

/// A button press: a button counts into the run of clicks (one more when
/// the same button comes again soon enough and near enough, else one); a
/// wheel step scrolls unless it is emulated.
pub fn button_press_step(
    clicks: &mut ClickState,
    detail: Option<ButtonOrScroll>,
    within_interval: bool,
    within_distance: bool,
    pointer_emulated: bool,
) -> (r: PressAction)
    requires
        old(clicks).count() < usize::MAX,
    ensures
        match detail {
            Some(ButtonOrScroll::Button(b)) => {
                &&& final(clicks).last_button() == Some(b)
                &&& final(clicks).count() == if within_interval && old(clicks).last_button()
                    == Some(b) && within_distance {
                    old(clicks).count() + 1
                } else {
                    1
                }
                &&& r == PressAction::MouseDown { button: b, click_count: final(clicks).count() as usize }
            },
            Some(ButtonOrScroll::Scroll(d)) => {
                &&& *final(clicks) == *old(clicks)
                &&& r == if pointer_emulated {
                    PressAction::Nothing
                } else {
                    PressAction::ScrollLines(d)
                }
            },
            None => *final(clicks) == *old(clicks) && r == PressAction::Nothing,
        },
{
    match detail {
        Some(ButtonOrScroll::Button(b)) => {
            let count = clicks.register_press(b, within_interval, within_distance);
            PressAction::MouseDown { button: b, click_count: count }
        },
        Some(ButtonOrScroll::Scroll(d)) => {
            if pointer_emulated {
                PressAction::Nothing
            } else {
                PressAction::ScrollLines(d)
            }
        },
        None => PressAction::Nothing,
    }
}

/// A button release: a mouse-up of the button with the current click
/// count; nothing for a wheel step or an unknown detail.
pub fn button_release_step(clicks: &ClickState, detail: Option<ButtonOrScroll>) -> (r: Option<(u32, usize)>)
    ensures
        match detail {
            Some(ButtonOrScroll::Button(b)) => r == Some((b, clicks.count() as usize)),
            _ => r is None,
        },
{
    match detail {
        Some(ButtonOrScroll::Button(b)) => Some((b, clicks.current_count())),
        _ => None,
    }
}

} // verus!
