//! Decisions of an X11 window: the client messages it sends to the window
//! manager, the class it announces, its modal children, and where its input
//! goes.
use vstd::prelude::*;
use std::collections::HashSet;
use vstd::string::StringSliceAdditionalSpecFns;

verus! {

broadcast use vstd::std_specs::hash::group_hash_axioms;

/// The "toggle" action of a `_NET_WM_STATE` request.
pub const WM_STATE_TOGGLE: u32 = 2;

/// The ICCCM iconic state, asked for by `WM_CHANGE_STATE` to minimize.
pub const WINDOW_ICONIC_STATE: u32 = 3;

/// The device group of all devices, named in a window-menu request.
pub const XINPUT_ALL_DEVICE_GROUPS: u32 = 1;

/// The data of a `_NET_WM_STATE` request that toggles one or two states
/// (the second may be 0), sent as from a normal application (source 1).
pub fn wm_state_toggle_data(first: u32, second: u32) -> (r: [u32; 5])
    ensures
        r@ == seq![WM_STATE_TOGGLE, first, second, 1u32, 0u32],
{
    [WM_STATE_TOGGLE, first, second, 1, 0]
}

/// The data of the `WM_CHANGE_STATE` request that minimizes a window.
pub fn minimize_data() -> (r: [u32; 5])
    ensures
        r@ == seq![WINDOW_ICONIC_STATE, 0u32, 0u32, 0u32, 0u32],
{
    [WINDOW_ICONIC_STATE, 0, 0, 0, 0]
}

/// The data of the `_NET_ACTIVE_WINDOW` request that raises a window, sent
/// as from a normal application (1) at the current time (0).
pub fn activate_data() -> (r: [u32; 5])
    ensures
        r@ == seq![1u32, 0u32, 0u32, 0u32, 0u32],
{
    [1, 0, 0, 0, 0]
}

/// The data of a `_NET_WM_MOVERESIZE` request: the pointer's root
/// coordinates (as the protocol's 32-bit words, sign extended), the
/// direction, and the left button.
pub fn moveresize_data(root_x: i16, root_y: i16, direction: u32) -> (r: [u32; 5])
    ensures
        r@ == seq![root_x as u32, root_y as u32, direction, 0u32, 0u32],
{
    [#[verifier::truncate] (root_x as u32), #[verifier::truncate] (root_y as u32), direction, 0, 0]
}

/// The data of a `_GTK_SHOW_WINDOW_MENU` request at root coordinates.
pub fn window_menu_data(root_x: i16, root_y: i16) -> (r: [u32; 5])
    ensures
        r@ == seq![XINPUT_ALL_DEVICE_GROUPS, root_x as u32, root_y as u32, 0u32, 0u32],
{
    [
        XINPUT_ALL_DEVICE_GROUPS,
        #[verifier::truncate] (root_x as u32),
        #[verifier::truncate] (root_y as u32),
        0,
        0,
    ]
}

/// The `WM_CLASS` value of an application id: the id as instance, a NUL,
/// and the id again as class.
pub fn wm_class_data(app_id: &str) -> (r: Vec<u8>)
    ensures
        r@ == app_id.spec_bytes() + seq![0u8] + app_id.spec_bytes(),
{
    let bytes = app_id.as_bytes();
    let mut out: Vec<u8> = Vec::new();
    let mut i: usize = 0;
    while i < bytes.len()
        invariant
            bytes@ == app_id.spec_bytes(),
            i <= bytes@.len(),
            out@ == bytes@.take(i as int),
        decreases bytes@.len() - i,
    {
        out.push(bytes[i]);
        proof {
            assert(bytes@.take(i + 1) =~= bytes@.take(i as int).push(bytes@[i as int]));
        }
        i = i + 1;
    }
    out.push(0u8);
    let mut j: usize = 0;
    proof {
        assert(bytes@.take(bytes@.len() as int) =~= bytes@);
    }
    while j < bytes.len()
        invariant
            bytes@ == app_id.spec_bytes(),
            j <= bytes@.len(),
            out@ == bytes@ + seq![0u8] + bytes@.take(j as int),
        decreases bytes@.len() - j,
    {
        out.push(bytes[j]);
        proof {
            assert(bytes@.take(j + 1) =~= bytes@.take(j as int).push(bytes@[j as int]));
        }
        j = j + 1;
    }
    proof {
        assert(bytes@.take(bytes@.len() as int) =~= bytes@);
    }
    out
}

/// The modal children of a window, by window id: while it has any, the
/// window takes no input.
pub struct ChildWindows {
    children: HashSet<u32>,
}

impl View for ChildWindows {
    type V = Set<u32>;

    closed spec fn view(&self) -> Set<u32> {
        self.children@
    }
}

impl ChildWindows {
    /// No children.
    pub fn new() -> (r: Self)
        ensures
            r@ == Set::<u32>::empty(),
    {
        ChildWindows { children: HashSet::new() }
    }

    /// A child window opened.
    pub fn add_child(&mut self, child: u32)
        ensures
            final(self)@ == old(self)@.insert(child),
    {
        self.children.insert(child);
    }

    /// A child window went away.
    pub fn remove_child(&mut self, child: u32)
        ensures
            final(self)@ == old(self)@.remove(child),
    {
        self.children.remove(&child);
    }

    /// Whether the window is blocked by a child.
    pub fn is_blocked(&self) -> (r: bool)
        ensures
            r == !(self@ =~= Set::<u32>::empty()),
    {
        !self.children.is_empty()
    }
}

/// A window with a child: blocked until that child goes, as long as it has
/// no other.
pub proof fn lemma_child_blocks_until_removed(before: Set<u32>, child: u32)
    requires
        !before.contains(child),
    ensures
        !(before.insert(child) =~= Set::<u32>::empty()),
        before.insert(child).remove(child) =~= before,
{
    assert(before.insert(child).contains(child));
}

/// Whether a key press types its character into the window: the window is
/// not blocked, its input callback (if any) let the event through, only
/// shift is held, the key has a character, and the window has a text input.
pub fn key_types_text(
    blocked: bool,
    callback_propagates: Option<bool>,
    only_shift_held: bool,
    has_key_char: bool,
    has_input_handler: bool,
) -> (r: bool)
    ensures
        r == (!blocked && callback_propagates != Some(false) && only_shift_held && has_key_char
            && has_input_handler),
{
    if blocked {
        return false;
    }
    match callback_propagates {
        Some(false) => return false,
        _ => {},
    }
    only_shift_held && has_key_char && has_input_handler
}

/// Whether an input method event (commit, pre-edit, unmark, delete) reaches
/// the window's text input: the window is not blocked and has one.
pub fn ime_reaches_input(blocked: bool, has_input_handler: bool) -> (r: bool)
    ensures
        r == (!blocked && has_input_handler),
{
    !blocked && has_input_handler
}

/// Whether a window closes when asked to: its callback decides, and
/// without one it does.
pub fn should_close(callback_answer: Option<bool>) -> (r: bool)
    ensures
        r == match callback_answer {
            Some(a) => a,
            None => true,
        },
{
    match callback_answer {
        Some(a) => a,
        None => true,
    }
}

} // verus!
