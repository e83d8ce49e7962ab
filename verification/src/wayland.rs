//! Decisions of the Wayland client: protocol versions to bind, outputs that
//! are complete, focus bookkeeping when a window closes, and when the pointer
//! is hidden or restored.
use vstd::prelude::*;

use crate::text::str_equal;

verus! {

/// The lowest `wl_seat` version the client needs (it relies on `wl_pointer.frame`).
pub const WL_SEAT_MIN_VERSION: u32 = 5;

pub const WL_SEAT_MAX_VERSION: u32 = 9;

pub const WL_OUTPUT_MIN_VERSION: u32 = 2;

pub const WL_OUTPUT_MAX_VERSION: u32 = 4;

pub open spec fn clamp(v: u32, lo: u32, hi: u32) -> u32 {
    if v < lo {
        lo
    } else if v > hi {
        hi
    } else {
        v
    }
}

/// The `wl_seat` version to bind: the offered one, capped at the highest the
/// client knows. An offer below the minimum is a fatal error.
pub fn wl_seat_version(version: u32) -> (r: u32)
    requires
        version >= WL_SEAT_MIN_VERSION,
    ensures
        r == clamp(version, WL_SEAT_MIN_VERSION, WL_SEAT_MAX_VERSION),
        WL_SEAT_MIN_VERSION <= r <= WL_SEAT_MAX_VERSION,
        r <= version,
{
    if version > WL_SEAT_MAX_VERSION {
        WL_SEAT_MAX_VERSION
    } else {
        version
    }
}

/// The `wl_output` version to bind, like `wl_seat_version`.
pub fn wl_output_version(version: u32) -> (r: u32)
    requires
        version >= WL_OUTPUT_MIN_VERSION,
    ensures
        r == clamp(version, WL_OUTPUT_MIN_VERSION, WL_OUTPUT_MAX_VERSION),
        WL_OUTPUT_MIN_VERSION <= r <= WL_OUTPUT_MAX_VERSION,
        r <= version,
{
    if version > WL_OUTPUT_MAX_VERSION {
        WL_OUTPUT_MAX_VERSION
    } else {
        version
    }
}

/// A point or size in device pixels.
#[derive(Clone, Copy, Debug, PartialEq, Eq, Structural)]
pub struct DevicePoint {
    pub x: i32,
    pub y: i32,
}

/// The layout of sub-pixels of an output, as the protocol numbers it.
#[derive(Clone, Copy, Debug, PartialEq, Eq, Structural)]
pub struct Subpixel {
    pub value: u32,
}

/// An output whose geometry is known.
pub struct Output {
    pub name: Option<String>,
    pub scale: i32,
    pub origin: DevicePoint,
    pub size: DevicePoint,
    pub subpixel: Option<Subpixel>,
}

/// An output whose events are still arriving.
pub struct InProgressOutput {
    pub name: Option<String>,
    pub scale: Option<i32>,
    pub position: Option<DevicePoint>,
    pub size: Option<DevicePoint>,
    pub subpixel: Option<Subpixel>,
}

impl InProgressOutput {
    /// The output once both position and size are known; the scale defaults
    /// to 1.
    pub fn complete(&self) -> (r: Option<Output>)
        ensures
            r is Some <==> (self.position is Some && self.size is Some),
            r matches Some(o) ==> {
                &&& o.origin == self.position->Some_0
                &&& o.size == self.size->Some_0
                &&& o.scale == match self.scale {
                    Some(s) => s,
                    None => 1,
                }
                &&& o.subpixel == self.subpixel
                &&& o.name == self.name
            },
    {
        match (self.position, self.size) {
            (Some(position), Some(size)) => {
                let scale = match self.scale {
                    Some(s) => s,
                    None => 1,
                };
                Some(
                    Output {
                        name: self.name.clone(),
                        scale,
                        origin: position,
                        size,
                        subpixel: self.subpixel,
                    },
                )
            },
            _ => None,
        }
    }
}

/// The windows that hold the pointer focus, the keyboard focus and the
/// hidden cursor, by surface id.
#[derive(Clone, Copy, Debug, PartialEq, Eq, Structural)]
pub struct WindowFocus {
    pub mouse_focused_window: Option<u64>,
    pub keyboard_focused_window: Option<u64>,
    pub cursor_hidden_window: Option<u64>,
}

pub open spec fn forget(w: Option<u64>, closed: u64) -> Option<u64> {
    if w == Some(closed) {
        None
    } else {
        w
    }
}

impl WindowFocus {
    /// A closed window loses every focus it held; other windows keep theirs.
    pub fn drop_window(&mut self, closed: u64)
        ensures
            final(self).mouse_focused_window == forget(old(self).mouse_focused_window, closed),
            final(self).keyboard_focused_window == forget(
                old(self).keyboard_focused_window,
                closed,
            ),
            final(self).cursor_hidden_window == forget(old(self).cursor_hidden_window, closed),
    {
        if self.mouse_focused_window == Some(closed) {
            self.mouse_focused_window = None;
        }
        if self.keyboard_focused_window == Some(closed) {
            self.keyboard_focused_window = None;
        }
        if self.cursor_hidden_window == Some(closed) {
            self.cursor_hidden_window = None;
        }
    }

    /// Hides the cursor over the pointer-focused window until the mouse moves;
    /// nothing happens when it is hidden already, no window has the pointer,
    /// or the seat has no pointer. Returns whether it was hidden now.
    pub fn hide_cursor_until_mouse_moves(&mut self, has_pointer: bool) -> (r: bool)
        ensures
            r == (old(self).cursor_hidden_window is None && old(self).mouse_focused_window is Some
                && has_pointer),
            r ==> final(self).cursor_hidden_window == old(self).mouse_focused_window,
            !r ==> *final(self) == *old(self),
            final(self).mouse_focused_window == old(self).mouse_focused_window,
            final(self).keyboard_focused_window == old(self).keyboard_focused_window,
    {
        if self.cursor_hidden_window.is_some() {
            return false;
        }
        match self.mouse_focused_window {
            Some(w) => {
                if !has_pointer {
                    return false;
                }
                self.cursor_hidden_window = Some(w);
                true
            },
            None => false,
        }
    }

    /// Ends the hiding of the cursor; returns whether a cursor style has to
    /// be set again (it was hidden and a style is known).
    pub fn restore_cursor_after_hide(&mut self, has_cursor_style: bool) -> (r: bool)
        ensures
            final(self).cursor_hidden_window is None,
            r == (old(self).cursor_hidden_window is Some && has_cursor_style),
            final(self).mouse_focused_window == old(self).mouse_focused_window,
            final(self).keyboard_focused_window == old(self).keyboard_focused_window,
    {
        let was_hidden = self.cursor_hidden_window.is_some();
        self.cursor_hidden_window = None;
        was_hidden && has_cursor_style
    }
}

/// The name of the layout when no keymap is known.
pub const UNKNOWN_KEYBOARD_LAYOUT_NAME: &'static str = "unknown";

/// The keyboard layout name after a layout change: the effective layout of
/// the keymap, or the unknown layout without one; `true` when it differs
/// from the current name.
pub fn keyboard_layout_after_change(current: &str, effective: Option<&str>) -> (r: (bool, String))
    ensures
        r.1@ == match effective {
            Some(e) => e@,
            None => UNKNOWN_KEYBOARD_LAYOUT_NAME@,
        },
        r.0 == (r.1@ != current@),
{
    let name = match effective {
        Some(e) => String::from_str(e),
        None => String::from_str(UNKNOWN_KEYBOARD_LAYOUT_NAME),
    };
    let changed = !str_equal(name.as_str(), current);
    (changed, name)
}

/// The input method's state as the IME position update sees it.
pub fn should_update_ime_position(composing: bool, has_text_input: bool, has_pre_edit: bool) -> (r:
    bool)
    ensures
        r == (!composing && has_text_input && !has_pre_edit),
{
    !(composing || !has_text_input || has_pre_edit)
}

/// The run of clicks in progress: the button last pressed and how many
/// presses of it came in a row, each soon enough after the one before and
/// near enough to it.
pub struct ClickState {
    last_mouse_button: Option<u32>,
    current_count: usize,
}

impl ClickState {
    /// The button last pressed, by its number.
    pub closed spec fn last_button(&self) -> Option<u32> {
        self.last_mouse_button
    }

    /// The number of presses in the current run.
    pub closed spec fn count(&self) -> nat {
        self.current_count as nat
    }

    /// No press yet.
    pub fn new() -> (r: Self)
        ensures
            r.last_button() is None,
            r.count() == 0,
    {
        ClickState { last_mouse_button: None, current_count: 0 }
    }

    /// The number of presses in the current run.
    pub fn current_count(&self) -> (r: usize)
        ensures
            r == self.count(),
    {
        self.current_count
    }

    /// Records a press of `button` and returns the click count it carries:
    /// one more than before when the same button was pressed within the
    /// double-click interval (`within_interval`) and distance
    /// (`within_distance`), one otherwise.
    pub fn register_press(&mut self, button: u32, within_interval: bool, within_distance: bool) -> (r:
        usize)
        requires
            old(self).count() < usize::MAX,
        ensures
            r == final(self).count(),
            final(self).last_button() == Some(button),
            (within_interval && old(self).last_button() == Some(button) && within_distance) ==> r
                == old(self).count() + 1,
            !(within_interval && old(self).last_button() == Some(button) && within_distance) ==> r
                == 1,
    {
        let repeats = within_interval && match self.last_mouse_button {
            Some(prev) => prev == button,
            None => false,
        } && within_distance;
        if repeats {
            self.current_count = self.current_count + 1;
        } else {
            self.current_count = 1;
        }
        self.last_mouse_button = Some(button);
        self.current_count
    }
}

/// The input-method state of the Wayland client.
#[derive(Clone, Copy, Debug, PartialEq, Eq, Structural)]
pub struct ImeState {
    /// Whether the input method was last enabled or disabled, if ever.
    pub ime_enabled: Option<bool>,
    /// Text is being composed.
    pub composing: bool,
}

impl ImeState {
    /// Enables the input method; returns whether the text input is told
    /// (the seat has one).
    pub fn enable_ime(&mut self, has_text_input: bool) -> (r: bool)
        ensures
            final(self).ime_enabled == Some(true),
            final(self).composing == old(self).composing,
            r == has_text_input,
    {
        self.ime_enabled = Some(true);
        has_text_input
    }

    /// Disables the input method and ends any composition; returns whether
    /// the text input is told.
    pub fn disable_ime(&mut self, has_text_input: bool) -> (r: bool)
        ensures
            final(self).ime_enabled == Some(false),
            !final(self).composing,
            r == has_text_input,
    {
        self.ime_enabled = Some(false);
        self.composing = false;
        has_text_input
    }
}

/// The startup activation token from the environment: its value, unless
/// unset or empty.
pub fn startup_token_from_environment(value: Option<String>) -> (r: Option<String>)
    ensures
        match value {
            Some(v) => if v@.len() > 0 {
                r matches Some(t) && t@ == v@
            } else {
                r is None
            },
            None => r is None,
        },
{
    match value {
        Some(v) => if v.as_str().unicode_len() > 0 {
            Some(v)
        } else {
            None
        },
        None => None,
    }
}

/// Takes the startup activation token to activate the first window: it is
/// used at most once, and spent even when the compositor cannot activate.
pub fn take_startup_token(token: &mut Option<String>, can_activate: bool) -> (r: Option<String>)
    ensures
        *final(token) is None,
        can_activate ==> r == *old(token),
        !can_activate ==> r is None,
{
    let t = token.take();
    if can_activate {
        t
    } else {
        None
    }
}

} // verus!
