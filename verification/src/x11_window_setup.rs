//! The setup of a new X11 window: its screen, visual and colormap, its
//! initial size and position, how the window manager is told what kind of
//! window it is, its size limits and its icon.
use vstd::prelude::*;

use crate::x11::{Visual, VisualSet};

verus! {

/// The screen of a new window: the one its display names, else the main
/// screen.
pub fn window_screen_index(display_id: Option<u32>, main_screen: usize) -> (r: usize)
    ensures
        r == match display_id {
            Some(d) => d as usize,
            None => main_screen,
        },
{
    match display_id {
        Some(d) => d as usize,
        None => main_screen,
    }
}

/// The visual of a new window: the transparent one when the screen has it,
/// else the screen's own.
pub fn window_visual(set: &VisualSet) -> (r: Visual)
    ensures
        r == match set.transparent {
            Some(v) => v,
            None => set.inherit,
        },
{
    match set.transparent {
        Some(v) => v,
        None => set.inherit,
    }
}

/// Whether a colormap must be created for the visual (it has none).
pub fn needs_colormap(visual: Visual) -> (r: bool)
    ensures
        r == (visual.colormap == 0),
{
    visual.colormap == 0
}

/// The size of a new window in device pixels: the requested one, or
/// 800 by 600 when either side is zero.
pub fn initial_window_size(width: i32, height: i32) -> (r: (i32, i32))
    ensures
        r == if width == 0 || height == 0 {
            (800i32, 600i32)
        } else {
            (width, height)
        },
{
    if width == 0 || height == 0 {
        (800, 600)
    } else {
        (width, height)
    }
}

/// Where to move a window that the server placed at (0, 0): two pixels to
/// the right of its requested origin (a rendering quirk of some window
/// managers); windows placed elsewhere are not moved.
pub fn nudged_origin(placed_x: i16, placed_y: i16, origin_x: i32, origin_y: i32) -> (r: Option<
    (i32, i32),
>)
    requires
        origin_x < i32::MAX - 1,
    ensures
        r == if placed_x == 0 && placed_y == 0 {
            Some(((origin_x + 2) as i32, origin_y))
        } else {
            None
        },
{
    if placed_x == 0 && placed_y == 0 {
        Some((origin_x + 2, origin_y))
    } else {
        None
    }
}

/// The kinds of window.
#[derive(Clone, Copy, Debug, PartialEq, Eq, Structural)]
pub enum WindowKind {
    Normal,
    PopUp,
    Floating,
    Dialog,
}

/// What the window manager is told of a new window.
#[derive(Clone, Copy, Debug, PartialEq, Eq, Structural)]
pub struct WindowRole {
    /// The window bypasses the window manager (pop-ups).
    pub override_redirect: u32,
    /// Its type is "notification" (pop-ups).
    pub notification_type: bool,
    /// The window it is transient for (floating windows and dialogs with a
    /// parent).
    pub transient_for: Option<u32>,
    /// The parent that it blocks while it is open (dialogs with a parent).
    pub blocks_parent: Option<u32>,
    /// Its type is "dialog" and its state modal (dialogs).
    pub modal_dialog: bool,
}

/// What the window manager is told of a new window of `kind`.
pub fn window_role(kind: WindowKind, parent: Option<u32>) -> (r: WindowRole)
    ensures
        r.override_redirect == if kind == WindowKind::PopUp {
            1u32
        } else {
            0u32
        },
        r.notification_type == (kind == WindowKind::PopUp),
        r.transient_for == if kind == WindowKind::Floating || kind == WindowKind::Dialog {
            parent
        } else {
            None
        },
        r.blocks_parent == if kind == WindowKind::Dialog {
            parent
        } else {
            None
        },
        r.modal_dialog == (kind == WindowKind::Dialog),
{
    let popup = match kind {
        WindowKind::PopUp => true,
        _ => false,
    };
    let dialog = match kind {
        WindowKind::Dialog => true,
        _ => false,
    };
    let floating = match kind {
        WindowKind::Floating => true,
        _ => false,
    };
    WindowRole {
        override_redirect: if popup {
            1
        } else {
            0
        },
        notification_type: popup,
        transient_for: if floating || dialog {
            parent
        } else {
            None
        },
        blocks_parent: if dialog {
            parent
        } else {
            None
        },
        modal_dialog: dialog,
    }
}

/// The largest size a window may take: the GPU's largest texture side, in
/// both directions (as the hint's signed value).
pub fn max_size_hint(max_texture_size: u32) -> (r: (i32, i32))
    ensures
        r == (max_texture_size as i32, max_texture_size as i32),
{
    let m: i32 = #[verifier::truncate] (max_texture_size as i32);
    (m, m)
}

/// One pixel of the icon as `_NET_WM_ICON` holds it: alpha, red, green and
/// blue from the high byte down.
pub open spec fn argb(r: u8, g: u8, b: u8, a: u8) -> u32 {
    (b as int + g as int * 0x100 + r as int * 0x10000 + a as int * 0x1000000) as u32
}

/// The `_NET_WM_ICON` value of an icon given as RGBA bytes: its width, its
/// height, then each pixel as ARGB.
pub fn icon_property(width: u32, height: u32, rgba: &[u8]) -> (r: Vec<u32>)
    requires
        rgba@.len() % 4 == 0,
    ensures
        r@.len() == 2 + rgba@.len() / 4,
        r@[0] == width,
        r@[1] == height,
        forall|i: int|
            0 <= i < rgba@.len() / 4 ==> #[trigger] r@[2 + i] == argb(
                rgba@[4 * i],
                rgba@[4 * i + 1],
                rgba@[4 * i + 2],
                rgba@[4 * i + 3],
            ),
{
    let mut out: Vec<u32> = Vec::new();
    out.push(width);
    out.push(height);
    let len = rgba.len();
    let n = len / 4;
    let mut i: usize = 0;
    while i < n
        invariant
            len == rgba@.len(),
            n == rgba@.len() / 4,
            i <= n,
            out@.len() == 2 + i,
            out@[0] == width,
            out@[1] == height,
            forall|k: int|
                0 <= k < i ==> #[trigger] out@[2 + k] == argb(
                    rgba@[4 * k],
                    rgba@[4 * k + 1],
                    rgba@[4 * k + 2],
                    rgba@[4 * k + 3],
                ),
        decreases n - i,
    {
        proof {
            assert(4 * i + 4 <= len) by (nonlinear_arith)
                requires
                    i < n,
                    n == len / 4,
            ;
        }
        let j = 4 * i;
        let r = rgba[j];
        let g = rgba[j + 1];
        let b = rgba[j + 2];
        let a = rgba[j + 3];
        let v: u32 = b as u32 + (g as u32) * 0x100 + (r as u32) * 0x10000 + (a as u32) * 0x1000000;
        proof {
            assert(v == argb(r, g, b, a));
        }
        out.push(v);
        i = i + 1;
    }
    out
}

/// What creating a window comes to. When a setup request after the
/// window's creation fails, the half-built window is destroyed, so
/// `destroy` is there exactly when `setup` failed (`destroy` holds that request's outcome): a
/// failure to destroy is reported over the setup's own error; otherwise
/// the setup's result stands.
pub fn window_setup_result<T, E>(setup: Result<T, E>, destroy: Option<Result<(), E>>) -> (r:
    Result<T, E>)
    requires
        destroy is Some <==> setup is Err,
    ensures
        match destroy {
            Some(Err(e)) => r == Err::<T, E>(e),
            _ => r == setup,
        },
{
    match destroy {
        Some(Err(e)) => Err(e),
        _ => setup,
    }
}

} // verus!
