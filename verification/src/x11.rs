//! Decisions of the X11 window and client code: resize edges, tiling from
//! the GTK edge constraints, drag-and-drop targets, refresh rates and the
//! choice of visuals.
use vstd::prelude::*;

use crate::text::str_equal;

verus! {

/// A window edge or corner that a resize starts from.
#[derive(Clone, Copy, Debug, PartialEq, Eq, Structural)]
pub enum ResizeEdge {
    TopLeft,
    Top,
    TopRight,
    Right,
    BottomRight,
    Bottom,
    BottomLeft,
    Left,
}

/// The `_NET_WM_MOVERESIZE` direction of an edge: clockwise from the top
/// left corner, 0 to 7.
pub open spec fn moveresize_direction(edge: ResizeEdge) -> u32 {
    match edge {
        ResizeEdge::TopLeft => 0,
        ResizeEdge::Top => 1,
        ResizeEdge::TopRight => 2,
        ResizeEdge::Right => 3,
        ResizeEdge::BottomRight => 4,
        ResizeEdge::Bottom => 5,
        ResizeEdge::BottomLeft => 6,
        ResizeEdge::Left => 7,
    }
}

pub fn resize_edge_to_moveresize(edge: ResizeEdge) -> (r: u32)
    ensures
        r == moveresize_direction(edge),
        r < 8,
{
    match edge {
        ResizeEdge::TopLeft => 0,
        ResizeEdge::Top => 1,
        ResizeEdge::TopRight => 2,
        ResizeEdge::Right => 3,
        ResizeEdge::BottomRight => 4,
        ResizeEdge::Bottom => 5,
        ResizeEdge::BottomLeft => 6,
        ResizeEdge::Left => 7,
    }
}

/// Which edges of a window are tiled.
#[derive(Clone, Copy, Debug, PartialEq, Eq, Structural)]
pub struct Tiling {
    pub top: bool,
    pub right: bool,
    pub bottom: bool,
    pub left: bool,
}

/// The GTK edge constraints of a window.
#[derive(Clone, Copy, Debug, PartialEq, Eq, Structural)]
pub struct EdgeConstraints {
    pub top_tiled: bool,
    pub top_resizable: bool,
    pub right_tiled: bool,
    pub right_resizable: bool,
    pub bottom_tiled: bool,
    pub bottom_resizable: bool,
    pub left_tiled: bool,
    pub left_resizable: bool,
}

pub open spec fn bit_set(atom: u32, i: u32) -> bool {
    atom & (1u32 << i) != 0
}

impl EdgeConstraints {
    /// Reads the constraints from the `_GTK_EDGE_CONSTRAINTS` value: bits 0
    /// to 7 are top tiled, top resizable, right tiled, right resizable,
    /// bottom tiled, bottom resizable, left tiled, left resizable.
    pub fn from_atom(atom: u32) -> (r: Self)
        ensures
            r.top_tiled == bit_set(atom, 0),
            r.top_resizable == bit_set(atom, 1),
            r.right_tiled == bit_set(atom, 2),
            r.right_resizable == bit_set(atom, 3),
            r.bottom_tiled == bit_set(atom, 4),
            r.bottom_resizable == bit_set(atom, 5),
            r.left_tiled == bit_set(atom, 6),
            r.left_resizable == bit_set(atom, 7),
    {
        EdgeConstraints {
            top_tiled: (atom & (1u32 << 0u32)) != 0,
            top_resizable: (atom & (1u32 << 1u32)) != 0,
            right_tiled: (atom & (1u32 << 2u32)) != 0,
            right_resizable: (atom & (1u32 << 3u32)) != 0,
            bottom_tiled: (atom & (1u32 << 4u32)) != 0,
            bottom_resizable: (atom & (1u32 << 5u32)) != 0,
            left_tiled: (atom & (1u32 << 6u32)) != 0,
            left_resizable: (atom & (1u32 << 7u32)) != 0,
        }
    }

    /// The tiling that the constraints describe.
    pub fn to_tiling(&self) -> (r: Tiling)
        ensures
            r == (Tiling {
                top: self.top_tiled,
                right: self.right_tiled,
                bottom: self.bottom_tiled,
                left: self.left_tiled,
            }),
    {
        Tiling {
            top: self.top_tiled,
            right: self.right_tiled,
            bottom: self.bottom_tiled,
            left: self.left_tiled,
        }
    }
}

/// The atoms of the drag-and-drop text targets.
#[derive(Clone, Copy, Debug)]
pub struct XcbAtoms {
    pub text: u32,
    pub string: u32,
    pub utf8_string: u32,
    pub text_plain: u32,
    pub text_plain_utf8: u32,
    pub text_uri_list: u32,
}

/// Whether a drop target type is one that the window takes.
pub open spec fn atom_supported(atom: u32, atoms: XcbAtoms) -> bool {
    atom == atoms.text || atom == atoms.string || atom == atoms.utf8_string || atom
        == atoms.text_plain || atom == atoms.text_plain_utf8 || atom == atoms.text_uri_list
}

pub fn xdnd_is_atom_supported(atom: u32, atoms: &XcbAtoms) -> (r: bool)
    ensures
        r == atom_supported(atom, *atoms),
{
    atom == atoms.text || atom == atoms.string || atom == atoms.utf8_string || atom
        == atoms.text_plain || atom == atoms.text_plain_utf8 || atom == atoms.text_uri_list
}

/// The first offered type that the window takes, or 0 when it takes none.
pub open spec fn first_supported_atom(offered: Seq<u32>, atoms: XcbAtoms) -> u32
    decreases offered.len(),
{
    if offered.len() == 0 {
        0
    } else if atom_supported(offered[0], atoms) {
        offered[0]
    } else {
        first_supported_atom(offered.skip(1), atoms)
    }
}

/// The drag-and-drop type to accept among those offered.
pub fn xdnd_first_supported_atom(offered: &[u32], atoms: &XcbAtoms) -> (r: u32)
    ensures
        r == first_supported_atom(offered@, *atoms),
{
    let mut i: usize = 0;
    proof {
        assert(offered@.skip(0) =~= offered@);
    }
    while i < offered.len()
        invariant
            i <= offered@.len(),
            first_supported_atom(offered@, *atoms) == first_supported_atom(
                offered@.skip(i as int),
                *atoms,
            ),
        decreases offered@.len() - i,
    {
        proof {
            assert(offered@.skip(i as int)[0] == offered@[i as int]);
            assert(offered@.skip(i as int).skip(1) =~= offered@.skip(i + 1));
        }
        if xdnd_is_atom_supported(offered[i], atoms) {
            return offered[i];
        }
        i = i + 1;
    }
    0
}

/// The frame period in microseconds of a display mode: 16 ms when the mode
/// gives no clock or totals, else one second over the refresh rate in
/// millihertz, `dot_clock * 1000 / (htotal * vtotal)`.
pub open spec fn refresh_period_micros(dot_clock: u32, htotal: u16, vtotal: u16) -> nat {
    if dot_clock == 0 || htotal == 0 || vtotal == 0 {
        16000
    } else {
        (1_000_000_000nat / ((dot_clock as nat * 1000) / (htotal as nat * vtotal as nat))) as nat
    }
}

/// The frame period of a mode is the length of one refresh in whole
/// microseconds: with `m` the mode's rate in millihertz (the dot clock times
/// 1000 over the pixels per frame), `m` periods fit in a second and `m`
/// periods one microsecond longer do not. Without a clock or totals the
/// period is 16 ms.
pub proof fn lemma_refresh_period_is_one_frame(dot_clock: u32, htotal: u16, vtotal: u16)
    ensures
        (dot_clock == 0 || htotal == 0 || vtotal == 0) ==> refresh_period_micros(
            dot_clock,
            htotal,
            vtotal,
        ) == 16000,
        ({
            let m = (dot_clock as nat * 1000) / (htotal as nat * vtotal as nat);
            let p = refresh_period_micros(dot_clock, htotal, vtotal);
            dot_clock != 0 && htotal != 0 && vtotal != 0 && m > 0 ==> p * m <= 1_000_000_000
                && 1_000_000_000 < (p + 1) * m
        }),
{
    if dot_clock != 0 && htotal != 0 && vtotal != 0 {
        let m = (dot_clock as nat * 1000) / (htotal as nat * vtotal as nat);
        if m > 0 {
            let x: int = 1_000_000_000;
            let q = x / (m as int);
            let rem = x % (m as int);
            vstd::arithmetic::div_mod::lemma_fundamental_div_mod(x, m as int);
            vstd::arithmetic::div_mod::lemma_mod_pos_bound(x, m as int);
            assert(q >= 0) by (nonlinear_arith)
                requires
                    x >= 0,
                    m > 0,
                    q == x / (m as int),
            ;
            assert(q * m <= x && x < (q + 1) * m) by (nonlinear_arith)
                requires
                    x == m * q + rem,
                    0 <= rem < m,
            ;
        }
    }
}

/// A faster mode never gets a longer frame period: the period falls as
/// the rate in millihertz rises.
pub proof fn lemma_refresh_period_falls_with_rate(
    dot_clock1: u32,
    htotal1: u16,
    vtotal1: u16,
    dot_clock2: u32,
    htotal2: u16,
    vtotal2: u16,
)
    requires
        dot_clock1 != 0 && htotal1 != 0 && vtotal1 != 0,
        dot_clock2 != 0 && htotal2 != 0 && vtotal2 != 0,
        0 < (dot_clock1 as nat * 1000) / (htotal1 as nat * vtotal1 as nat) <= (dot_clock2 as nat
            * 1000) / (htotal2 as nat * vtotal2 as nat),
    ensures
        refresh_period_micros(dot_clock2, htotal2, vtotal2) <= refresh_period_micros(
            dot_clock1,
            htotal1,
            vtotal1,
        ),
{
    let m1 = (dot_clock1 as nat * 1000) / (htotal1 as nat * vtotal1 as nat);
    let m2 = (dot_clock2 as nat * 1000) / (htotal2 as nat * vtotal2 as nat);
    vstd::arithmetic::div_mod::lemma_div_is_ordered_by_denominator(1_000_000_000, m1 as int, m2 as int);
}

/// The frame period of a display mode, in microseconds. A mode whose
/// refresh rate rounds to zero millihertz has no period.
pub fn mode_refresh_rate(dot_clock: u32, htotal: u16, vtotal: u16) -> (r: u64)
    requires
        dot_clock == 0 || htotal == 0 || vtotal == 0 || (dot_clock as nat * 1000) / (htotal as nat
            * vtotal as nat) > 0,
    ensures
        r == refresh_period_micros(dot_clock, htotal, vtotal),
{
    if dot_clock == 0 || htotal == 0 || vtotal == 0 {
        return 16000;
    }
    let d: u64 = dot_clock as u64;
    let h: u64 = htotal as u64;
    let v: u64 = vtotal as u64;
    proof {
        assert(h * v <= 65535 * 65535) by (nonlinear_arith)
            requires
                h <= 65535,
                v <= 65535,
        ;
        assert(h * v > 0) by (nonlinear_arith)
            requires
                h > 0,
                v > 0,
        ;
    }
    let num: u64 = d * 1000;
    let den: u64 = h * v;
    let millihertz = num / den;
    1_000_000_000u64 / millihertz
}

/// A visual: its id, colormap and depth.
#[derive(Clone, Copy, Debug, PartialEq, Eq, Structural)]
pub struct Visual {
    pub id: u32,
    pub colormap: u32,
    pub depth: u8,
}

/// A visual type as the screen lists it under a depth.
#[derive(Clone, Copy, Debug)]
pub struct VisualCandidate {
    pub visual_id: u32,
    pub depth: u8,
    pub red_mask: u32,
    pub green_mask: u32,
    pub blue_mask: u32,
}

/// Whether the candidate uses 8-bit RGB channels in the usual places.
pub open spec fn is_rgb888(c: VisualCandidate) -> bool {
    c.red_mask == 0xFF0000 && c.green_mask == 0xFF00 && c.blue_mask == 0xFF
}

/// Whether the candidate's depth leaves bits for alpha beside the colors.
pub open spec fn has_alpha(c: VisualCandidate) -> bool {
    ((c.red_mask | c.green_mask | c.blue_mask) as u64 ^ (((1u64 << (c.depth as u64)) - 1) as u64))
        != 0
}

pub open spec fn as_visual(c: VisualCandidate) -> Visual {
    Visual { id: c.visual_id, colormap: 0, depth: c.depth }
}

/// The first RGB888 visual without alpha (opaque) and the first with alpha
/// (transparent), in the order the screen lists them.
pub open spec fn pick_visuals(cs: Seq<VisualCandidate>) -> (Option<Visual>, Option<Visual>)
    decreases cs.len(),
{
    if cs.len() == 0 {
        (None, None)
    } else {
        let (opaque, transparent) = pick_visuals(cs.drop_last());
        let c = cs.last();
        if !is_rgb888(c) {
            (opaque, transparent)
        } else if !has_alpha(c) {
            (
                if opaque is Some {
                    opaque
                } else {
                    Some(as_visual(c))
                },
                transparent,
            )
        } else {
            (
                opaque,
                if transparent is Some {
                    transparent
                } else {
                    Some(as_visual(c))
                },
            )
        }
    }
}

/// The visuals that windows can use: the screen's own, an opaque and a
/// transparent RGB888 one if the screen offers them.
pub struct VisualSet {
    pub inherit: Visual,
    pub opaque: Option<Visual>,
    pub transparent: Option<Visual>,
    pub root: u32,
    pub black_pixel: u32,
}

/// Picks the opaque and the transparent visual among the candidates.
pub fn find_visuals(
    inherit: Visual,
    root: u32,
    black_pixel: u32,
    candidates: &[VisualCandidate],
) -> (r: VisualSet)
    requires
        forall|i: int| 0 <= i < candidates@.len() ==> #[trigger] candidates@[i].depth < 64,
    ensures
        (r.opaque, r.transparent) == pick_visuals(candidates@),
        r.inherit == inherit,
        r.root == root,
        r.black_pixel == black_pixel,
{
    let mut opaque: Option<Visual> = None;
    let mut transparent: Option<Visual> = None;
    let mut i: usize = 0;
    proof {
        assert(candidates@.take(0) =~= Seq::<VisualCandidate>::empty());
    }
    while i < candidates.len()
        invariant
            i <= candidates@.len(),
            forall|k: int| 0 <= k < candidates@.len() ==> #[trigger] candidates@[k].depth < 64,
            (opaque, transparent) == pick_visuals(candidates@.take(i as int)),
        decreases candidates@.len() - i,
    {
        let c = candidates[i];
        proof {
            let t = candidates@.take(i + 1);
            assert(t.drop_last() =~= candidates@.take(i as int));
            assert(t.last() == c);
        }
        if c.red_mask == 0xFF0000 && c.green_mask == 0xFF00 && c.blue_mask == 0xFF {
            let color_mask = c.red_mask | c.green_mask | c.blue_mask;
            let shift: u64 = c.depth as u64;
            proof {
                assert(shift < 64 ==> (1u64 << shift) >= 1) by (bit_vector);
            }
            let depth_mask: u64 = (1u64 << shift) - 1;
            let alpha_mask = color_mask as u64 ^ depth_mask;
            let visual = Visual { id: c.visual_id, colormap: 0, depth: c.depth };
            if alpha_mask == 0 {
                if opaque.is_none() {
                    opaque = Some(visual);
                }
            } else {
                if transparent.is_none() {
                    transparent = Some(visual);
                }
            }
        }
        i = i + 1;
    }
    proof {
        assert(candidates@.take(candidates@.len() as int) =~= candidates@);
    }
    VisualSet { inherit, opaque, transparent, root, black_pixel }
}

/// Whether the keyboard layout changed: the effective layout's name differs
/// from the one in use (the new name is then taken over and the callback
/// runs).
pub fn keyboard_layout_changed(current_name: &str, effective_name: &str) -> (r: bool)
    ensures
        r == (current_name@ != effective_name@),
{
    !str_equal(current_name, effective_name)
}

/// Whether the input method is composing after a pre-edit: exactly while the
/// pre-edit text is not empty.
pub fn composing_after_preedit(text: &str) -> (r: bool)
    ensures
        r == (text@.len() > 0),
{
    text.unicode_len() > 0
}

} // verus!
