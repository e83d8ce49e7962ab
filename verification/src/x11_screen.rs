//! Screen facts of the X11 client: where the scale factor comes from, which
//! monitor sets it, whether a compositor runs, and the property values
//! that the server hands back as raw bytes.
use vstd::prelude::*;

use crate::text::{chars_of, decimal, push_decimal, string_from_chars};

verus! {

/// What the scale-factor environment variable asks for.
#[derive(Clone, Copy, Debug, PartialEq, Eq, Structural)]
pub enum ScaleRequest {
    /// The variable is unset or empty.
    NotSet,
    /// `randr` (in any case): measure the monitors.
    Randr,
    /// A valid scale factor.
    Scale,
}

/// Where the scale factor is taken from.
#[derive(Clone, Copy, Debug, PartialEq, Eq, Structural)]
pub enum ScaleSource {
    /// The factor that the environment gives.
    Environment,
    /// The monitors' factor (RandR).
    Randr,
    /// `Xft.dpi` over 96.
    XftDpi,
    /// 1.0.
    Default,
}

/// Where the scale factor comes from: the environment's factor first; with
/// `randr` asked for, the monitors or else 1.0; otherwise `Xft.dpi`, then
/// the monitors, then 1.0.
pub fn scale_source(request: ScaleRequest, has_xft_dpi: bool, randr_available: bool) -> (r:
    ScaleSource)
    ensures
        r == match request {
            ScaleRequest::Scale => ScaleSource::Environment,
            ScaleRequest::Randr => if randr_available {
                ScaleSource::Randr
            } else {
                ScaleSource::Default
            },
            ScaleRequest::NotSet => if has_xft_dpi {
                ScaleSource::XftDpi
            } else if randr_available {
                ScaleSource::Randr
            } else {
                ScaleSource::Default
            },
        },
{
    match request {
        ScaleRequest::Scale => ScaleSource::Environment,
        ScaleRequest::Randr => if randr_available {
            ScaleSource::Randr
        } else {
            ScaleSource::Default
        },
        ScaleRequest::NotSet => if has_xft_dpi {
            ScaleSource::XftDpi
        } else if randr_available {
            ScaleSource::Randr
        } else {
            ScaleSource::Default
        },
    }
}

/// Whether the RandR version predates monitors (1.5): the older outputs and
/// CRTCs are measured instead.
pub fn randr_needs_legacy_path(major: u32, minor: u32) -> (r: bool)
    ensures
        r == (major < 1 || (major == 1 && minor < 5)),
{
    major < 1 || (major == 1 && minor < 5)
}

/// A monitor as RandR reports it.
#[derive(Clone, Copy, Debug, PartialEq, Eq, Structural)]
pub struct MonitorInfo {
    pub width_mm: u32,
    pub height_mm: u32,
    pub primary: bool,
}

/// Whether a monitor's size is known (both dimensions non-zero).
pub open spec fn has_physical_size(m: MonitorInfo) -> bool {
    m.width_mm != 0 && m.height_mm != 0
}

/// The first measurable monitor at or after `from`, that is primary when
/// `primary` is set.
pub open spec fn first_measurable(monitors: Seq<MonitorInfo>, primary: bool, i: int) -> bool {
    &&& 0 <= i < monitors.len()
    &&& has_physical_size(monitors[i])
    &&& (primary ==> monitors[i].primary)
    &&& forall|j: int|
        0 <= j < i ==> !(has_physical_size(monitors[j]) && (primary ==> monitors[j].primary))
}

/// The monitor whose density sets the scale factor: the first measurable
/// primary monitor, else the first measurable monitor, else none.
pub fn scale_monitor(monitors: &[MonitorInfo]) -> (r: Option<usize>)
    ensures
        match r {
            Some(i) => if exists|k: int| first_measurable(monitors@, true, k) {
                first_measurable(monitors@, true, i as int)
            } else {
                first_measurable(monitors@, false, i as int)
            },
            None => !exists|k: int| first_measurable(monitors@, false, k),
        },
{
    let mut fallback: Option<usize> = None;
    let mut i: usize = 0;
    while i < monitors.len()
        invariant
            i <= monitors@.len(),
            forall|j: int|
                0 <= j < i ==> !(has_physical_size(monitors@[j]) && monitors@[j].primary),
            match fallback {
                Some(f) => first_measurable(monitors@, false, f as int) && f < i,
                None => forall|j: int| 0 <= j < i ==> !has_physical_size(monitors@[j]),
            },
        decreases monitors@.len() - i,
    {
        let m = monitors[i];
        if m.width_mm != 0 && m.height_mm != 0 {
            if m.primary {
                proof {
                    assert(first_measurable(monitors@, true, i as int));
                }
                return Some(i);
            } else if fallback.is_none() {
                fallback = Some(i);
            }
        }
        i = i + 1;
    }
    proof {
        assert(!exists|k: int| first_measurable(monitors@, true, k)) by {
            if exists|k: int| first_measurable(monitors@, true, k) {
                let k = choose|k: int| first_measurable(monitors@, true, k);
                assert(has_physical_size(monitors@[k]) && monitors@[k].primary);
            }
        }
        match fallback {
            None => {
                assert(!exists|k: int| first_measurable(monitors@, false, k)) by {
                    if exists|k: int| first_measurable(monitors@, false, k) {
                        let k = choose|k: int| first_measurable(monitors@, false, k);
                        assert(has_physical_size(monitors@[k]));
                    }
                }
            },
            Some(f) => {},
        }
    }
    fallback
}

/// An output as the older RandR reports it, with the CRTC it drives.
#[derive(Clone, Copy, Debug, PartialEq, Eq, Structural)]
pub struct OutputInfo {
    pub connected: bool,
    pub width_mm: u32,
    pub height_mm: u32,
    pub crtc: u32,
}

/// Whether the primary output can be measured: it is connected, has a
/// physical size and drives a CRTC.
pub fn primary_output_measurable(output: OutputInfo) -> (r: bool)
    ensures
        r == (output.connected && output.width_mm > 0 && output.height_mm > 0 && output.crtc
            != 0),
{
    output.connected && output.width_mm > 0 && output.height_mm > 0 && output.crtc != 0
}

/// Whether a CRTC shows something: a non-empty mode driving some output.
pub fn crtc_in_use(width: u16, height: u16, output_count: usize) -> (r: bool)
    ensures
        r == (width > 0 && height > 0 && output_count > 0),
{
    width > 0 && height > 0 && output_count > 0
}

/// Whether an output found by the full scan may set the scale factor: it
/// is connected, has a physical size, and is not the primary output.
pub fn fallback_output_usable(output: OutputInfo, output_id: u32, primary_output: u32) -> (r: bool)
    ensures
        r == (output.connected && output.width_mm != 0 && output.height_mm != 0 && output_id
            != primary_output),
{
    output.connected && output.width_mm != 0 && output.height_mm != 0 && output_id
        != primary_output
}

/// The name of the compositing-manager selection of a screen:
/// `_NET_WM_CM_S` and the screen's root window, in decimal.
pub fn compositor_selection_name(root: u32) -> (r: String)
    ensures
        r@ == "_NET_WM_CM_S"@ + decimal(root as nat),
{
    let mut out = chars_of("_NET_WM_CM_S");
    push_decimal(&mut out, root as u128);
    string_from_chars(out.as_slice())
}

/// What a compositor check found: `None` when its atom could not be
/// interned (or is `NONE`), else whether it found a compositor.
pub type CheckResult = Option<bool>;

/// Whether a compositor runs, from the three checks (the selection owner of
/// `_NET_WM_CM_S{root}`, `_NET_WM_CM_OWNER`, `_NET_SUPPORTING_WM_CHECK`):
/// a missing atom for the second or third check means no compositor, a
/// missing atom for the first only fails that check; otherwise any check
/// that finds one suffices.
pub fn compositor_present(selection: CheckResult, owner: CheckResult, wm_check: CheckResult) -> (r:
    bool)
    ensures
        r == match (owner, wm_check) {
            (Some(b), Some(c)) => selection == Some(true) || b || c,
            _ => false,
        },
{
    let method1 = match selection {
        Some(b) => b,
        None => false,
    };
    let method2 = match owner {
        Some(b) => b,
        None => return false,
    };
    let method3 = match wm_check {
        Some(b) => b,
        None => return false,
    };
    method1 || method2 || method3
}

/// The number that four bytes hold in little-endian order.
pub open spec fn le_u32(b: Seq<u8>) -> u32 {
    (b[0] as int + b[1] as int * 0x100 + b[2] as int * 0x10000 + b[3] as int * 0x1000000) as u32
}

/// The number that four bytes hold in big-endian order.
pub open spec fn be_u32(b: Seq<u8>) -> u32 {
    (b[3] as int + b[2] as int * 0x100 + b[1] as int * 0x10000 + b[0] as int * 0x1000000) as u32
}

/// `u32::from_ne_bytes`: the number that four bytes hold in the machine's
/// byte order. The machine's order is not stated; the contract claims only
/// that it is little- or big-endian, as the documentation says.
#[verifier::external_body]
fn u32_from_ne_bytes(b0: u8, b1: u8, b2: u8, b3: u8) -> (r: u32)
    ensures
        r == le_u32(seq![b0, b1, b2, b3]) || r == be_u32(seq![b0, b1, b2, b3]),
{
    u32::from_ne_bytes([b0, b1, b2, b3])
}

/// The 32-bit values of a property, from its bytes in the machine's order;
/// a trailing partial value is ignored.
pub fn property_values32(bytes: &[u8]) -> (r: Vec<u32>)
    ensures
        r@.len() == bytes@.len() / 4,
        forall|i: int|
            0 <= i < r@.len() ==> (#[trigger] r@[i] == le_u32(bytes@.subrange(4 * i, 4 * i + 4))
                || r@[i] == be_u32(bytes@.subrange(4 * i, 4 * i + 4))),
{
    let mut out: Vec<u32> = Vec::new();
    let len = bytes.len();
    let n = len / 4;
    let mut i: usize = 0;
    while i < n
        invariant
            len == bytes@.len(),
            n == bytes@.len() / 4,
            i <= n,
            out@.len() == i,
            forall|k: int|
                0 <= k < i ==> (#[trigger] out@[k] == le_u32(bytes@.subrange(4 * k, 4 * k + 4))
                    || out@[k] == be_u32(bytes@.subrange(4 * k, 4 * k + 4))),
        decreases n - i,
    {
        proof {
            assert(4 * i + 4 <= len) by (nonlinear_arith)
                requires
                    i < n,
                    n == len / 4,
            ;
        }
        let j = 4 * i;
        let v = u32_from_ne_bytes(bytes[j], bytes[j + 1], bytes[j + 2], bytes[j + 3]);
        proof {
            let c = bytes@.subrange(4 * i, 4 * i + 4);
            assert(c =~= seq![bytes@[j as int], bytes@[j + 1], bytes@[j + 2], bytes@[j + 3]]);
        }
        out.push(v);
        i = i + 1;
    }
    out
}

/// Whether the window manager supports `_GTK_FRAME_EXTENTS`: its atom is
/// among the supported ones.
pub fn frame_extents_supported(supported: &[u32], frame_extents_atom: u32) -> (r: bool)
    ensures
        r == supported@.contains(frame_extents_atom),
{
    let mut i: usize = 0;
    while i < supported.len()
        invariant
            i <= supported@.len(),
            forall|k: int| 0 <= k < i ==> supported@[k] != frame_extents_atom,
        decreases supported@.len() - i,
    {
        if supported[i] == frame_extents_atom {
            proof {
                assert(supported@[i as int] == frame_extents_atom);
            }
            return true;
        }
        i = i + 1;
    }
    false
}

/// The edge-constraints value of a window from its property bytes: the
/// first 32-bit value, when the property is not empty.
pub fn edge_constraints_value(bytes: &[u8]) -> (r: Option<u32>)
    requires
        bytes@.len() == 0 || bytes@.len() >= 4,
    ensures
        bytes@.len() == 0 <==> r is None,
        r matches Some(v) ==> (v == le_u32(bytes@.subrange(0, 4)) || v == be_u32(
            bytes@.subrange(0, 4),
        )),
{
    if bytes.len() == 0 {
        return None;
    }
    let v = u32_from_ne_bytes(bytes[0], bytes[1], bytes[2], bytes[3]);
    proof {
        assert(bytes@.subrange(0, 4) =~= seq![bytes@[0], bytes@[1], bytes@[2], bytes@[3]]);
    }
    Some(v)
}

} // verus!
