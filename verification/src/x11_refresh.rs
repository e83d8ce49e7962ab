//! The refresh loop of an X11 window: when it runs, at what rate, which
//! deadline comes next, and what each frame asks of the renderer.
use vstd::prelude::*;

use crate::x11::refresh_period_micros;

verus! {

/// The frame period, in microseconds, when the display mode is unknown:
/// 60 Hz.
pub const DEFAULT_REFRESH_MICROS: u64 = 16666;

/// The refresh state of a window.
#[derive(Clone, Copy, Debug, PartialEq, Eq, Structural)]
pub enum RefreshState {
    /// The window cannot be seen; the rate is kept for when it can.
    Hidden { rate_micros: u64 },
    /// A timer refreshes the window at this rate; `token` removes it.
    Periodic { rate_micros: u64, token: u64 },
}

/// What the refresh loop of a window needs done.
#[derive(Clone, Copy, Debug, PartialEq, Eq, Structural)]
pub enum RefreshAction {
    Nothing,
    /// Remove the timer with this token.
    StopTimer { token: u64 },
    /// Start a timer at this rate, and record it with `timer_started`.
    StartTimer { rate_micros: u64 },
    /// Look up the display mode of the window, then start a timer at its
    /// rate (`rate_for_mode`) and record it with `timer_started`.
    QueryModeThenStart,
}

/// Whether a window can be seen: it is mapped and not fully obscured.
pub open spec fn is_visible(is_mapped: bool, fully_obscured: bool) -> bool {
    is_mapped && !fully_obscured
}

/// Brings the refresh loop in line with the window's visibility: a window
/// that becomes hidden stops its timer and keeps its rate; one that becomes
/// visible starts a timer, at its kept rate or, the first time, at the rate
/// of its display mode; otherwise nothing changes.
pub fn refresh_step(state: &mut Option<RefreshState>, is_mapped: bool, fully_obscured: bool) -> (r:
    RefreshAction)
    ensures
        match (is_visible(is_mapped, fully_obscured), *old(state)) {
            (false, Some(RefreshState::Periodic { rate_micros, token })) => r
                == RefreshAction::StopTimer { token } && *final(state) == Some(
                RefreshState::Hidden { rate_micros },
            ),
            (true, Some(RefreshState::Hidden { rate_micros })) => r == RefreshAction::StartTimer {
                rate_micros,
            } && *final(state) == *old(state),
            (true, None) => r == RefreshAction::QueryModeThenStart && *final(state) is None,
            _ => r == RefreshAction::Nothing && *final(state) == *old(state),
        },
{
    let visible = is_mapped && !fully_obscured;
    match *state {
        Some(RefreshState::Periodic { rate_micros, token }) => {
            if visible {
                RefreshAction::Nothing
            } else {
                *state = Some(RefreshState::Hidden { rate_micros });
                RefreshAction::StopTimer { token }
            }
        },
        Some(RefreshState::Hidden { rate_micros }) => {
            if visible {
                RefreshAction::StartTimer { rate_micros }
            } else {
                RefreshAction::Nothing
            }
        },
        None => {
            if visible {
                RefreshAction::QueryModeThenStart
            } else {
                RefreshAction::Nothing
            }
        },
    }
}

/// Records the timer that was started at `rate_micros`.
pub fn timer_started(state: &mut Option<RefreshState>, rate_micros: u64, token: u64)
    ensures
        *final(state) == Some(RefreshState::Periodic { rate_micros, token }),
{
    *state = Some(RefreshState::Periodic { rate_micros, token });
}

/// The frame period of a window's display mode (clock and totals of the
/// mode found for it), or 60 Hz when no mode was found.
pub fn rate_for_mode(mode: Option<(u32, u16, u16)>) -> (r: u64)
    requires
        mode matches Some((d, h, v)) ==> (d == 0 || h == 0 || v == 0 || (d as nat * 1000) / (
        h as nat * v as nat) > 0),
    ensures
        r == match mode {
            Some((d, h, v)) => refresh_period_micros(d, h, v),
            None => DEFAULT_REFRESH_MICROS as nat,
        },
{
    match mode {
        Some((d, h, v)) => crate::x11::mode_refresh_rate(d, h, v),
        None => DEFAULT_REFRESH_MICROS,
    }
}

/// The next deadline of a timer that was due at `due` with period `period`:
/// the first of `due`, `due + period`, `due + 2 * period`, ... that is not
/// before `now`, so that frames missed meanwhile are skipped.
pub fn next_deadline(due: u64, now: u64, period: u64) -> (r: u64)
    requires
        period > 0,
        now as nat + period as nat <= u64::MAX as nat,
    ensures
        r >= now,
        r >= due,
        (r - due) % (period as int) == 0,
        r == due || r - period < now,
{
    if due >= now {
        return due;
    }
    let gap: u64 = now - due;
    let steps: u64 = (gap + period - 1) / period;
    proof {
        assert(steps * period >= gap) by (nonlinear_arith)
            requires
                period > 0,
                steps as int == (gap as int + period as int - 1) / (period as int),
        ;
        assert(steps * period < gap + period) by (nonlinear_arith)
            requires
                period > 0,
                steps as int == (gap as int + period as int - 1) / (period as int),
        ;
        assert(steps * period <= u64::MAX - due) by (nonlinear_arith)
            requires
                steps * period < gap + period,
                gap == now - due,
                now + period <= u64::MAX,
        ;
        assert((steps * period) % (period as int) == 0) by (nonlinear_arith)
            requires
                period > 0,
        ;
        assert(steps >= 1) by (nonlinear_arith)
            requires
                period > 0,
                gap > 0,
                steps as int == (gap as int + period as int - 1) / (period as int),
        ;
    }
    due + steps * period
}

/// The flags a window keeps for its next frame.
#[derive(Clone, Copy, Debug, PartialEq, Eq, Structural)]
pub struct FrameFlags {
    /// An expose event arrived since the last frame.
    pub expose_event_received: bool,
    /// The renderer recovered and must draw again.
    pub force_render_after_recovery: bool,
}

/// What a frame asks of the window.
#[derive(Clone, Copy, Debug, PartialEq, Eq, Structural)]
pub struct FrameRequest {
    /// The frame must be presented (the window was exposed).
    pub require_presentation: bool,
    pub force_render: bool,
}

/// Takes the window's flags for a frame: the frame carries them and they
/// are cleared.
pub fn take_frame_request(flags: &mut FrameFlags) -> (r: FrameRequest)
    ensures
        r.require_presentation == old(flags).expose_event_received,
        r.force_render == old(flags).force_render_after_recovery,
        !final(flags).expose_event_received,
        !final(flags).force_render_after_recovery,
{
    let r = FrameRequest {
        require_presentation: flags.expose_event_received,
        force_render: flags.force_render_after_recovery,
    };
    flags.expose_event_received = false;
    flags.force_render_after_recovery = false;
    r
}

} // verus!
