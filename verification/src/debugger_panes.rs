//! The panes of the debugger: what a tab dropped on one of its views does,
//! and when a view's tab shows an activity dot.
use vstd::prelude::*;

verus! {

/// Where a dragged tab may split the pane it is dropped on.
#[derive(Clone, Copy, Debug, PartialEq, Eq, Structural)]
pub enum SplitDirection {
    Up,
    Down,
    Left,
    Right,
}

/// What dropping something on a debugger view does.
#[derive(Clone, Copy, Debug, PartialEq, Eq, Structural)]
pub enum DropOutcome {
    /// The drop is taken and nothing moves: it is no tab, the view's pane is
    /// gone, or the tab is not a debugger view.
    Ignored,
    /// The drop is left to the pane (it is not on a split edge).
    LeftToPane,
    /// A new pane is split off in this direction and the tab moves there.
    SplitAndMove(SplitDirection),
}

/// What a drop on a debugger view does, from what was dropped and where.
pub fn drop_outcome(
    is_tab: bool,
    host_pane_alive: bool,
    tab_is_debugger_view: bool,
    split: Option<SplitDirection>,
) -> (r: DropOutcome)
    ensures
        !(is_tab && host_pane_alive && tab_is_debugger_view) ==> r == DropOutcome::Ignored,
        is_tab && host_pane_alive && tab_is_debugger_view ==> r == match split {
            Some(d) => DropOutcome::SplitAndMove(d),
            None => DropOutcome::LeftToPane,
        },
{
    if !is_tab || !host_pane_alive || !tab_is_debugger_view {
        return DropOutcome::Ignored;
    }
    match split {
        Some(d) => DropOutcome::SplitAndMove(d),
        None => DropOutcome::LeftToPane,
    }
}

/// Whether the pane reports the drop as handled.
pub fn drop_handled(outcome: DropOutcome) -> (r: bool)
    ensures
        r == !(outcome == DropOutcome::LeftToPane),
{
    match outcome {
        DropOutcome::LeftToPane => false,
        _ => true,
    }
}

/// Whether a view's tab shows the activity dot: the view has something new
/// and its tab is not the selected one.
pub fn tab_shows_indicator(selected: bool, has_news: bool) -> (r: bool)
    ensures
        r == (!selected && has_news),
{
    !selected && has_news
}

} // verus!
