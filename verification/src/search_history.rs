//! How the search bars walk their query history: which history entry a
//! step asks for and what is done with the answer. The history itself (its
//! entries and cursor) belongs to the project.
use vstd::prelude::*;

use crate::project_search::SearchInputKind;

verus! {

/// What a step back in the history asks of it.
#[derive(Clone, Copy, Debug, PartialEq, Eq, Structural)]
pub enum PreviousHistoryPlan {
    /// The editor keeps the key (the cursor is not on its first line): the
    /// action goes on to the parent.
    Propagate,
    /// The query is empty: show the entry under the cursor, if there is one,
    /// and else step back.
    CurrentEntry,
    /// Step back from the current query.
    PreviousEntry,
}

/// The plan of a step back, from whether the editor lets the history move
/// and whether the query is empty.
pub fn previous_history_plan(should_navigate: bool, query: &str) -> (r: PreviousHistoryPlan)
    ensures
        !should_navigate ==> r == PreviousHistoryPlan::Propagate,
        should_navigate && query@.len() == 0 ==> r == PreviousHistoryPlan::CurrentEntry,
        should_navigate && query@.len() > 0 ==> r == PreviousHistoryPlan::PreviousEntry,
{
    if !should_navigate {
        PreviousHistoryPlan::Propagate
    } else if query.unicode_len() == 0 {
        PreviousHistoryPlan::CurrentEntry
    } else {
        PreviousHistoryPlan::PreviousEntry
    }
}

/// What a step forward does with the history's answer.
#[derive(Debug)]
pub enum NextHistoryStep {
    /// The editor keeps the key: the action goes on to the parent.
    Propagate,
    /// Search for this entry.
    Search(String),
    /// Past the newest entry: restore the draft kept by the cursor, if any.
    RestoreDraft,
}

/// The step forward, from whether the editor lets the history move and the
/// entry that the history gives (`None` past its end).
pub fn next_history_step(should_navigate: bool, next_entry: Option<String>) -> (r: NextHistoryStep)
    ensures
        !should_navigate ==> r is Propagate,
        should_navigate ==> match next_entry {
            Some(e) => r matches NextHistoryStep::Search(q) && q@ == e@,
            None => r is RestoreDraft,
        },
{
    if !should_navigate {
        return NextHistoryStep::Propagate;
    }
    match next_entry {
        Some(e) => NextHistoryStep::Search(e),
        None => NextHistoryStep::RestoreDraft,
    }
}

/// The input of the project search whose history a step walks: the first
/// of the query, the include filter and the exclude filter that has focus.
pub fn focused_history_input(
    query_focused: bool,
    include_focused: bool,
    exclude_focused: bool,
) -> (r: Option<SearchInputKind>)
    ensures
        query_focused ==> r == Some(SearchInputKind::Query),
        !query_focused && include_focused ==> r == Some(SearchInputKind::Include),
        !query_focused && !include_focused && exclude_focused ==> r == Some(
            SearchInputKind::Exclude,
        ),
        !query_focused && !include_focused && !exclude_focused ==> r is None,
{
    if query_focused {
        Some(SearchInputKind::Query)
    } else if include_focused {
        Some(SearchInputKind::Include)
    } else if exclude_focused {
        Some(SearchInputKind::Exclude)
    } else {
        None
    }
}

} // verus!
