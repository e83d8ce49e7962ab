//! The state of a project-wide search: the search model (its results and
//! progress), the view that edits a search, and the toolbar that drives it.
use vstd::prelude::*;

use crate::search_options::{
    contains_bits, contains_uppercase, cycle_index, cycled_index, has_uppercase, Direction,
    SearchOptions, CASE_SENSITIVE_BIT, REGEX_BIT, WHOLE_WORD_BIT,
};
use crate::buffer_search::ToolbarItemLocation;
use crate::text::{decimal, push_decimal, str_equal, string_from_chars};

verus! {

/// A match in the results, as offsets into the results buffer.
#[derive(Clone, Copy, Debug, PartialEq, Eq, Structural)]
pub struct MatchRange {
    pub start: usize,
    pub end: usize,
}

/// The three inputs that keep a search history.
#[derive(Clone, Copy, Debug, PartialEq, Eq, Structural)]
pub enum SearchInputKind {
    Query,
    Include,
    Exclude,
}

/// The input fields of the search view.
#[derive(Clone, Copy, Debug, PartialEq, Eq, Structural)]
pub enum InputPanel {
    Query,
    Replacement,
    Include,
    Exclude,
}

/// Where one input stands in its history: the entry shown, if any.
#[derive(Clone, Copy, Debug, PartialEq, Eq, Structural)]
pub struct SearchHistoryCursor {
    pub selection: Option<usize>,
}

/// What a running search is doing.
#[derive(Clone, Copy, Debug, PartialEq, Eq, Structural)]
pub enum SearchActivity {
    WaitingForScan,
    Searching,
}

/// How a finished search ended.
#[derive(Clone, Copy, Debug, PartialEq, Eq, Structural)]
pub enum SearchCompletion {
    NoResults,
    Results { limit_reached: bool },
}

/// The progress of a search.
#[derive(Clone, Copy, Debug, PartialEq, Eq, Structural)]
pub enum SearchState {
    Idle,
    Running(SearchActivity),
    Completed(SearchCompletion),
}

impl SearchState {
    /// Whether the search stopped at the result limit.
    pub fn limit_reached(&self) -> (r: bool)
        ensures
            r == (*self == SearchState::Completed(SearchCompletion::Results { limit_reached: true })),
    {
        match self {
            SearchState::Completed(SearchCompletion::Results { limit_reached }) => *limit_reached,
            _ => false,
        }
    }
}

/// One item of a chunk of search results.
#[derive(Clone, Copy, Debug, PartialEq, Eq, Structural)]
pub enum SearchResultItem {
    /// A buffer with this many matching ranges.
    Buffer { ranges: usize },
    LimitReached,
    WaitingForScan,
    Searching,
}

/// What a chunk of results amounts to: the buffers with their match counts,
/// whether the limit was reached, and the last activity reported.
pub open spec fn summarize_chunk(items: Seq<SearchResultItem>) -> (Seq<usize>, bool, Option<
    SearchActivity,
>)
    decreases items.len(),
{
    if items.len() == 0 {
        (Seq::empty(), false, None)
    } else {
        let (buffers, limit, activity) = summarize_chunk(items.drop_last());
        match items.last() {
            SearchResultItem::Buffer { ranges } => (buffers.push(ranges), limit, activity),
            SearchResultItem::LimitReached => (buffers, true, activity),
            SearchResultItem::WaitingForScan => (
                buffers,
                limit,
                Some(SearchActivity::WaitingForScan),
            ),
            SearchResultItem::Searching => (buffers, limit, Some(SearchActivity::Searching)),
        }
    }
}

/// Sorts a chunk of results into buffers, the limit flag and the activity.
pub fn summarize_search_chunk(items: &[SearchResultItem]) -> (r: (Vec<usize>, bool, Option<
    SearchActivity,
>))
    ensures
        (r.0@, r.1, r.2) == summarize_chunk(items@),
{
    let mut buffers: Vec<usize> = Vec::new();
    let mut limit_reached = false;
    let mut activity: Option<SearchActivity> = None;
    let mut i: usize = 0;
    proof {
        assert(items@.take(0) =~= Seq::<SearchResultItem>::empty());
        assert(buffers@ =~= Seq::<usize>::empty());
    }
    while i < items.len()
        invariant
            i <= items@.len(),
            (buffers@, limit_reached, activity) == summarize_chunk(items@.take(i as int)),
        decreases items@.len() - i,
    {
        proof {
            let t = items@.take(i + 1);
            assert(t.drop_last() =~= items@.take(i as int));
            assert(t.last() == items@[i as int]);
        }
        match items[i] {
            SearchResultItem::Buffer { ranges } => {
                buffers.push(ranges);
            },
            SearchResultItem::LimitReached => {
                limit_reached = true;
            },
            SearchResultItem::WaitingForScan => {
                activity = Some(SearchActivity::WaitingForScan);
            },
            SearchResultItem::Searching => {
                activity = Some(SearchActivity::Searching);
            },
        }
        i = i + 1;
    }
    proof {
        assert(items@.take(items@.len() as int) =~= items@);
    }
    (buffers, limit_reached, activity)
}

/// A query that a project search ran: its text, its replacement, if it has
/// one, and the options it was built with.
#[derive(Clone, Debug)]
pub struct ActiveQuery {
    pub text: String,
    pub replacement: Option<String>,
    pub options: SearchOptions,
}

/// A project search: its results and its progress.
pub struct ProjectSearch {
    pub match_ranges: Vec<MatchRange>,
    pub active_query: Option<ActiveQuery>,
    pub last_search_query_text: Option<String>,
    pub search_id: usize,
    pub search_state: SearchState,
    pub pending_search: bool,
    pub search_history_cursor: SearchHistoryCursor,
    pub search_included_history_cursor: SearchHistoryCursor,
    pub search_excluded_history_cursor: SearchHistoryCursor,
}

/// The history cursor of an input.
pub open spec fn cursor_of(s: ProjectSearch, kind: SearchInputKind) -> SearchHistoryCursor {
    match kind {
        SearchInputKind::Query => s.search_history_cursor,
        SearchInputKind::Include => s.search_included_history_cursor,
        SearchInputKind::Exclude => s.search_excluded_history_cursor,
    }
}

/// The matches whose flag is set, in order.
pub open spec fn kept_matches(ms: Seq<MatchRange>, keep: Seq<bool>) -> Seq<MatchRange>
    decreases ms.len(),
{
    if ms.len() == 0 || keep.len() == 0 {
        Seq::empty()
    } else {
        let init = kept_matches(ms.drop_last(), keep.drop_last());
        if keep.last() {
            init.push(ms.last())
        } else {
            init
        }
    }
}

impl ProjectSearch {
    /// A search that has not run.
    pub fn new() -> (r: Self)
        ensures
            r.match_ranges@.len() == 0,
            r.active_query is None,
            r.last_search_query_text is None,
            r.search_id == 0,
            r.search_state == SearchState::Idle,
            !r.pending_search,
            r.search_history_cursor.selection is None,
            r.search_included_history_cursor.selection is None,
            r.search_excluded_history_cursor.selection is None,
    {
        let c = SearchHistoryCursor { selection: None };
        ProjectSearch {
            match_ranges: Vec::new(),
            active_query: None,
            last_search_query_text: None,
            search_id: 0,
            search_state: SearchState::Idle,
            pending_search: false,
            search_history_cursor: c,
            search_included_history_cursor: c,
            search_excluded_history_cursor: c,
        }
    }

    /// A copy that shares the results; a search still under way is not
    /// copied, so the copy is idle then.
    pub fn clone(&self) -> (r: Self)
        ensures
            r.match_ranges@ == self.match_ranges@,
            r.search_id == self.search_id,
            r.search_state == if self.pending_search {
                SearchState::Idle
            } else {
                self.search_state
            },
            !r.pending_search,
            r.active_query.is_some() == self.active_query.is_some(),
            r.search_history_cursor == self.search_history_cursor,
            r.search_included_history_cursor == self.search_included_history_cursor,
            r.search_excluded_history_cursor == self.search_excluded_history_cursor,
    {
        ProjectSearch {
            match_ranges: self.match_ranges.clone(),
            active_query: self.active_query.clone(),
            last_search_query_text: self.last_search_query_text.clone(),
            search_id: self.search_id,
            search_state: if self.pending_search {
                SearchState::Idle
            } else {
                self.search_state
            },
            pending_search: false,
            search_history_cursor: self.search_history_cursor,
            search_included_history_cursor: self.search_included_history_cursor,
            search_excluded_history_cursor: self.search_excluded_history_cursor,
        }
    }

    /// The history cursor of an input.
    pub fn cursor(&self, kind: SearchInputKind) -> (r: &SearchHistoryCursor)
        ensures
            *r == cursor_of(*self, kind),
    {
        match kind {
            SearchInputKind::Query => &self.search_history_cursor,
            SearchInputKind::Include => &self.search_included_history_cursor,
            SearchInputKind::Exclude => &self.search_excluded_history_cursor,
        }
    }

    /// Moves the history cursor of an input.
    pub fn set_cursor(&mut self, kind: SearchInputKind, cursor: SearchHistoryCursor)
        ensures
            cursor_of(*final(self), kind) == cursor,
            forall|k: SearchInputKind| k != kind ==> cursor_of(*final(self), k) == cursor_of(
                *old(self),
                k,
            ),
            final(self).match_ranges == old(self).match_ranges,
            final(self).search_id == old(self).search_id,
            final(self).search_state == old(self).search_state,
    {
        match kind {
            SearchInputKind::Query => {
                self.search_history_cursor = cursor;
            },
            SearchInputKind::Include => {
                self.search_included_history_cursor = cursor;
            },
            SearchInputKind::Exclude => {
                self.search_excluded_history_cursor = cursor;
            },
        }
    }

    /// Starts a search for `query`: a new search id, no results yet, running.
    pub fn search(&mut self, query: ActiveQuery)
        requires
            old(self).search_id < usize::MAX,
        ensures
            final(self).search_id == old(self).search_id + 1,
            final(self).match_ranges@.len() == 0,
            final(self).active_query == Some(query),
            final(self).last_search_query_text == Some(query.text),
            final(self).search_state == SearchState::Running(SearchActivity::Searching),
            final(self).pending_search,
    {
        self.last_search_query_text = Some(query.text.clone());
        self.search_id = self.search_id + 1;
        self.active_query = Some(query);
        self.match_ranges = Vec::new();
        self.search_state = SearchState::Running(SearchActivity::Searching);
        self.pending_search = true;
    }

    /// Drops the matches whose buffer was deleted from disk: `resolvable`
    /// tells, match by match, whether it still lies in a buffer of the
    /// results. The others keep their order.
    pub fn remove_deleted_matches(&mut self, resolvable: &[bool])
        requires
            resolvable@.len() == old(self).match_ranges@.len(),
        ensures
            final(self).match_ranges@ == kept_matches(old(self).match_ranges@, resolvable@),
            final(self).search_id == old(self).search_id,
            final(self).search_state == old(self).search_state,
            final(self).pending_search == old(self).pending_search,
    {
        let mut kept: Vec<MatchRange> = Vec::new();
        let mut i: usize = 0;
        proof {
            assert(self.match_ranges@.take(0) =~= Seq::<MatchRange>::empty());
            assert(kept_matches(self.match_ranges@.take(0), resolvable@.take(0)) =~= kept@);
        }
        while i < self.match_ranges.len()
            invariant
                resolvable@.len() == self.match_ranges@.len(),
                i <= self.match_ranges@.len(),
                kept@ == kept_matches(self.match_ranges@.take(i as int), resolvable@.take(i as int)),
            decreases self.match_ranges@.len() - i,
        {
            let m = self.match_ranges[i];
            proof {
                assert(self.match_ranges@.take(i + 1).drop_last() =~= self.match_ranges@.take(
                    i as int,
                ));
                assert(resolvable@.take(i + 1).drop_last() =~= resolvable@.take(i as int));
            }
            if resolvable[i] {
                kept.push(m);
            }
            i = i + 1;
        }
        proof {
            assert(self.match_ranges@.take(self.match_ranges@.len() as int) =~= self.match_ranges@);
            assert(resolvable@.take(resolvable@.len() as int) =~= resolvable@);
        }
        self.match_ranges = kept;
    }

    /// Takes in one chunk of results: the activity (if reported) becomes the
    /// state, the new matches are appended. Returns whether the chunk reached
    /// the limit.
    pub fn receive_chunk(&mut self, activity: Option<SearchActivity>, new_ranges: Vec<MatchRange>)
        ensures
            final(self).match_ranges@ == old(self).match_ranges@ + new_ranges@,
            final(self).search_state == match activity {
                Some(a) => SearchState::Running(a),
                None => old(self).search_state,
            },
            final(self).search_id == old(self).search_id,
            final(self).pending_search == old(self).pending_search,
    {
        if let Some(a) = activity {
            self.search_state = SearchState::Running(a);
        }
        let mut i: usize = 0;
        let ghost start = self.match_ranges@;
        while i < new_ranges.len()
            invariant
                i <= new_ranges@.len(),
                self.match_ranges@ == start + new_ranges@.take(i as int),
                self.search_state == match activity {
                    Some(a) => SearchState::Running(a),
                    None => old(self).search_state,
                },
                self.search_id == old(self).search_id,
                self.pending_search == old(self).pending_search,
            decreases new_ranges@.len() - i,
        {
            self.match_ranges.push(new_ranges[i]);
            proof {
                assert(new_ranges@.take(i + 1) =~= new_ranges@.take(i as int).push(
                    new_ranges@[i as int],
                ));
            }
            i = i + 1;
        }
        proof {
            assert(new_ranges@.take(new_ranges@.len() as int) =~= new_ranges@);
        }
    }

    /// Ends the search: no results, or results with the limit flag.
    pub fn complete(&mut self, limit_reached: bool)
        ensures
            final(self).search_state == if old(self).match_ranges@.len() == 0 {
                SearchState::Completed(SearchCompletion::NoResults)
            } else {
                SearchState::Completed(SearchCompletion::Results { limit_reached })
            },
            !final(self).pending_search,
            final(self).match_ranges == old(self).match_ranges,
            final(self).search_id == old(self).search_id,
    {
        self.search_state = if self.match_ranges.len() == 0 {
            SearchState::Completed(SearchCompletion::NoResults)
        } else {
            SearchState::Completed(SearchCompletion::Results { limit_reached })
        };
        self.pending_search = false;
    }

    /// Ends the stream of results. Where the search is being turned into a
    /// text finder, the flag is cleared and the results are handed over
    /// (`true`), the search left as it is; otherwise the search completes.
    pub fn finish_stream(&mut self, turning_into_text_finder: &mut bool, limit_reached: bool) -> (handed_over: bool)
        ensures
            handed_over == *old(turning_into_text_finder),
            !*final(turning_into_text_finder),
            handed_over ==> *final(self) == *old(self),
            !handed_over ==> final(self).search_state == (if old(self).match_ranges@.len() == 0 {
                SearchState::Completed(SearchCompletion::NoResults)
            } else {
                SearchState::Completed(SearchCompletion::Results { limit_reached })
            }),
            !handed_over ==> !final(self).pending_search,
            final(self).match_ranges == old(self).match_ranges,
            final(self).search_id == old(self).search_id,
    {
        if *turning_into_text_finder {
            *turning_into_text_finder = false;
            true
        } else {
            self.complete(limit_reached);
            false
        }
    }
}

/// The options and filter visibility that a new search view starts with.
#[derive(Clone, Copy, Debug)]
pub struct ProjectSearchSettings {
    pub search_options: SearchOptions,
    pub filters_enabled: bool,
}

/// The parse errors shown under the inputs.
pub struct PanelErrors {
    pub query: Option<String>,
    pub included: Option<String>,
    pub excluded: Option<String>,
}

/// The outcome of building a query from the view's inputs.
#[derive(Clone, Copy, Debug, PartialEq, Eq, Structural)]
pub enum QueryBuild {
    /// A non-empty query was built.
    Built,
    /// The query was empty.
    Empty,
}

/// The project search view.
pub struct ProjectSearchView {
    pub query_text: String,
    pub replacement_text: String,
    pub search_options: SearchOptions,
    pub filters_enabled: bool,
    pub replace_enabled: bool,
    pub pending_replace_all: bool,
    pub included_opened_only: bool,
    pub active_match_index: Option<usize>,
    pub search_id: usize,
    pub panels_with_errors: PanelErrors,
    pub entity: ProjectSearch,
}

/// What replace-next does.
#[derive(Clone, Copy, Debug, PartialEq, Eq, Structural)]
pub enum ReplaceNextStep {
    /// A search is running, or there is nothing to replace.
    Nothing,
    /// The query text changed since the last search: search again.
    Restart,
    /// Replace this match and move on.
    Replace(usize),
}

/// What replace-all does.
#[derive(Clone, Copy, Debug, PartialEq, Eq, Structural)]
pub enum ReplaceAllStep {
    /// Wait for the running search and replace afterwards.
    AfterSearch,
    /// The query text changed: search again and replace afterwards.
    Restart,
    /// Nothing to replace.
    Nothing,
    /// Replace every match.
    ReplaceAll,
}

/// What selecting the next or previous match does.
#[derive(Clone, Copy, Debug, PartialEq, Eq, Structural)]
pub enum ProjectSelectStep {
    Nothing,
    NoMoreMatches,
    AskEditor { index: usize, direction: Direction },
}

/// The match counter of the search toolbar: `i/n`, `i/n+` when the result
/// limit was reached, `0/0` without an active match or results.
pub open spec fn spec_project_match_text(
    active: Option<usize>,
    count: nat,
    limit_reached: bool,
) -> Seq<char> {
    match active {
        Some(ix) => if count > 0 {
            let base = decimal(ix as nat + 1) + seq!['/'] + decimal(count);
            if limit_reached {
                base.push('+')
            } else {
                base
            }
        } else {
            seq!['0', '/', '0']
        },
        None => seq!['0', '/', '0'],
    }
}

/// The last digit of a number's decimal text is a digit.
proof fn lemma_decimal_ends_in_digit(n: nat)
    ensures
        decimal(n).len() > 0,
        '0' <= decimal(n).last() <= '9',
    decreases n,
{
    if n >= 10 {
        lemma_decimal_ends_in_digit(n / 10);
    }
}

/// The match counter marks a search that hit the result limit, whichever
/// match is active: with an active match among some matches, it ends in
/// `+` exactly when the limit was reached, and otherwise in a digit; with
/// no active match or no matches it reads `0/0`.
pub proof fn lemma_match_counter_marks_limit(active: Option<usize>, count: nat, limit_reached: bool)
    ensures
        ({
            let r = spec_project_match_text(active, count, limit_reached);
            &&& active is Some && count > 0 ==> r.len() > 0 && (r.last() == '+' <==> limit_reached)
            &&& active is Some && count > 0 && !limit_reached ==> '0' <= r.last() <= '9'
            &&& active is Some && count > 0 ==> r[0] != '0'
            &&& (active is None || count == 0) ==> r == seq!['0', '/', '0']
        }),
{
    match active {
        Some(ix) => {
            if count > 0 {
                lemma_decimal_ends_in_digit(count);
                lemma_decimal_starts_nonzero(ix as nat + 1);
            }
        },
        None => {},
    }
}

/// A positive number's decimal text does not start with `0`.
proof fn lemma_decimal_starts_nonzero(n: nat)
    requires
        n > 0,
    ensures
        decimal(n).len() > 0,
        '1' <= decimal(n)[0] <= '9',
    decreases n,
{
    if n >= 10 {
        lemma_decimal_starts_nonzero(n / 10);
    }
}

/// The text of the toolbar's match counter.
pub fn project_match_text(active: Option<usize>, count: usize, limit_reached: bool) -> (r: String)
    ensures
        r@ == spec_project_match_text(active, count as nat, limit_reached),
{
    let mut v: Vec<char> = Vec::new();
    match active {
        Some(ix) => {
            if count > 0 {
                push_decimal(&mut v, ix as u128 + 1);
                v.push('/');
                push_decimal(&mut v, count as u128);
                if limit_reached {
                    v.push('+');
                }
                proof {
                    let base = decimal(ix as nat + 1) + seq!['/'] + decimal(count as nat);
                    if limit_reached {
                        assert(v@ =~= base.push('+'));
                    } else {
                        assert(v@ =~= base);
                    }
                }
                return string_from_chars(v.as_slice());
            }
        },
        None => {},
    }
    v.push('0');
    v.push('/');
    v.push('0');
    proof {
        assert(v@ =~= seq!['0', '/', '0']);
    }
    string_from_chars(v.as_slice())
}

impl ProjectSearchView {
    /// A view of `entity`: the options come from the settings handed over (or
    /// else from the editor defaults, filters hidden), but an active query
    /// brings its own text, replacement and options.
    pub fn new(
        entity: ProjectSearch,
        settings: Option<ProjectSearchSettings>,
        default_options: SearchOptions,
    ) -> (r: Self)
        ensures
            r.search_options == match entity.active_query {
                Some(q) => q.options,
                None => match settings {
                    Some(s) => s.search_options,
                    None => default_options,
                },
            },
            r.replacement_text@ == match entity.active_query {
                Some(q) => match q.replacement {
                    Some(t) => t@,
                    None => Seq::<char>::empty(),
                },
                None => Seq::<char>::empty(),
            },
            r.filters_enabled == match settings {
                Some(s) => s.filters_enabled,
                None => false,
            },
            r.query_text@ == match entity.active_query {
                Some(q) => q.text@,
                None => Seq::<char>::empty(),
            },
            !r.replace_enabled,
            !r.pending_replace_all,
            !r.included_opened_only,
            r.active_match_index is None,
            r.search_id == entity.search_id,
    {
        let (mut options, filters_enabled) = match settings {
            Some(s) => (s.search_options, s.filters_enabled),
            None => (default_options, false),
        };
        let mut query_text = String::new();
        let mut replacement_text = String::new();
        if let Some(q) = &entity.active_query {
            query_text = q.text.clone();
            if let Some(t) = &q.replacement {
                replacement_text = t.clone();
            }
            options = q.options;
        }
        let search_id = entity.search_id;
        ProjectSearchView {
            query_text,
            replacement_text,
            search_options: options,
            filters_enabled,
            replace_enabled: false,
            pending_replace_all: false,
            included_opened_only: false,
            active_match_index: None,
            search_id,
            panels_with_errors: PanelErrors { query: None, included: None, excluded: None },
            entity,
        }
    }

    /// The matches of the search.
    pub fn get_matches(&self) -> (r: Vec<MatchRange>)
        ensures
            r@ == self.entity.match_ranges@,
    {
        self.entity.match_ranges.clone()
    }

    /// The search whose results the results editor shows.
    pub fn results_editor(&self) -> (r: &ProjectSearch)
        ensures
            *r == self.entity,
    {
        &self.entity
    }

    /// The text of the replacement editor.
    pub fn replacement(&self) -> (r: String)
        ensures
            r@ == self.replacement_text@,
    {
        self.replacement_text.clone()
    }

    /// The text of the query editor.
    pub fn search_query_text(&self) -> (r: String)
        ensures
            r@ == self.query_text@,
    {
        self.query_text.clone()
    }

    /// Whether a match is active.
    pub fn has_matches(&self) -> (r: bool)
        ensures
            r == self.active_match_index is Some,
    {
        self.active_match_index.is_some()
    }

    /// The settings that new views of this project take over.
    pub fn current_settings(&self) -> (r: ProjectSearchSettings)
        ensures
            r.search_options == self.search_options,
            r.filters_enabled == self.filters_enabled,
    {
        ProjectSearchSettings { search_options: self.search_options, filters_enabled: self.filters_enabled }
    }

    /// Shows or hides the inclusion and exclusion filters; returns the settings to
    /// remember for the project.
    pub fn toggle_filters(&mut self) -> (r: ProjectSearchSettings)
        ensures
            final(self).filters_enabled == !old(self).filters_enabled,
            final(self).search_options == old(self).search_options,
            r.filters_enabled == final(self).filters_enabled,
            r.search_options == final(self).search_options,
    {
        self.filters_enabled = !self.filters_enabled;
        self.current_settings()
    }

    /// Flips `option`; returns the settings to remember for the project.
    pub fn toggle_search_option(&mut self, option: SearchOptions) -> (r: ProjectSearchSettings)
        ensures
            final(self).search_options.bits == old(self).search_options.bits ^ option.bits,
            final(self).filters_enabled == old(self).filters_enabled,
            final(self).query_text == old(self).query_text,
            final(self).replace_enabled == old(self).replace_enabled,
            final(self).entity == old(self).entity,
            final(self).included_opened_only == old(self).included_opened_only,
            r.search_options == final(self).search_options,
            r.filters_enabled == final(self).filters_enabled,
    {
        self.search_options.toggle(option);
        self.current_settings()
    }

    /// Sets `option` on or off, toggling only when it differs.
    pub fn set_search_option_enabled(&mut self, option: SearchOptions, enabled: bool)
        ensures
            final(self).search_options.bits == if contains_bits(
                old(self).search_options.bits,
                option.bits,
            ) != enabled {
                old(self).search_options.bits ^ option.bits
            } else {
                old(self).search_options.bits
            },
            final(self).filters_enabled == old(self).filters_enabled,
            final(self).query_text == old(self).query_text,
    {
        if self.search_options.contains(option) != enabled {
            self.toggle_search_option(option);
        }
    }

    /// Flips "search only open files".
    pub fn toggle_opened_only(&mut self)
        ensures
            final(self).included_opened_only == !old(self).included_opened_only,
            final(self).search_options == old(self).search_options,
            final(self).filters_enabled == old(self).filters_enabled,
            final(self).entity == old(self).entity,
    {
        self.included_opened_only = !self.included_opened_only;
    }

    /// Sets the query text, then with smart case makes the case-sensitive
    /// option agree with whether a non-empty query holds an uppercase
    /// character.
    pub fn set_query(&mut self, query: &str, use_smartcase: bool)
        ensures
            final(self).query_text@ == query@,
            final(self).search_options.bits == if use_smartcase && query@.len() > 0 && contains_bits(
                old(self).search_options.bits,
                CASE_SENSITIVE_BIT,
            ) != has_uppercase(query@) {
                old(self).search_options.bits ^ CASE_SENSITIVE_BIT
            } else {
                old(self).search_options.bits
            },
            use_smartcase && query@.len() > 0 ==> contains_bits(
                final(self).search_options.bits,
                CASE_SENSITIVE_BIT,
            ) == has_uppercase(query@),
            final(self).filters_enabled == old(self).filters_enabled,
    {
        self.query_text = String::from_str(query);
        if use_smartcase && query.unicode_len() > 0 && self.search_options.contains(
            SearchOptions::case_sensitive(),
        ) != contains_uppercase(query) {
            let ghost before = self.search_options.bits;
            self.toggle_search_option(SearchOptions::case_sensitive());
            proof {
                crate::search_options::lemma_toggle_single(
                    before,
                    CASE_SENSITIVE_BIT,
                    WHOLE_WORD_BIT,
                );
            }
        }
    }

    /// What replace-next does: nothing while a search runs; a new search when
    /// the query text differs from the last searched one; otherwise the
    /// active match is replaced, if there are matches and one is active.
    pub fn replace_next(&self) -> (r: ReplaceNextStep)
        ensures
            r == if self.entity.pending_search {
                ReplaceNextStep::Nothing
            } else if (self.entity.last_search_query_text matches Some(t) && self.query_text@
                != t@) {
                ReplaceNextStep::Restart
            } else if self.entity.match_ranges@.len() == 0 || self.entity.active_query is None {
                ReplaceNextStep::Nothing
            } else {
                match self.active_match_index {
                    Some(i) => ReplaceNextStep::Replace(i),
                    None => ReplaceNextStep::Nothing,
                }
            },
    {
        if self.entity.pending_search {
            return ReplaceNextStep::Nothing;
        }
        match &self.entity.last_search_query_text {
            Some(t) => {
                if !str_equal(self.query_text.as_str(), t.as_str()) {
                    return ReplaceNextStep::Restart;
                }
            },
            None => {},
        }
        if self.entity.match_ranges.len() == 0 || self.entity.active_query.is_none() {
            return ReplaceNextStep::Nothing;
        }
        match self.active_match_index {
            Some(i) => ReplaceNextStep::Replace(i),
            None => ReplaceNextStep::Nothing,
        }
    }

    /// What replace-all does, and the pending flag it leaves: while a search
    /// runs, replace once it ends; with a stale query, search again and
    /// replace afterwards; otherwise replace every match when one is active.
    pub fn replace_all(&mut self) -> (r: ReplaceAllStep)
        ensures
            r == if old(self).entity.pending_search {
                ReplaceAllStep::AfterSearch
            } else if !(old(self).entity.last_search_query_text matches Some(t) && t@ == old(self).query_text@) {
                ReplaceAllStep::Restart
            } else if old(self).active_match_index is None || old(self).entity.active_query is None
                || old(self).entity.match_ranges@.len() == 0 {
                ReplaceAllStep::Nothing
            } else {
                ReplaceAllStep::ReplaceAll
            },
            final(self).pending_replace_all == (r == ReplaceAllStep::AfterSearch || r
                == ReplaceAllStep::Restart),
            final(self).query_text == old(self).query_text,
            final(self).entity.match_ranges == old(self).entity.match_ranges,
    {
        if self.entity.pending_search {
            self.pending_replace_all = true;
            return ReplaceAllStep::AfterSearch;
        }
        let fresh = match &self.entity.last_search_query_text {
            Some(t) => str_equal(t.as_str(), self.query_text.as_str()),
            None => false,
        };
        if !fresh {
            self.pending_replace_all = true;
            return ReplaceAllStep::Restart;
        }
        self.pending_replace_all = false;
        if self.active_match_index.is_none() || self.entity.active_query.is_none()
            || self.entity.match_ranges.len() == 0 {
            return ReplaceAllStep::Nothing;
        }
        ReplaceAllStep::ReplaceAll
    }

    /// Clears the pending replace-all when the restarted search did not start.
    pub fn restart_search_failed(&mut self)
        ensures
            !final(self).pending_replace_all,
            final(self).query_text == old(self).query_text,
    {
        self.pending_replace_all = false;
    }

    /// The first step of selecting the next or previous match: with wrapping
    /// off a move past either end stops; else the editor picks the index.
    pub fn select_match(&self, direction: Direction, search_wrap: bool) -> (r: ProjectSelectStep)
        ensures
            r == match self.active_match_index {
                Some(index) => if !search_wrap && ((direction == Direction::Next && index + 1
                    >= self.entity.match_ranges@.len()) || (direction == Direction::Prev && index
                    == 0)) {
                    ProjectSelectStep::NoMoreMatches
                } else {
                    ProjectSelectStep::AskEditor { index, direction }
                },
                None => ProjectSelectStep::Nothing,
            },
    {
        match self.active_match_index {
            Some(index) => {
                let at_end = match direction {
                    Direction::Next => index as u128 + 1 >= self.entity.match_ranges.len() as u128,
                    Direction::Prev => index == 0,
                };
                if !search_wrap && at_end {
                    ProjectSelectStep::NoMoreMatches
                } else {
                    ProjectSelectStep::AskEditor { index, direction }
                }
            },
            None => ProjectSelectStep::Nothing,
        }
    }

    /// Takes over the model's changes: with results the first match becomes
    /// active and a new search id marks a new search; without results no
    /// match is active. Returns whether it is a new search and whether a
    /// pending replace-all is now due.
    pub fn entity_changed(&mut self) -> (r: (bool, bool))
        ensures
            old(self).entity.match_ranges@.len() == 0 ==> final(self).active_match_index is None
                && !r.0 && final(self).search_id == old(self).search_id,
            old(self).entity.match_ranges@.len() > 0 ==> final(self).active_match_index == Some(
                0usize,
            ) && final(self).search_id == old(self).entity.search_id && r.0 == (old(self).entity.search_id != old(self).search_id),
            r.1 == (old(self).pending_replace_all && !old(self).entity.pending_search),
            final(self).entity == old(self).entity,
            final(self).pending_replace_all == old(self).pending_replace_all,
    {
        let mut is_new_search = false;
        if self.entity.match_ranges.len() == 0 {
            self.active_match_index = None;
        } else {
            self.active_match_index = Some(0);
            let prev = self.search_id;
            self.search_id = self.entity.search_id;
            is_new_search = self.search_id != prev;
        }
        (is_new_search, self.pending_replace_all && !self.entity.pending_search)
    }

    /// Takes over the active match that the results editor reports; returns
    /// whether it changed.
    pub fn update_match_index(&mut self, new_index: Option<usize>) -> (r: bool)
        ensures
            final(self).active_match_index == new_index,
            r == (new_index != old(self).active_match_index),
            final(self).entity == old(self).entity,
            final(self).query_text == old(self).query_text,
    {
        if self.active_match_index != new_index {
            self.active_match_index = new_index;
            true
        } else {
            false
        }
    }

    /// Whether focus moves to the results: they are not focused yet and
    /// there are matches.
    pub fn move_focus_to_results(&self, results_focused: bool) -> (r: bool)
        ensures
            r == (!results_focused && self.entity.match_ranges@.len() > 0),
    {
        !results_focused && self.entity.match_ranges.len() > 0
    }

    /// Whether the border of a panel shows an error.
    pub fn border_is_error(&self, panel: InputPanel) -> (r: bool)
        ensures
            r == match panel {
                InputPanel::Query => self.panels_with_errors.query is Some,
                InputPanel::Include => self.panels_with_errors.included is Some,
                InputPanel::Exclude => self.panels_with_errors.excluded is Some,
                InputPanel::Replacement => false,
            },
    {
        match panel {
            InputPanel::Query => self.panels_with_errors.query.is_some(),
            InputPanel::Include => self.panels_with_errors.included.is_some(),
            InputPanel::Exclude => self.panels_with_errors.excluded.is_some(),
            InputPanel::Replacement => false,
        }
    }

    /// Records the outcome of parsing the filters and building the query:
    /// each input's error is set or cleared (filters only while they are
    /// shown), and a query is used only when no input has an error and the
    /// query is not empty.
    pub fn build_search_query(
        &mut self,
        included_parse: Result<(), String>,
        excluded_parse: Result<(), String>,
        query_build: Result<QueryBuild, String>,
    ) -> (r: bool)
        ensures
            final(self).panels_with_errors.included == if old(self).filters_enabled {
                match included_parse {
                    Ok(_) => None,
                    Err(e) => Some(e),
                }
            } else {
                old(self).panels_with_errors.included
            },
            final(self).panels_with_errors.excluded == if old(self).filters_enabled {
                match excluded_parse {
                    Ok(_) => None,
                    Err(e) => Some(e),
                }
            } else {
                old(self).panels_with_errors.excluded
            },
            final(self).panels_with_errors.query == match query_build {
                Ok(_) => None,
                Err(e) => Some(e),
            },
            r == (final(self).panels_with_errors.query is None
                && final(self).panels_with_errors.included is None
                && final(self).panels_with_errors.excluded is None && query_build == Ok::<
                QueryBuild,
                String,
            >(QueryBuild::Built)),
            final(self).query_text == old(self).query_text,
            final(self).search_options == old(self).search_options,
            final(self).filters_enabled == old(self).filters_enabled,
    {
        if self.filters_enabled {
            self.panels_with_errors.included = match included_parse {
                Ok(_) => None,
                Err(e) => Some(e),
            };
            self.panels_with_errors.excluded = match excluded_parse {
                Ok(_) => None,
                Err(e) => Some(e),
            };
        }
        let built = match query_build {
            Ok(QueryBuild::Built) => {
                self.panels_with_errors.query = None;
                true
            },
            Ok(QueryBuild::Empty) => {
                self.panels_with_errors.query = None;
                false
            },
            Err(e) => {
                self.panels_with_errors.query = Some(e);
                false
            },
        };
        built && self.panels_with_errors.query.is_none() && self.panels_with_errors.included.is_none()
            && self.panels_with_errors.excluded.is_none()
    }

    /// Applies the state of the text finder: its options, and its query, if
    /// any, as the active and last searched query under a new search id.
    pub fn adopt_text_finder_state(&mut self, search_options: SearchOptions, active_query: Option<
        ActiveQuery,
    >)
        requires
            active_query is Some ==> old(self).entity.search_id < usize::MAX,
        ensures
            final(self).search_options == search_options,
            match active_query {
                Some(q) => {
                    &&& final(self).entity.active_query == Some(q)
                    &&& final(self).entity.last_search_query_text == Some(q.text)
                    &&& final(self).entity.search_id == old(self).entity.search_id + 1
                    &&& final(self).query_text@ == q.text@
                },
                None => final(self).entity == old(self).entity && final(self).query_text == old(self).query_text,
            },
    {
        self.search_options = search_options;
        match active_query {
            Some(q) => {
                self.query_text = q.text.clone();
                self.entity.last_search_query_text = Some(q.text.clone());
                self.entity.active_query = Some(q);
                self.entity.search_id = self.entity.search_id + 1;
            },
            None => {},
        }
    }

    /// The language of the query editor follows the regex option.
    pub fn adjust_query_regex_language(&self) -> (r: bool)
        ensures
            r == contains_bits(self.search_options.bits, REGEX_BIT),
    {
        self.search_options.contains(SearchOptions::regex())
    }
}

/// The fields that focus cycles through in the project search toolbar.
#[derive(Clone, Copy, Debug, PartialEq, Eq, Structural)]
pub enum ProjectFocus {
    Query,
    Replacement,
    Include,
    Exclude,
}

/// What the project search toolbar shows, as decided from the active search.
pub struct ProjectSearchLayout {
    /// The query is drawn in the error color: the last search of this very
    /// query found nothing.
    pub query_text_in_error: bool,
    /// The match counter.
    pub match_text: String,
    /// The previous/next match buttons are enabled.
    pub match_navigation_enabled: bool,
    /// The counter is drawn dimmed (a match is active).
    pub match_label_dimmed: bool,
    /// The spinner of a search under way.
    pub show_spinner: bool,
    /// The tooltip telling that the result limit was reached.
    pub show_limit_tooltip: bool,
    /// The filter toggle shows as toggled.
    pub filters_toggled: bool,
    /// The replace toggle shows as toggled.
    pub replace_toggled: bool,
    /// The expand/collapse button expands (some result is folded).
    pub fold_button_expands: bool,
    /// The replacement line, and whether its replace-next button is disabled.
    pub show_replace_line: bool,
    pub replace_next_disabled: bool,
    /// The filter line, and whether its open-files toggle shows as toggled.
    pub show_filter_line: bool,
    pub opened_only_toggled: bool,
    /// The key context holds `in_replace`.
    pub in_replace: bool,
    /// The error under the query, and the one under the filters (the
    /// include filter's before the exclude filter's).
    pub query_error_line: Option<String>,
    pub filter_error_line: Option<String>,
}

/// Whether the query is shown in the error color: the search completed
/// without results for exactly the query that was last searched.
pub open spec fn query_found_nothing(s: ProjectSearch) -> bool {
    &&& s.search_state == SearchState::Completed(SearchCompletion::NoResults)
    &&& s.active_query matches Some(q) && s.last_search_query_text matches Some(p) && q.text@ == p@
}

fn clone_optional(s: &Option<String>) -> (r: Option<String>)
    ensures
        match s {
            Some(t) => r matches Some(u) && u@ == t@,
            None => r is None,
        },
{
    match s {
        Some(t) => Some(t.clone()),
        None => None,
    }
}


/// The toolbar of the project search.
pub struct ProjectSearchBar {
    pub active_project_search: Option<ProjectSearchView>,
}

/// The number of fields of the focus cycle: the query, the replacement while
/// replacing, the two filters while they are shown.
pub open spec fn project_focus_count(replace_enabled: bool, filters_enabled: bool) -> nat {
    1 + (if replace_enabled {
        1nat
    } else {
        0nat
    }) + (if filters_enabled {
        2nat
    } else {
        0nat
    })
}

/// The position of a field in the focus cycle, if it is part of it.
pub open spec fn project_focus_position(f: ProjectFocus, replace_enabled: bool, filters_enabled: bool) -> Option<nat> {
    let r: nat = if replace_enabled {
        1
    } else {
        0
    };
    match f {
        ProjectFocus::Query => Some(0nat),
        ProjectFocus::Replacement => if replace_enabled {
            Some(1nat)
        } else {
            None
        },
        ProjectFocus::Include => if filters_enabled {
            Some(1 + r)
        } else {
            None
        },
        ProjectFocus::Exclude => if filters_enabled {
            Some(2 + r)
        } else {
            None
        },
    }
}

/// The field at a position of the focus cycle.
pub open spec fn project_focus_at(p: nat, replace_enabled: bool) -> ProjectFocus {
    if p == 0 {
        ProjectFocus::Query
    } else if replace_enabled && p == 1 {
        ProjectFocus::Replacement
    } else if (replace_enabled && p == 2) || (!replace_enabled && p == 1) {
        ProjectFocus::Include
    } else {
        ProjectFocus::Exclude
    }
}

impl Default for ProjectSearchBar {
    /// A toolbar without a search, as `new` gives.
    fn default() -> (r: Self)
        ensures
            r.active_project_search is None,
    {
        ProjectSearchBar::new()
    }
}

impl ProjectSearchBar {
    /// A toolbar without a search.
    pub fn new() -> (r: Self)
        ensures
            r.active_project_search is None,
    {
        ProjectSearchBar { active_project_search: None }
    }

    /// Follows the pane's active item: the toolbar shows a project search
    /// (on the left) and hides for anything else.
    pub fn set_active_pane_item(&mut self, item: Option<ProjectSearchView>) -> (r:
        ToolbarItemLocation)
        ensures
            final(self).active_project_search == item,
            r == if item is Some {
                ToolbarItemLocation::PrimaryLeft
            } else {
                ToolbarItemLocation::Hidden
            },
    {
        let shown = item.is_some();
        self.active_project_search = item;
        if shown {
            ToolbarItemLocation::PrimaryLeft
        } else {
            ToolbarItemLocation::Hidden
        }
    }

    /// Whether confirming runs the search (after offering to save dirty
    /// buffers): there is a search and the replacement input does not have
    /// focus.
    pub fn confirm(&self, replacement_focused: bool) -> (r: bool)
        ensures
            r == (self.active_project_search is Some && !replacement_focused),
    {
        self.active_project_search.is_some() && !replacement_focused
    }

    /// Moves focus through the search view's fields, wrapping around.
    pub fn cycle_field(&self, direction: Direction, focused: Option<ProjectFocus>) -> (r: Option<
        ProjectFocus,
    >)
        ensures
            r == match (self.active_project_search, focused) {
                (Some(view), Some(f)) => match project_focus_position(
                    f,
                    view.replace_enabled,
                    view.filters_enabled,
                ) {
                    Some(p) => Some(
                        project_focus_at(
                            cycled_index(
                                p,
                                project_focus_count(view.replace_enabled, view.filters_enabled),
                                direction,
                            ),
                            view.replace_enabled,
                        ),
                    ),
                    None => None,
                },
                _ => None,
            },
    {
        let view = match &self.active_project_search {
            Some(v) => v,
            None => {
                return None;
            },
        };
        let f = match focused {
            Some(f) => f,
            None => {
                return None;
            },
        };
        let r: usize = if view.replace_enabled {
            1
        } else {
            0
        };
        let count: usize = 1 + r + if view.filters_enabled {
            2usize
        } else {
            0usize
        };
        let position: usize = match f {
            ProjectFocus::Query => 0,
            ProjectFocus::Replacement => {
                if view.replace_enabled {
                    1
                } else {
                    return None;
                }
            },
            ProjectFocus::Include => {
                if view.filters_enabled {
                    1 + r
                } else {
                    return None;
                }
            },
            ProjectFocus::Exclude => {
                if view.filters_enabled {
                    2 + r
                } else {
                    return None;
                }
            },
        };
        let next = cycle_index(position, count, direction);
        if next == 0 {
            Some(ProjectFocus::Query)
        } else if view.replace_enabled && next == 1 {
            Some(ProjectFocus::Replacement)
        } else if (view.replace_enabled && next == 2) || (!view.replace_enabled && next == 1) {
            Some(ProjectFocus::Include)
        } else {
            Some(ProjectFocus::Exclude)
        }
    }

    /// Turns replacing on or off in the active search and tells where focus
    /// goes (the replacement editor when on, the query editor when off).
    pub fn toggle_replace(&mut self) -> (r: Option<ProjectFocus>)
        ensures
            old(self).active_project_search is None ==> r is None,
            old(self).active_project_search is Some ==> final(self).active_project_search is Some && final(self).active_project_search->Some_0.replace_enabled
                == !old(self).active_project_search->Some_0.replace_enabled && r == Some(
                if final(self).active_project_search->Some_0.replace_enabled {
                    ProjectFocus::Replacement
                } else {
                    ProjectFocus::Query
                },
            ),
    {
        match &mut self.active_project_search {
            Some(view) => {
                view.replace_enabled = !view.replace_enabled;
                if view.replace_enabled {
                    Some(ProjectFocus::Replacement)
                } else {
                    Some(ProjectFocus::Query)
                }
            },
            None => None,
        }
    }

    /// Shows or hides the filters of the active search; false without one.
    pub fn toggle_filters(&mut self) -> (r: bool)
        ensures
            r == old(self).active_project_search is Some,
            r ==> final(self).active_project_search is Some && final(self).active_project_search->Some_0.filters_enabled == !old(self).active_project_search->Some_0.filters_enabled,
    {
        match &mut self.active_project_search {
            Some(view) => {
                view.toggle_filters();
                true
            },
            None => false,
        }
    }

    /// Whether the active search only looks at open files.
    pub fn is_opened_only_enabled(&self) -> (r: bool)
        ensures
            r == match &self.active_project_search {
                Some(v) => v.included_opened_only,
                None => false,
            },
    {
        match &self.active_project_search {
            Some(v) => v.included_opened_only,
            None => false,
        }
    }

    /// Toggles an option of the active search; returns whether there was one,
    /// and whether the search must run again (it has an active query).
    pub fn toggle_search_option(&mut self, option: SearchOptions) -> (r: (bool, bool))
        ensures
            r.0 == old(self).active_project_search is Some,
            r.0 ==> final(self).active_project_search is Some && final(self).active_project_search->Some_0.search_options.bits == old(self).active_project_search->Some_0.search_options.bits ^ option.bits && r.1 == old(self).active_project_search->Some_0.entity.active_query is Some,
            !r.0 ==> !r.1,
    {
        match &mut self.active_project_search {
            Some(view) => {
                view.toggle_search_option(option);
                (true, view.entity.active_query.is_some())
            },
            None => (false, false),
        }
    }

    /// Toggles "search only open files" of the active search; returns whether
    /// there was one, and whether the search must run again.
    pub fn toggle_opened_only(&mut self) -> (r: (bool, bool))
        ensures
            r.0 == old(self).active_project_search is Some,
            r.0 ==> final(self).active_project_search is Some && final(self).active_project_search->Some_0.included_opened_only == !old(self).active_project_search->Some_0.included_opened_only && r.1 == old(self).active_project_search->Some_0.entity.active_query is Some,
            !r.0 ==> !r.1,
    {
        match &mut self.active_project_search {
            Some(view) => {
                view.toggle_opened_only();
                (true, view.entity.active_query.is_some())
            },
            None => (false, false),
        }
    }

    /// What the toolbar shows; `None` without an active search (it shows
    /// nothing). `results_folded`: some result is folded;
    /// `replacement_focused`: the replacement input has focus.
    pub fn layout(&self, results_folded: bool, replacement_focused: bool) -> (r: Option<
        ProjectSearchLayout,
    >)
        ensures
            match &self.active_project_search {
                None => r is None,
                Some(v) => r matches Some(l) && {
                    let e = v.entity;
                    &&& l.query_text_in_error == query_found_nothing(e)
                    &&& l.match_text@ == spec_project_match_text(
                        v.active_match_index,
                        e.match_ranges@.len(),
                        e.search_state == SearchState::Completed(
                            SearchCompletion::Results { limit_reached: true },
                        ),
                    )
                    &&& l.match_navigation_enabled == v.active_match_index is Some
                    &&& l.match_label_dimmed == v.active_match_index is Some
                    &&& l.show_spinner == e.pending_search
                    &&& l.show_limit_tooltip == (e.search_state == SearchState::Completed(
                        SearchCompletion::Results { limit_reached: true },
                    ))
                    &&& l.filters_toggled == v.filters_enabled
                    &&& l.replace_toggled == v.replace_enabled
                    &&& l.fold_button_expands == results_folded
                    &&& l.show_replace_line == v.replace_enabled
                    &&& l.replace_next_disabled == e.pending_search
                    &&& l.show_filter_line == v.filters_enabled
                    &&& l.opened_only_toggled == v.included_opened_only
                    &&& l.in_replace == replacement_focused
                    &&& match v.panels_with_errors.query {
                        Some(q) => l.query_error_line matches Some(t) && t@ == q@,
                        None => l.query_error_line is None,
                    }
                    &&& match (v.panels_with_errors.included, v.panels_with_errors.excluded) {
                        (Some(i), _) => l.filter_error_line matches Some(t) && t@ == i@,
                        (None, Some(x)) => l.filter_error_line matches Some(t) && t@ == x@,
                        (None, None) => l.filter_error_line is None,
                    }
                },
            },
    {
        match &self.active_project_search {
            None => None,
            Some(v) => {
                let e = &v.entity;
                let query_text_in_error = match (&e.search_state, &e.active_query, &e.last_search_query_text) {
                    (
                        SearchState::Completed(SearchCompletion::NoResults),
                        Some(q),
                        Some(p),
                    ) => str_equal(q.text.as_str(), p.as_str()),
                    _ => false,
                };
                let limit_reached = e.search_state.limit_reached();
                let filter_error_line = match &v.panels_with_errors.included {
                    Some(i) => Some(i.clone()),
                    None => clone_optional(&v.panels_with_errors.excluded),
                };
                Some(
                    ProjectSearchLayout {
                        query_text_in_error,
                        match_text: project_match_text(
                            v.active_match_index,
                            e.match_ranges.len(),
                            limit_reached,
                        ),
                        match_navigation_enabled: v.active_match_index.is_some(),
                        match_label_dimmed: v.active_match_index.is_some(),
                        show_spinner: e.pending_search,
                        show_limit_tooltip: limit_reached,
                        filters_toggled: v.filters_enabled,
                        replace_toggled: v.replace_enabled,
                        fold_button_expands: results_folded,
                        show_replace_line: v.replace_enabled,
                        replace_next_disabled: e.pending_search,
                        show_filter_line: v.filters_enabled,
                        opened_only_toggled: v.included_opened_only,
                        in_replace: replacement_focused,
                        query_error_line: clone_optional(&v.panels_with_errors.query),
                        filter_error_line,
                    },
                )
            },
        }
    }

    /// The toolbar's match counter for the active search.
    pub fn match_text(&self) -> (r: String)
        ensures
            r@ == match &self.active_project_search {
                Some(v) => spec_project_match_text(
                    v.active_match_index,
                    v.entity.match_ranges@.len(),
                    v.entity.search_state == SearchState::Completed(
                        SearchCompletion::Results { limit_reached: true },
                    ),
                ),
                None => seq!['0', '/', '0'],
            },
    {
        match &self.active_project_search {
            Some(v) => project_match_text(
                v.active_match_index,
                v.entity.match_ranges.len(),
                v.entity.search_state.limit_reached(),
            ),
            None => project_match_text(None, 0, false),
        }
    }
}

/// The query that the buffer search hands to a new project search: its
/// query, when its editor has focus and the query is not empty.
pub fn buffer_search_query(query_editor_focused: bool, query: String) -> (r: Option<String>)
    ensures
        r is Some <==> (query_editor_focused && query@.len() > 0),
        r matches Some(q) ==> q@ == query@,
{
    if query_editor_focused && query.as_str().unicode_len() > 0 {
        Some(query)
    } else {
        None
    }
}

} // verus!
