//! The state of the in-buffer search bar and the decisions it takes. The bar
//! is driven from outside: each method takes what the editor reports (a query
//! suggestion, a settings value, the item's answer) and returns what has to
//! be done to it (which match to activate, where to move focus).
use vstd::prelude::*;

use crate::search_options::{
    contains_bits, contains_uppercase, cycle_index, cycled_index, fold_toggle, fold_toggle_for,
    has_uppercase, FoldToggle,
    smartcase_needs_toggle, Direction, SearchOptions, BACKWARDS_BIT, CASE_SENSITIVE_BIT,
    ONE_MATCH_PER_LINE_BIT, REGEX_BIT, WHOLE_WORD_BIT,
};
use crate::text::{chars_of, decimal, push_decimal, str_equal, string_from_chars};

verus! {

/// Whether a search is limited to ranges of the buffer.
#[derive(Clone, Copy, Debug, PartialEq, Eq, Structural)]
pub enum FilteredSearchRange {
    Selection,
    Default,
}

/// The `Deploy` action and its flags.
#[derive(Clone, Copy, Debug)]
pub struct Deploy {
    pub focus: bool,
    pub replace_enabled: bool,
    pub selection_search_enabled: bool,
}

/// The fields between which the bar moves focus.
#[derive(Clone, Copy, Debug, PartialEq, Eq, Structural)]
pub enum FocusTarget {
    QueryEditor,
    ReplacementEditor,
    ActiveItem,
}

/// Where the bar shows itself in the toolbar.
#[derive(Clone, Copy, Debug, PartialEq, Eq, Structural)]
pub enum ToolbarItemLocation {
    Hidden,
    PrimaryLeft,
    PrimaryRight,
    Secondary,
}

/// The search features that an item supports.
#[derive(Clone, Copy, Debug, PartialEq, Eq, Structural)]
pub struct SupportedOptions {
    pub case: bool,
    pub word: bool,
    pub regex: bool,
    pub replacement: bool,
    pub selection: bool,
    pub select_all: bool,
    /// The item searches within its own results (it is a results view).
    pub find_in_results: bool,
}

impl SupportedOptions {
    /// No feature supported: what a bar without an item offers.
    pub open spec fn spec_none() -> SupportedOptions {
        SupportedOptions {
            case: false,
            word: false,
            regex: false,
            replacement: false,
            selection: false,
            select_all: false,
            find_in_results: false,
        }
    }

    /// No feature supported.
    pub fn none() -> (r: SupportedOptions)
        ensures
            r == SupportedOptions::spec_none(),
    {
        SupportedOptions {
            case: false,
            word: false,
            regex: false,
            replacement: false,
            selection: false,
            select_all: false,
            find_in_results: false,
        }
    }
}

/// What the bar knows of the item that it searches.
#[derive(Clone, Copy, Debug)]
pub struct SearchableItemState {
    /// The item shows a single buffer (not a multibuffer).
    pub is_singleton: bool,
    /// The search features that the item supports.
    pub supported: SupportedOptions,
    /// The number of matches found in the item, when a search has run on it.
    pub match_count: Option<usize>,
}

/// What `toggle` does.
#[derive(Clone, Copy, Debug, PartialEq, Eq, Structural)]
pub enum ToggleAction {
    Deploy,
    Dismiss,
}

/// What to do with the syntax language of the query editor.
#[derive(Clone, Copy, Debug, PartialEq, Eq, Structural)]
pub enum QueryLanguageChange {
    SetRegex,
    Clear,
    Keep,
}

/// What the bar shows, as decided from its state.
pub struct BufferSearchLayout {
    /// The expand/collapse button, when shown: `Some(true)` when it
    /// expands (some file is folded), `Some(false)` when it collapses.
    pub fold_button: Option<bool>,
    /// Only the expand/collapse button shows: the bar is dismissed over a
    /// multibuffer.
    pub fold_button_only: bool,
    /// The match counter.
    pub match_text: String,
    /// The query is drawn in the error color: a non-empty query without
    /// matches.
    pub query_text_in_error: bool,
    /// The query input has an error border: the query does not parse.
    pub query_border_in_error: bool,
    pub show_case_button: bool,
    pub show_word_button: bool,
    pub show_regex_button: bool,
    /// The replace toggle, and whether it shows as toggled.
    pub show_replace_toggle: bool,
    pub replace_toggled: bool,
    /// The search-within-selection toggle, and whether it shows as toggled.
    pub show_selection_toggle: bool,
    pub selection_toggled: bool,
    pub show_select_all: bool,
    /// The previous/next match buttons, and whether they are enabled.
    pub show_match_navigation: bool,
    pub match_navigation_enabled: bool,
    /// The match counter label, and whether it is drawn dimmed.
    pub show_match_label: bool,
    pub match_label_dimmed: bool,
    /// The close button beside the options (searching within results).
    pub close_beside_options: bool,
    /// The close button at the right end of the search line.
    pub close_at_right: bool,
    /// The replacement input line.
    pub show_replace_line: bool,
    /// The key context holds `in_replace`.
    pub in_replace: bool,
    /// The line that shows the query's error.
    pub error_line: Option<String>,
}

/// The outcome of `deploy`.
#[derive(Debug)]
pub struct DeployOutcome {
    /// The bar was shown; when it was not, the action propagates.
    pub shown: bool,
    /// The filtered search ranges handed to the active item.
    pub filtered_search_range: Option<FilteredSearchRange>,
    /// The editor that receives focus.
    pub focus: Option<FocusTarget>,
    /// The query text gets selected.
    pub select_query: bool,
}

/// The option bits after smart case has had its say on `query`.
pub open spec fn smartcased_bits(query: Seq<char>, bits: u8, use_smartcase: bool) -> u8 {
    if use_smartcase && smartcase_needs_toggle(query, bits) {
        bits ^ CASE_SENSITIVE_BIT
    } else {
        bits
    }
}

/// The query that an item's suggestion seeds: none for an empty one.
pub open spec fn seed_of(suggestion: Option<String>) -> Option<Seq<char>> {
    match suggestion {
        Some(s) => if s@.len() > 0 {
            Some(s@)
        } else {
            None
        },
        None => None,
    }
}

/// Whether showing the bar takes over the configured options: only while
/// it is dismissed and when they changed.
pub open spec fn takes_configured(bar: BufferSearchBar, configured: SearchOptions) -> bool {
    bar.dismissed && configured.bits != bar.configured_options.bits
}

/// What follows a change of the bar's options.
#[derive(Clone, Copy, Debug, PartialEq, Eq, Structural)]
pub struct OptionsFollowUp {
    /// The query editor's language.
    pub language: QueryLanguageChange,
    /// The case sensitivity handed to the item's select-next: `None`
    /// without an item, `Some(None)` while the bar is dismissed.
    pub select_next_case_sensitive: Option<Option<bool>>,
}

/// What a match search starts with.
#[derive(Clone, Copy, Debug, PartialEq, Eq, Structural)]
pub enum UpdateMatchesPlan {
    /// There is no item to search.
    NoItem,
    /// The query is empty: the item's matches were cleared.
    Cleared,
    /// The previous query is searched again.
    ReuseQuery,
    /// A new query is built with these options.
    BuildQuery { regex: bool, whole_word: bool, case_sensitive: bool, one_match_per_line: bool },
}

/// The step of `select_match` before the item computes the new index.
#[derive(Clone, Copy, Debug, PartialEq, Eq, Structural)]
pub enum SelectMatchStep {
    /// Nothing to select from.
    Nothing,
    /// Wrapping is off and the end is reached.
    NoMoreMatches,
    /// Ask the item for the match `count` steps from `index` in `direction`.
    AskItem { index: usize, count: usize, direction: Direction },
}

/// The outcome of `update_match_index`.
#[derive(Clone, Copy, Debug, PartialEq, Eq, Structural)]
pub struct MatchIndexUpdate {
    pub changed: bool,
    /// The item's highlighted matches must be refreshed.
    pub refresh_item: bool,
}

/// The events of the query editor that the bar reacts to.
#[derive(Clone, Copy, Debug, PartialEq, Eq, Structural)]
pub enum QueryEditorEvent {
    Focused,
    Blurred,
    Edited,
    Other,
}

/// The search bar.
pub struct BufferSearchBar {
    pub query_text: String,
    pub replacement_text: String,
    pub query_editor_focused: bool,
    pub replacement_editor_focused: bool,
    pub dismissed: bool,
    pub replace_enabled: bool,
    pub selection_search_enabled: Option<FilteredSearchRange>,
    pub search_options: SearchOptions,
    pub default_options: SearchOptions,
    pub configured_options: SearchOptions,
    pub active_match_index: Option<usize>,
    pub active_item: Option<SearchableItemState>,
    pub has_active_search: bool,
    pub query_error: Option<String>,
}

/// The number of matches recorded for the active item, if any.
pub open spec fn item_matches(item: Option<SearchableItemState>) -> Option<usize> {
    match item {
        Some(i) => i.match_count,
        None => None,
    }
}

/// The text of the match counter: `i/n` for the active match, `0/0` when
/// there is no item or no query; the flag marks a query without matches.
pub open spec fn spec_match_text(
    item: Option<SearchableItemState>,
    query: Seq<char>,
    active: Option<usize>,
) -> (Seq<char>, bool) {
    if item is Some && query.len() > 0 {
        let count: nat = match item_matches(item) {
            Some(n) => n as nat,
            None => 0,
        };
        match active {
            Some(ix) => (decimal(ix as nat + 1) + seq!['/'] + decimal(count), false),
            None => (seq!['0', '/', '0'], true),
        }
    } else {
        (seq!['0', '/', '0'], false)
    }
}

impl BufferSearchBar {
    /// A dismissed bar with empty editors and the given default options.
    pub fn new(options: SearchOptions) -> (r: Self)
        ensures
            r.dismissed,
            r.query_text@.len() == 0,
            r.replacement_text@.len() == 0,
            !r.replace_enabled,
            r.search_options == options,
            r.default_options == options,
            r.configured_options == options,
            r.active_match_index is None,
            r.active_item is None,
            !r.has_active_search,
    {
        BufferSearchBar {
            query_text: String::new(),
            replacement_text: String::new(),
            query_editor_focused: false,
            replacement_editor_focused: false,
            dismissed: true,
            replace_enabled: false,
            selection_search_enabled: None,
            search_options: options,
            default_options: options,
            configured_options: options,
            active_match_index: None,
            active_item: None,
            has_active_search: false,
            query_error: None,
        }
    }

    /// Shows the bar for the active item. Changed configured options are only
    /// taken over while the bar is dismissed; the vim-only `BACKWARDS` option
    /// is always cleared. Without an active item nothing happens.
    pub fn show(&mut self, configured_options: SearchOptions) -> (r: bool)
        ensures
            r == old(self).active_item is Some,
            !r ==> *final(self) == *old(self),
            r ==> {
                let took = old(self).dismissed && configured_options.bits
                    != old(self).configured_options.bits;
                let base = if took {
                    configured_options.bits
                } else {
                    old(self).search_options.bits
                };
                &&& !final(self).dismissed
                &&& final(self).search_options.bits == base & !BACKWARDS_BIT
                &&& final(self).configured_options == if took {
                    configured_options
                } else {
                    old(self).configured_options
                }
                &&& final(self).default_options == if took {
                    configured_options
                } else {
                    old(self).default_options
                }
                &&& final(self).query_text == old(self).query_text
                &&& final(self).replace_enabled == old(self).replace_enabled
                &&& final(self).selection_search_enabled == old(self).selection_search_enabled
                &&& final(self).active_match_index == old(self).active_match_index
                &&& final(self).active_item == old(self).active_item
            },
    {
        if self.active_item.is_none() {
            return false;
        }
        let settings_changed = configured_options.bits != self.configured_options.bits;
        if self.dismissed && settings_changed {
            self.configured_options = configured_options;
            self.search_options = configured_options;
            self.default_options = configured_options;
        }
        self.search_options.remove(SearchOptions::backwards());
        self.dismissed = false;
        true
    }

    /// Whether the bar offers an expand/collapse button: for a multibuffer
    /// that cannot search within its own results.
    pub fn needs_expand_collapse_option(&self) -> (r: bool)
        ensures
            r == match self.active_item {
                Some(item) => !item.is_singleton && !item.supported.find_in_results,
                None => false,
            },
    {
        match &self.active_item {
            Some(item) => {
                if item.is_singleton {
                    false
                } else {
                    !item.supported.find_in_results
                }
            },
            None => false,
        }
    }

    /// The toolbar location announced when the bar is shown.
    pub fn toolbar_location(&self) -> (r: ToolbarItemLocation)
        ensures
            r == if match self.active_item {
                Some(item) => !item.is_singleton && !item.supported.find_in_results,
                None => false,
            } {
                ToolbarItemLocation::PrimaryLeft
            } else {
                ToolbarItemLocation::Secondary
            },
    {
        if self.needs_expand_collapse_option() {
            ToolbarItemLocation::PrimaryLeft
        } else {
            ToolbarItemLocation::Secondary
        }
    }

    /// Deploys the bar when it is dismissed and dismisses it otherwise.
    pub fn toggle(&self) -> (r: ToggleAction)
        ensures
            r == if self.dismissed {
                ToggleAction::Deploy
            } else {
                ToggleAction::Dismiss
            },
    {
        if self.dismissed {
            ToggleAction::Deploy
        } else {
            ToggleAction::Dismiss
        }
    }

    /// Hides the bar.
    pub fn dismiss(&mut self)
        ensures
            final(self).dismissed,
            final(self).query_text == old(self).query_text,
            final(self).search_options == old(self).search_options,
            final(self).active_item == old(self).active_item,
            final(self).replace_enabled == old(self).replace_enabled,
    {
        self.dismissed = true;
    }

    /// The text of the query editor.
    pub fn query(&self) -> (r: String)
        ensures
            r@ == self.query_text@,
    {
        self.query_text.clone()
    }

    /// The text of the replacement editor.
    pub fn replacement(&self) -> (r: String)
        ensures
            r@ == self.replacement_text@,
    {
        self.replacement_text.clone()
    }

    /// The suggestion that the active item offers, unless there is no item or
    /// the suggestion is empty.
    pub fn query_suggestion(&self, item_suggestion: String) -> (r: Option<String>)
        ensures
            r is Some <==> (self.active_item is Some && item_suggestion@.len() > 0),
            r matches Some(s) ==> s@ == item_suggestion@,
    {
        if self.active_item.is_some() && item_suggestion.as_str().unicode_len() > 0 {
            Some(item_suggestion)
        } else {
            None
        }
    }

    /// What a search from the item's suggestion needs: the query to search
    /// with the default options (none without a suggestion), and, once that
    /// search succeeded, whether to activate the current match (the bar is
    /// still shown).
    pub fn activates_after_suggested_search(&self, search_succeeded: bool) -> (r: bool)
        ensures
            r == (search_succeeded && !self.dismissed),
    {
        search_succeeded && !self.dismissed
    }

    /// Reacts to an event of the query editor: focus changes are recorded;
    /// an edit applies smart case and asks for the matches to be cleared
    /// and searched again (then the current match is activated). Returns
    /// whether to search again.
    pub fn on_query_editor_event(&mut self, event: QueryEditorEvent, use_smartcase: bool) -> (r:
        bool)
        ensures
            r == (event == QueryEditorEvent::Edited),
            event == QueryEditorEvent::Focused ==> final(self).query_editor_focused,
            event == QueryEditorEvent::Blurred ==> !final(self).query_editor_focused,
            event != QueryEditorEvent::Focused && event != QueryEditorEvent::Blurred
                ==> final(self).query_editor_focused == old(self).query_editor_focused,
            event == QueryEditorEvent::Edited ==> final(self).search_options.bits == if use_smartcase
                && smartcase_needs_toggle(old(self).query_text@, old(self).search_options.bits) {
                old(self).search_options.bits ^ CASE_SENSITIVE_BIT
            } else {
                old(self).search_options.bits
            },
            event != QueryEditorEvent::Edited ==> final(self).search_options
                == old(self).search_options,
            final(self).query_text == old(self).query_text,
            final(self).active_item == old(self).active_item,
            final(self).dismissed == old(self).dismissed,
    {
        match event {
            QueryEditorEvent::Focused => {
                self.query_editor_focused = true;
                false
            },
            QueryEditorEvent::Blurred => {
                self.query_editor_focused = false;
                false
            },
            QueryEditorEvent::Edited => {
                self.smartcase(use_smartcase);
                true
            },
            QueryEditorEvent::Other => false,
        }
    }

    /// What toggling the folds of the active item does: unfold all when a
    /// file is folded, fold all otherwise; nothing unless the item is an
    /// editor.
    pub fn toggle_fold_all_in_item(&self, item_is_editor: bool, any_folded: bool) -> (r: Option<
        FoldToggle,
    >)
        ensures
            r == if self.active_item is Some && item_is_editor {
                Some(fold_toggle_for(any_folded))
            } else {
                None
            },
    {
        if self.active_item.is_some() && item_is_editor {
            Some(fold_toggle(any_folded))
        } else {
            None
        }
    }

    /// Selects the whole query: the selected range, in characters.
    pub fn select_query(&self) -> (r: (usize, usize))
        ensures
            r == (0usize, self.query_text@.len() as usize),
    {
        (0, self.query_text.as_str().unicode_len())
    }

    /// Moves focus to the replacement editor, away from the query editor.
    pub fn focus_replace(&mut self) -> (r: FocusTarget)
        ensures
            r == FocusTarget::ReplacementEditor,
            final(self).replacement_editor_focused,
            !final(self).query_editor_focused,
            final(self).query_text == old(self).query_text,
            final(self).replacement_text == old(self).replacement_text,
            final(self).replace_enabled == old(self).replace_enabled,
            final(self).search_options == old(self).search_options,
            final(self).dismissed == old(self).dismissed,
            final(self).active_item == old(self).active_item,
            final(self).active_match_index == old(self).active_match_index,
    {
        self.query_editor_focused = false;
        self.replacement_editor_focused = true;
        FocusTarget::ReplacementEditor
    }

    /// Sets the replacement text and turns replacing on; `None` turns it off
    /// and keeps the text.
    pub fn set_replacement(&mut self, replacement: Option<&str>)
        ensures
            final(self).replace_enabled == replacement is Some,
            final(self).replacement_text@ == match replacement {
                Some(t) => t@,
                None => old(self).replacement_text@,
            },
            final(self).query_text == old(self).query_text,
            final(self).search_options == old(self).search_options,
            final(self).dismissed == old(self).dismissed,
            final(self).active_item == old(self).active_item,
            final(self).active_match_index == old(self).active_match_index,
    {
        match replacement {
            None => {
                self.replace_enabled = false;
            },
            Some(text) => {
                self.replace_enabled = true;
                self.replacement_text = String::from_str(text);
            },
        }
    }

    /// Whether a match is active.
    pub fn has_active_match(&self) -> (r: bool)
        ensures
            r == self.active_match_index is Some,
    {
        self.active_match_index.is_some()
    }

    /// The match to activate in the item: the active one, when the item has
    /// recorded matches.
    pub fn activate_current_match(&self) -> (r: Option<usize>)
        ensures
            r == if item_matches(self.active_item) is Some {
                self.active_match_index
            } else {
                None
            },
    {
        match (self.active_match_index, &self.active_item) {
            (Some(ix), Some(item)) => {
                if item.match_count.is_some() {
                    Some(ix)
                } else {
                    None
                }
            },
            _ => None,
        }
    }

    /// Whether replace-all runs: the bar is shown, a query is active and the
    /// item has recorded matches.
    pub fn replace_all(&self) -> (r: bool)
        ensures
            r == (!self.dismissed && self.has_active_search && item_matches(self.active_item) is Some),
    {
        !self.dismissed && self.has_active_search && match &self.active_item {
            Some(item) => item.match_count.is_some(),
            None => false,
        }
    }

    /// The match that replace-next replaces (the active one), and whether the
    /// action stops propagating (whenever replacing is possible at all).
    pub fn replace_next(&self) -> (r: (Option<usize>, bool))
        ensures
            r.1 == (!self.dismissed && self.has_active_search && item_matches(self.active_item) is Some),
            r.0 == if r.1 {
                self.active_match_index
            } else {
                None
            },
    {
        let possible = self.replace_all();
        if possible {
            (self.active_match_index, true)
        } else {
            (None, false)
        }
    }

    /// The direction in which the item looks for the active match.
    pub fn reverse_direction_if_backwards(&self, direction: Direction) -> (r: Direction)
        ensures
            r == if contains_bits(self.search_options.bits, BACKWARDS_BIT) {
                match direction {
                    Direction::Next => Direction::Prev,
                    Direction::Prev => Direction::Next,
                }
            } else {
                direction
            },
    {
        if self.search_options.contains(SearchOptions::backwards()) {
            direction.opposite()
        } else {
            direction
        }
    }

    /// Takes over the active match index that the item reports. The item is
    /// only asked when it has recorded matches; otherwise there is no active
    /// match.
    pub fn update_match_index(&mut self, item_answer: Option<usize>) -> (r: MatchIndexUpdate)
        ensures
            final(self).active_match_index == if item_matches(old(self).active_item) is Some {
                item_answer
            } else {
                None
            },
            r.changed == (final(self).active_match_index != old(self).active_match_index),
            r.refresh_item == (r.changed && !old(self).dismissed && match item_matches(
                old(self).active_item,
            ) {
                Some(n) => n > 0,
                None => false,
            }),
            final(self).query_text == old(self).query_text,
            final(self).search_options == old(self).search_options,
            final(self).active_item == old(self).active_item,
            final(self).dismissed == old(self).dismissed,
    {
        let count = match &self.active_item {
            Some(item) => item.match_count,
            None => None,
        };
        let new_index = match count {
            Some(_) => item_answer,
            None => None,
        };
        if new_index != self.active_match_index {
            self.active_match_index = new_index;
            let refresh = !self.dismissed && match count {
                Some(n) => n > 0,
                None => false,
            };
            MatchIndexUpdate { changed: true, refresh_item: refresh }
        } else {
            MatchIndexUpdate { changed: false, refresh_item: false }
        }
    }

    /// Updates the match index and tells whether a match is active.
    pub fn match_exists(&mut self, item_answer: Option<usize>) -> (r: bool)
        ensures
            r == (final(self).active_match_index is Some),
            final(self).active_match_index == if item_matches(old(self).active_item) is Some {
                item_answer
            } else {
                None
            },
            final(self).query_text == old(self).query_text,
            final(self).search_options == old(self).search_options,
            final(self).active_item == old(self).active_item,
            final(self).dismissed == old(self).dismissed,
    {
        self.update_match_index(item_answer);
        self.active_match_index.is_some()
    }

    /// Whether smart case applies: the editor setting decides.
    pub fn should_use_smartcase_search(&self, use_smartcase_setting: bool) -> (r: bool)
        ensures
            r == use_smartcase_setting,
    {
        use_smartcase_setting
    }

    /// Whether the text holds an uppercase character.
    pub fn is_contains_uppercase(&self, s: &String) -> (r: bool)
        ensures
            r == has_uppercase(s@),
    {
        contains_uppercase(s.as_str())
    }

    /// Flips `option`; the new options become the defaults.
    pub fn toggle_search_option(&mut self, option: SearchOptions)
        ensures
            final(self).search_options.bits == old(self).search_options.bits ^ option.bits,
            final(self).default_options == final(self).search_options,
            final(self).configured_options == old(self).configured_options,
            final(self).query_text == old(self).query_text,
            final(self).replacement_text == old(self).replacement_text,
            final(self).replace_enabled == old(self).replace_enabled,
            final(self).dismissed == old(self).dismissed,
            final(self).active_item == old(self).active_item,
            final(self).active_match_index == old(self).active_match_index,
            final(self).selection_search_enabled == old(self).selection_search_enabled,
            final(self).has_active_search == old(self).has_active_search,
            final(self).query_error == old(self).query_error,
            final(self).query_editor_focused == old(self).query_editor_focused,
            final(self).replacement_editor_focused == old(self).replacement_editor_focused,
    {
        self.search_options.toggle(option);
        self.default_options = self.search_options;
    }

    /// Whether all of `option` is set.
    pub fn has_search_option(&self, option: SearchOptions) -> (r: bool)
        ensures
            r == contains_bits(self.search_options.bits, option.bits),
    {
        self.search_options.contains(option)
    }

    /// Toggles `option` on unless it is fully set already.
    pub fn enable_search_option(&mut self, option: SearchOptions)
        ensures
            final(self).search_options.bits == if contains_bits(
                old(self).search_options.bits,
                option.bits,
            ) {
                old(self).search_options.bits
            } else {
                old(self).search_options.bits ^ option.bits
            },
            contains_bits(old(self).search_options.bits, option.bits) ==> *final(self) == *old(self),
            final(self).query_text == old(self).query_text,
            final(self).active_item == old(self).active_item,
    {
        if !self.search_options.contains(option) {
            self.toggle_search_option(option);
        }
    }

    /// Replaces the options (the defaults stay) and returns what follows
    /// from them: the query editor's language (`regex_language_loaded`: the
    /// regex language is at hand) and the case sensitivity that the item's
    /// select-next takes over.
    pub fn set_search_options(&mut self, options: SearchOptions, regex_language_loaded: bool) -> (r:
        OptionsFollowUp)
        ensures
            final(self).search_options == options,
            r.language == (if contains_bits(options.bits, REGEX_BIT) {
                if regex_language_loaded {
                    QueryLanguageChange::SetRegex
                } else {
                    QueryLanguageChange::Keep
                }
            } else {
                QueryLanguageChange::Clear
            }),
            r.select_next_case_sensitive == (if old(self).active_item is Some {
                Some(
                    if old(self).dismissed {
                        None
                    } else {
                        Some(contains_bits(options.bits, CASE_SENSITIVE_BIT))
                    },
                )
            } else {
                None
            }),
            final(self).configured_options == old(self).configured_options,
            final(self).query_error == old(self).query_error,
            final(self).query_editor_focused == old(self).query_editor_focused,
            final(self).replacement_editor_focused == old(self).replacement_editor_focused,
            final(self).default_options == old(self).default_options,
            final(self).query_text == old(self).query_text,
            final(self).active_item == old(self).active_item,
            final(self).active_match_index == old(self).active_match_index,
            final(self).dismissed == old(self).dismissed,
            final(self).replace_enabled == old(self).replace_enabled,
            final(self).selection_search_enabled == old(self).selection_search_enabled,
            final(self).replacement_text == old(self).replacement_text,
            final(self).has_active_search == old(self).has_active_search,
    {
        self.search_options = options;
        let language = self.adjust_query_regex_language(regex_language_loaded);
        let select_next_case_sensitive = self.sync_select_next_case_sensitivity();
        OptionsFollowUp { language, select_next_case_sensitive }
    }

    /// Replaces the options when searching within ranges ends; only the
    /// query editor's language follows (the item's select-next is left as
    /// it is). Everything else about the bar stays.
    pub fn clear_search_within_ranges(&mut self, options: SearchOptions, regex_language_loaded: bool) -> (r:
        QueryLanguageChange)
        ensures
            final(self).search_options == options,
            r == (if contains_bits(options.bits, REGEX_BIT) {
                if regex_language_loaded {
                    QueryLanguageChange::SetRegex
                } else {
                    QueryLanguageChange::Keep
                }
            } else {
                QueryLanguageChange::Clear
            }),
            final(self).default_options == old(self).default_options,
            final(self).configured_options == old(self).configured_options,
            final(self).query_text == old(self).query_text,
            final(self).replacement_text == old(self).replacement_text,
            final(self).active_item == old(self).active_item,
            final(self).active_match_index == old(self).active_match_index,
            final(self).dismissed == old(self).dismissed,
            final(self).replace_enabled == old(self).replace_enabled,
            final(self).selection_search_enabled == old(self).selection_search_enabled,
            final(self).has_active_search == old(self).has_active_search,
            final(self).query_error == old(self).query_error,
            final(self).query_editor_focused == old(self).query_editor_focused,
            final(self).replacement_editor_focused == old(self).replacement_editor_focused,
    {
        self.search_options = options;
        self.adjust_query_regex_language(regex_language_loaded)
    }

    /// With smart case on and a non-empty query, makes the case-sensitive
    /// option agree with whether the query holds an uppercase character.
    pub fn smartcase(&mut self, use_smartcase: bool)
        ensures
            use_smartcase && old(self).query_text@.len() > 0 ==> contains_bits(
                final(self).search_options.bits,
                CASE_SENSITIVE_BIT,
            ) == has_uppercase(old(self).query_text@),
            final(self).search_options.bits == if use_smartcase && smartcase_needs_toggle(
                old(self).query_text@,
                old(self).search_options.bits,
            ) {
                old(self).search_options.bits ^ CASE_SENSITIVE_BIT
            } else {
                old(self).search_options.bits
            },
            final(self).query_text == old(self).query_text,
            final(self).active_item == old(self).active_item,
            final(self).dismissed == old(self).dismissed,
            final(self).replace_enabled == old(self).replace_enabled,
            final(self).selection_search_enabled == old(self).selection_search_enabled,
            final(self).query_editor_focused == old(self).query_editor_focused,
            final(self).default_options == if use_smartcase && smartcase_needs_toggle(
                old(self).query_text@,
                old(self).search_options.bits,
            ) {
                final(self).search_options
            } else {
                old(self).default_options
            },
    {
        if self.should_use_smartcase_search(use_smartcase) {
            let query = self.query();
            if query.as_str().unicode_len() > 0 {
                let is_case = self.is_contains_uppercase(&query);
                if self.has_search_option(SearchOptions::case_sensitive()) != is_case {
                    let ghost before = self.search_options.bits;
                    self.toggle_search_option(SearchOptions::case_sensitive());
                    proof {
                        crate::search_options::lemma_toggle_single(
                            before,
                            CASE_SENSITIVE_BIT,
                            WHOLE_WORD_BIT,
                        );
                    }
                }
            }
        }
    }

    /// Applies a query to the bar as `search` does before searching: options
    /// default to the bar's defaults, and a changed query or changed options
    /// replace the editor text and the options. Returns whether the previous
    /// query can be reused (nothing changed).
    pub fn search(&mut self, query: &str, options: Option<SearchOptions>) -> (r: bool)
        ensures
            ({
                let opts = match options {
                    Some(o) => o,
                    None => old(self).default_options,
                };
                let updated = query@ != old(self).query_text@ || opts.bits
                    != old(self).search_options.bits;
                &&& r == !updated
                &&& final(self).query_text@ == if updated {
                    query@
                } else {
                    old(self).query_text@
                }
                &&& final(self).search_options == if updated {
                    opts
                } else {
                    old(self).search_options
                }
            }),
            final(self).default_options == old(self).default_options,
            final(self).active_item == old(self).active_item,
            final(self).dismissed == old(self).dismissed,
            final(self).replace_enabled == old(self).replace_enabled,
            final(self).selection_search_enabled == old(self).selection_search_enabled,
    {
        let opts = match options {
            Some(o) => o,
            None => self.default_options,
        };
        let same_query = str_equal(query, self.query_text.as_str());
        let updated = !same_query || self.search_options.bits != opts.bits;
        if updated {
            self.query_text = String::from_str(query);
            self.search_options = opts;
        }
        !updated
    }

    /// Focus the active item's editor, if there is one.
    pub fn focus_editor(&self) -> (r: Option<FocusTarget>)
        ensures
            r == if self.active_item is Some {
                Some(FocusTarget::ActiveItem)
            } else {
                None
            },
    {
        if self.active_item.is_some() {
            Some(FocusTarget::ActiveItem)
        } else {
            None
        }
    }

    /// Whether select-all selects the item's matches (and then focuses it).
    pub fn select_all_matches(&self) -> (r: bool)
        ensures
            r == (!self.dismissed && self.active_match_index is Some && item_matches(
                self.active_item,
            ) is Some),
    {
        !self.dismissed && self.active_match_index.is_some() && match &self.active_item {
            Some(item) => item.match_count.is_some(),
            None => false,
        }
    }

    /// The first match, when the item has any.
    pub fn select_first_match(&self) -> (r: Option<usize>)
        ensures
            r == match item_matches(self.active_item) {
                Some(n) => if n > 0 {
                    Some(0usize)
                } else {
                    None
                },
                None => None,
            },
    {
        match &self.active_item {
            Some(item) => match item.match_count {
                Some(n) => if n > 0 {
                    Some(0)
                } else {
                    None
                },
                None => None,
            },
            None => None,
        }
    }

    /// The last match, when the item has any.
    pub fn select_last_match(&self) -> (r: Option<usize>)
        ensures
            r == match item_matches(self.active_item) {
                Some(n) => if n > 0 {
                    Some((n - 1) as usize)
                } else {
                    None
                },
                None => None,
            },
    {
        match &self.active_item {
            Some(item) => match item.match_count {
                Some(n) => if n > 0 {
                    Some(n - 1)
                } else {
                    None
                },
                None => None,
            },
            None => None,
        }
    }

    /// The first step of moving the active match by `count`: without an
    /// active match or recorded matches nothing happens; with wrapping off a
    /// move past either end stops with "no more matches"; else the item is
    /// asked for the new index.
    pub fn select_match(&self, direction: Direction, count: usize, search_wrap: bool) -> (r:
        SelectMatchStep)
        ensures
            r == match (self.active_match_index, item_matches(self.active_item)) {
                (Some(index), Some(n)) => if n == 0 {
                    SelectMatchStep::Nothing
                } else if !search_wrap && ((direction == Direction::Next && index + count >= n) || (
                direction == Direction::Prev && index < count)) {
                    SelectMatchStep::NoMoreMatches
                } else {
                    SelectMatchStep::AskItem { index, count, direction }
                },
                _ => SelectMatchStep::Nothing,
            },
    {
        match (self.active_match_index, &self.active_item) {
            (Some(index), Some(item)) => match item.match_count {
                Some(n) => {
                    if n == 0 {
                        SelectMatchStep::Nothing
                    } else {
                        let at_end = match direction {
                            Direction::Next => index as u128 + count as u128 >= n as u128,
                            Direction::Prev => index < count,
                        };
                        if !search_wrap && at_end {
                            SelectMatchStep::NoMoreMatches
                        } else {
                            SelectMatchStep::AskItem { index, count, direction }
                        }
                    }
                },
                None => SelectMatchStep::Nothing,
            },
            _ => SelectMatchStep::Nothing,
        }
    }

    /// Records the index that the item chose as the active match.
    pub fn finish_select_match(&mut self, new_match_index: usize)
        ensures
            final(self).active_match_index == Some(new_match_index),
            final(self).active_item == old(self).active_item,
            final(self).query_text == old(self).query_text,
            final(self).search_options == old(self).search_options,
    {
        self.active_match_index = Some(new_match_index);
    }

    /// The number of fields that focus cycles through: the query editor, the
    /// replacement editor while replacing, the item when there is one.
    pub open spec fn focus_field_count(&self) -> nat {
        1 + (if self.replace_enabled {
            1nat
        } else {
            0nat
        }) + (if self.active_item is Some {
            1nat
        } else {
            0nat
        })
    }

    /// The position of a field in the focus cycle, if it is part of it.
    pub open spec fn focus_position(&self, f: FocusTarget) -> Option<nat> {
        match f {
            FocusTarget::QueryEditor => Some(0nat),
            FocusTarget::ReplacementEditor => if self.replace_enabled {
                Some(1nat)
            } else {
                None
            },
            FocusTarget::ActiveItem => if self.active_item is Some {
                Some(
                    if self.replace_enabled {
                        2nat
                    } else {
                        1nat
                    },
                )
            } else {
                None
            },
        }
    }

    /// The field at a position of the focus cycle.
    pub open spec fn focus_field_at(&self, p: nat) -> FocusTarget {
        if p == 0 {
            FocusTarget::QueryEditor
        } else if p == 1 && self.replace_enabled {
            FocusTarget::ReplacementEditor
        } else {
            FocusTarget::ActiveItem
        }
    }

    /// Moves focus to the next or previous field, wrapping around; nothing
    /// happens when no field of the cycle has focus.
    pub fn cycle_field(&self, direction: Direction, focused: Option<FocusTarget>) -> (r: Option<
        FocusTarget,
    >)
        ensures
            r == match focused {
                Some(f) => match self.focus_position(f) {
                    Some(p) => Some(
                        self.focus_field_at(
                            cycled_index(p, self.focus_field_count(), direction),
                        ),
                    ),
                    None => None,
                },
                None => None,
            },
    {
        let count: usize = 1 + (if self.replace_enabled {
            1usize
        } else {
            0usize
        }) + (if self.active_item.is_some() {
            1usize
        } else {
            0usize
        });
        let position: usize = match focused {
            Some(FocusTarget::QueryEditor) => 0,
            Some(FocusTarget::ReplacementEditor) => {
                if self.replace_enabled {
                    1
                } else {
                    return None;
                }
            },
            Some(FocusTarget::ActiveItem) => {
                if self.active_item.is_some() {
                    if self.replace_enabled {
                        2
                    } else {
                        1
                    }
                } else {
                    return None;
                }
            },
            None => {
                return None;
            },
        };
        let next = cycle_index(position, count, direction);
        if next == 0 {
            Some(FocusTarget::QueryEditor)
        } else if next == 1 && self.replace_enabled {
            Some(FocusTarget::ReplacementEditor)
        } else {
            Some(FocusTarget::ActiveItem)
        }
    }

    /// Turns replacing on or off when there is an item, and moves focus to
    /// the replacement editor (on) or the query editor (off).
    pub fn toggle_replace(&mut self) -> (r: Option<FocusTarget>)
        ensures
            old(self).active_item is None ==> r is None && *final(self) == *old(self),
            old(self).active_item is Some ==> {
                &&& final(self).replace_enabled == !old(self).replace_enabled
                &&& r == Some(
                    if final(self).replace_enabled {
                        FocusTarget::ReplacementEditor
                    } else {
                        FocusTarget::QueryEditor
                    },
                )
            },
            final(self).query_text == old(self).query_text,
            final(self).search_options == old(self).search_options,
            final(self).active_item == old(self).active_item,
    {
        if self.active_item.is_some() {
            self.replace_enabled = !self.replace_enabled;
            if self.replace_enabled {
                Some(FocusTarget::ReplacementEditor)
            } else {
                Some(FocusTarget::QueryEditor)
            }
        } else {
            None
        }
    }

    /// The range filter that toggling "search in selection" asks for.
    pub fn toggle_selection(&self) -> (r: Option<FilteredSearchRange>)
        ensures
            r == if self.selection_search_enabled is Some {
                None
            } else {
                Some(FilteredSearchRange::Default)
            },
    {
        if self.selection_search_enabled.is_some() {
            None
        } else {
            Some(FilteredSearchRange::Default)
        }
    }

    /// Sets the range filter; only possible with an active item.
    pub fn set_search_within_selection(&mut self, within: Option<FilteredSearchRange>) -> (r: bool)
        ensures
            r == old(self).active_item is Some,
            final(self).selection_search_enabled == if r {
                within
            } else {
                old(self).selection_search_enabled
            },
            final(self).search_options == old(self).search_options,
            final(self).query_text == old(self).query_text,
            final(self).active_item == old(self).active_item,
    {
        if self.active_item.is_none() {
            return false;
        }
        self.selection_search_enabled = within;
        true
    }

    /// Forgets the active item's matches and the active match.
    pub fn clear_active_searchable_item_matches(&mut self) -> (r: bool)
        ensures
            r == old(self).active_item is Some,
            r ==> final(self).active_match_index is None && item_matches(final(self).active_item)
                is None,
            !r ==> *final(self) == *old(self),
            final(self).query_text == old(self).query_text,
            final(self).search_options == old(self).search_options,
            final(self).dismissed == old(self).dismissed,
            final(self).active_item is Some == old(self).active_item is Some,
            final(self).query_error == old(self).query_error,
            final(self).has_active_search == old(self).has_active_search,
            final(self).replace_enabled == old(self).replace_enabled,
    {
        match self.active_item {
            Some(item) => {
                self.active_match_index = None;
                self.active_item = Some(
                    SearchableItemState {
                        is_singleton: item.is_singleton,
                        supported: item.supported,
                        match_count: None,
                    },
                );
                true
            },
            None => false,
        }
    }

    /// The case sensitivity that the item's select-next follows: none while
    /// the bar is dismissed, else the bar's option. `None` without an item.
    pub fn sync_select_next_case_sensitivity(&self) -> (r: Option<Option<bool>>)
        ensures
            r == if self.active_item is Some {
                Some(
                    if self.dismissed {
                        None
                    } else {
                        Some(contains_bits(self.search_options.bits, CASE_SENSITIVE_BIT))
                    },
                )
            } else {
                None
            },
    {
        if self.active_item.is_none() {
            return None;
        }
        if self.dismissed {
            Some(None)
        } else {
            Some(Some(self.search_options.contains(SearchOptions::case_sensitive())))
        }
    }

    /// How the query editor's language follows the regex option: the regex
    /// language once it is loaded, none without the option.
    pub fn adjust_query_regex_language(&self, regex_language_loaded: bool) -> (r:
        QueryLanguageChange)
        ensures
            r == if contains_bits(self.search_options.bits, REGEX_BIT) {
                if regex_language_loaded {
                    QueryLanguageChange::SetRegex
                } else {
                    QueryLanguageChange::Keep
                }
            } else {
                QueryLanguageChange::Clear
            },
    {
        if self.search_options.contains(SearchOptions::regex()) {
            if regex_language_loaded {
                QueryLanguageChange::SetRegex
            } else {
                QueryLanguageChange::Keep
            }
        } else {
            QueryLanguageChange::Clear
        }
    }

    /// Starts a search for the query in the editor. An empty query clears the
    /// item's matches; a reusable query is searched again; otherwise a query
    /// is built from the options. Any previous query error is dropped.
    pub fn begin_update_matches(&mut self, reuse_existing_query: bool) -> (r: UpdateMatchesPlan)
        ensures
            old(self).active_item is None ==> r == UpdateMatchesPlan::NoItem && *final(self) == *old(self),
            old(self).active_item is Some ==> final(self).query_error is None,
            old(self).active_item is Some && old(self).query_text@.len() == 0 ==> r
                == UpdateMatchesPlan::Cleared && final(self).active_match_index is None
                && item_matches(final(self).active_item) is None,
            old(self).active_item is Some && old(self).query_text@.len() > 0 ==> r == if reuse_existing_query
                && old(self).has_active_search {
                UpdateMatchesPlan::ReuseQuery
            } else {
                UpdateMatchesPlan::BuildQuery {
                    regex: contains_bits(old(self).search_options.bits, REGEX_BIT),
                    whole_word: contains_bits(old(self).search_options.bits, WHOLE_WORD_BIT),
                    case_sensitive: contains_bits(old(self).search_options.bits, CASE_SENSITIVE_BIT),
                    one_match_per_line: contains_bits(
                        old(self).search_options.bits,
                        ONE_MATCH_PER_LINE_BIT,
                    ),
                }
            },
            r is BuildQuery ==> !final(self).has_active_search,
            !(r is BuildQuery) ==> final(self).has_active_search == old(self).has_active_search,
            r is BuildQuery || r is ReuseQuery ==> final(self).active_item == old(self).active_item
                && final(self).active_match_index == old(self).active_match_index,
            r is Cleared ==> final(self).active_item is Some,
            final(self).query_text == old(self).query_text,
            final(self).search_options == old(self).search_options,
            final(self).dismissed == old(self).dismissed,
    {
        if self.active_item.is_none() {
            return UpdateMatchesPlan::NoItem;
        }
        self.query_error = None;
        if self.query_text.as_str().unicode_len() == 0 {
            self.clear_active_searchable_item_matches();
            return UpdateMatchesPlan::Cleared;
        }
        if reuse_existing_query && self.has_active_search {
            UpdateMatchesPlan::ReuseQuery
        } else {
            self.has_active_search = false;
            UpdateMatchesPlan::BuildQuery {
                regex: self.search_options.contains(SearchOptions::regex()),
                whole_word: self.search_options.contains(SearchOptions::whole_word()),
                case_sensitive: self.search_options.contains(SearchOptions::case_sensitive()),
                one_match_per_line: self.search_options.contains(
                    SearchOptions::one_match_per_line(),
                ),
            }
        }
    }

    /// Records a query that could not be built: the error is kept, the
    /// item's matches are cleared and there is no active search, so the next
    /// search builds its query anew.
    pub fn fail_update_matches(&mut self, error: String)
        ensures
            final(self).query_error == Some(error),
            !final(self).has_active_search,
            final(self).search_options == old(self).search_options,
            final(self).dismissed == old(self).dismissed,
            final(self).active_match_index == if old(self).active_item is Some {
                None
            } else {
                old(self).active_match_index
            },
            item_matches(final(self).active_item) is None,
            final(self).query_text == old(self).query_text,
    {
        self.clear_active_searchable_item_matches();
        self.query_error = Some(error);
        self.has_active_search = false;
    }

    /// Records the matches that the item found for the active query.
    pub fn record_matches(&mut self, match_count: usize)
        ensures
            old(self).active_item is Some ==> item_matches(final(self).active_item) == Some(
                match_count,
            ) && final(self).has_active_search,
            old(self).active_item is None ==> *final(self) == *old(self),
            final(self).active_match_index == old(self).active_match_index,
            final(self).query_text == old(self).query_text,
            final(self).search_options == old(self).search_options,
    {
        match self.active_item {
            Some(item) => {
                self.active_item = Some(
                    SearchableItemState {
                        is_singleton: item.is_singleton,
                        supported: item.supported,
                        match_count: Some(match_count),
                    },
                );
                self.has_active_search = true;
            },
            None => {},
        }
    }

    /// The search features of the active item; none without an item.
    pub fn supported_options(&self) -> (r: SupportedOptions)
        ensures
            r == match self.active_item {
                Some(item) => item.supported,
                None => SupportedOptions::spec_none(),
            },
    {
        match &self.active_item {
            Some(item) => item.supported,
            None => SupportedOptions::none(),
        }
    }

    /// What the bar shows. `files_folded`: some file of the item is folded;
    /// `narrow`: the bar is narrower than the counter needs;
    /// `replacement_focused`: the replacement input has focus.
    pub fn layout(&self, files_folded: bool, narrow: bool, replacement_focused: bool) -> (r:
        BufferSearchLayout)
        ensures
            ({
                let o = match self.active_item {
                    Some(item) => item.supported,
                    None => SupportedOptions::spec_none(),
                };
                let needs_fold = match self.active_item {
                    Some(item) => !item.is_singleton && !item.supported.find_in_results,
                    None => false,
                };
                let counter = spec_match_text(
                    self.active_item,
                    self.query_text@,
                    self.active_match_index,
                );
                &&& r.fold_button == if needs_fold {
                    Some(files_folded)
                } else {
                    None
                }
                &&& r.fold_button_only == (needs_fold && self.dismissed)
                &&& r.match_text@ == counter.0
                &&& r.query_text_in_error == counter.1
                &&& r.query_border_in_error == self.query_error is Some
                &&& r.show_case_button == o.case
                &&& r.show_word_button == o.word
                &&& r.show_regex_button == o.regex
                &&& r.show_replace_toggle == o.replacement
                &&& r.replace_toggled == self.replace_enabled
                &&& r.show_selection_toggle == o.selection
                &&& r.selection_toggled == self.selection_search_enabled is Some
                &&& r.show_select_all == (!o.find_in_results && o.select_all)
                &&& r.show_match_navigation == !o.find_in_results
                &&& r.match_navigation_enabled == self.active_match_index is Some
                &&& r.show_match_label == (!o.find_in_results && !narrow)
                &&& r.match_label_dimmed == self.active_match_index is None
                &&& r.close_beside_options == o.find_in_results
                &&& r.close_at_right == (!narrow && !o.find_in_results)
                &&& r.show_replace_line == (self.replace_enabled && o.replacement)
                &&& r.in_replace == replacement_focused
                &&& match self.query_error {
                    Some(e) => r.error_line matches Some(l) && l@ == e@,
                    None => r.error_line is None,
                }
            }),
    {
        let o = self.supported_options();
        let needs_fold = self.needs_expand_collapse_option();
        let (match_text, query_text_in_error) = self.match_text();
        let error_line = match &self.query_error {
            Some(e) => Some(e.clone()),
            None => None,
        };
        BufferSearchLayout {
            fold_button: if needs_fold {
                Some(files_folded)
            } else {
                None
            },
            fold_button_only: needs_fold && self.dismissed,
            match_text,
            query_text_in_error,
            query_border_in_error: self.query_error.is_some(),
            show_case_button: o.case,
            show_word_button: o.word,
            show_regex_button: o.regex,
            show_replace_toggle: o.replacement,
            replace_toggled: self.replace_enabled,
            show_selection_toggle: o.selection,
            selection_toggled: self.selection_search_enabled.is_some(),
            show_select_all: !o.find_in_results && o.select_all,
            show_match_navigation: !o.find_in_results,
            match_navigation_enabled: self.active_match_index.is_some(),
            show_match_label: !o.find_in_results && !narrow,
            match_label_dimmed: self.active_match_index.is_none(),
            close_beside_options: o.find_in_results,
            close_at_right: !narrow && !o.find_in_results,
            show_replace_line: self.replace_enabled && o.replacement,
            in_replace: replacement_focused,
            error_line,
        }
    }

    /// The match counter shown in the bar and whether it marks a query
    /// without matches.
    pub fn match_text(&self) -> (r: (String, bool))
        ensures
            (r.0@, r.1) == spec_match_text(self.active_item, self.query_text@, self.active_match_index),
    {
        let zero = {
            let mut v: Vec<char> = Vec::new();
            v.push('0');
            v.push('/');
            v.push('0');
            proof {
                assert(v@ =~= seq!['0', '/', '0']);
            }
            string_from_chars(v.as_slice())
        };
        match &self.active_item {
            Some(item) => {
                if self.query_text.as_str().unicode_len() == 0 {
                    return (zero, false);
                }
                let count: usize = match item.match_count {
                    Some(n) => n,
                    None => 0,
                };
                match self.active_match_index {
                    Some(ix) => {
                        let mut v: Vec<char> = Vec::new();
                        push_decimal(&mut v, ix as u128 + 1);
                        v.push('/');
                        push_decimal(&mut v, count as u128);
                        proof {
                            assert(v@ =~= decimal(ix as nat + 1) + seq!['/'] + decimal(
                                count as nat,
                            ));
                        }
                        (string_from_chars(v.as_slice()), false)
                    },
                    None => (zero, true),
                }
            },
            None => (zero, false),
        }
    }

    /// Tracks whether the replacement editor has focus.
    pub fn on_replacement_editor_event(&mut self, focused: bool)
        ensures
            final(self).replacement_editor_focused == focused,
            final(self).query_editor_focused == old(self).query_editor_focused,
            final(self).query_text == old(self).query_text,
            final(self).search_options == old(self).search_options,
    {
        self.replacement_editor_focused = focused;
    }

    /// Deploys the bar. `suggestion` is what the active item suggests as a
    /// query; an empty one seeds nothing. When the bar can be shown: the
    /// suggestion (if any) becomes the query under the default options, smart case is applied,
    /// replacing is switched on if asked, the range filter is set unless one
    /// is set already, and focus goes to the replacement editor (replacing
    /// with a seeded query) or the query editor, whose text is then selected.
    pub fn deploy(
        &mut self,
        deploy: &Deploy,
        configured_options: SearchOptions,
        use_smartcase: bool,
        suggestion: Option<String>,
    ) -> (r: DeployOutcome)
        ensures
            r.shown == old(self).active_item is Some,
            r.filtered_search_range == if deploy.selection_search_enabled {
                Some(FilteredSearchRange::Default)
            } else {
                None
            },
            !r.shown ==> *final(self) == *old(self) && r.focus is None && !r.select_query,
            r.shown ==> {
                &&& !final(self).dismissed
                &&& final(self).replace_enabled == (old(self).replace_enabled
                    || deploy.replace_enabled)
                &&& final(self).selection_search_enabled == match old(self).selection_search_enabled {
                    Some(s) => Some(s),
                    None => if deploy.selection_search_enabled {
                        Some(FilteredSearchRange::Default)
                    } else {
                        None
                    },
                }
                &&& (seed_of(suggestion) matches Some(s) ==> final(self).query_text@ == s)
                &&& (seed_of(suggestion) is None ==> final(self).query_text == old(self).query_text)
                &&& r.focus == if deploy.focus {
                    if deploy.replace_enabled && seed_of(suggestion) is Some {
                        Some(FocusTarget::ReplacementEditor)
                    } else {
                        Some(FocusTarget::QueryEditor)
                    }
                } else {
                    None
                }
                &&& r.select_query == (deploy.focus && !(deploy.replace_enabled
                    && seed_of(suggestion) is Some))
                &&& ({
                    let took = takes_configured(*old(self), configured_options);
                    let defaults = if took {
                        configured_options
                    } else {
                        old(self).default_options
                    };
                    let seeded_bits = match seed_of(suggestion) {
                        Some(_) => defaults.bits,
                        None => (if took {
                            configured_options.bits
                        } else {
                            old(self).search_options.bits
                        }) & !BACKWARDS_BIT,
                    };
                    let query = match seed_of(suggestion) {
                        Some(s) => s,
                        None => old(self).query_text@,
                    };
                    &&& final(self).search_options.bits == smartcased_bits(
                        query,
                        seeded_bits,
                        use_smartcase,
                    )
                    &&& final(self).default_options == if use_smartcase
                        && smartcase_needs_toggle(query, seeded_bits) {
                        final(self).search_options
                    } else {
                        defaults
                    }
                })
                &&& (use_smartcase && final(self).query_text@.len() > 0 ==> contains_bits(
                    final(self).search_options.bits,
                    CASE_SENSITIVE_BIT,
                ) == has_uppercase(final(self).query_text@))
            },
            final(self).active_item == old(self).active_item,
    {
        let filtered_search_range = if deploy.selection_search_enabled {
            Some(FilteredSearchRange::Default)
        } else {
            None
        };
        if !self.show(configured_options) {
            return DeployOutcome {
                shown: false,
                filtered_search_range,
                focus: None,
                select_query: false,
            };
        }
        let seed = match suggestion {
            Some(s) => self.query_suggestion(s),
            None => None,
        };
        let has_seed_text = seed.is_some();
        match seed {
            Some(s) => {
                let defaults = self.default_options;
                self.search(s.as_str(), Some(defaults));
            },
            None => {},
        }
        self.smartcase(use_smartcase);
        self.replace_enabled = self.replace_enabled || deploy.replace_enabled;
        if self.selection_search_enabled.is_none() {
            self.selection_search_enabled = filtered_search_range;
        }
        let mut focus = None;
        let mut select_query = false;
        if deploy.focus {
            if deploy.replace_enabled && has_seed_text {
                focus = Some(FocusTarget::ReplacementEditor);
            } else {
                focus = Some(FocusTarget::QueryEditor);
                select_query = true;
            }
        }
        DeployOutcome { shown: true, filtered_search_range, focus, select_query }
    }

    /// Deploys the bar seeded from the selection, without moving focus.
    pub fn use_selection_for_find(
        &mut self,
        configured_options: SearchOptions,
        use_smartcase: bool,
        suggestion: Option<String>,
    ) -> (r: DeployOutcome)
        ensures
            r.shown == old(self).active_item is Some,
            r.focus is None,
            !r.select_query,
            r.filtered_search_range is None,
            !r.shown ==> *final(self) == *old(self),
            r.shown ==> {
                &&& !final(self).dismissed
                &&& final(self).replace_enabled == old(self).replace_enabled
                &&& final(self).selection_search_enabled == old(self).selection_search_enabled
                &&& (seed_of(suggestion) matches Some(s) ==> final(self).query_text@ == s)
                &&& (seed_of(suggestion) is None ==> final(self).query_text == old(self).query_text)
                &&& ({
                    let took = takes_configured(*old(self), configured_options);
                    let defaults = if took {
                        configured_options
                    } else {
                        old(self).default_options
                    };
                    let seeded_bits = match seed_of(suggestion) {
                        Some(_) => defaults.bits,
                        None => (if took {
                            configured_options.bits
                        } else {
                            old(self).search_options.bits
                        }) & !BACKWARDS_BIT,
                    };
                    let query = match seed_of(suggestion) {
                        Some(s) => s,
                        None => old(self).query_text@,
                    };
                    &&& final(self).search_options.bits == smartcased_bits(
                        query,
                        seeded_bits,
                        use_smartcase,
                    )
                    &&& final(self).default_options == if use_smartcase
                        && smartcase_needs_toggle(query, seeded_bits) {
                        final(self).search_options
                    } else {
                        defaults
                    }
                })
            },
            final(self).active_item == old(self).active_item,
    {
        let action = Deploy { focus: false, replace_enabled: false, selection_search_enabled: false };
        self.deploy(&action, configured_options, use_smartcase, suggestion)
    }
}

/// Cycling focus forward and then backward comes back to the start.
pub proof fn lemma_cycle_forward_back(current: nat, count: nat)
    requires
        current < count,
    ensures
        cycled_index(cycled_index(current, count, Direction::Next), count, Direction::Prev)
            == current,
        cycled_index(cycled_index(current, count, Direction::Prev), count, Direction::Next)
            == current,
{
    let n = cycled_index(current, count, Direction::Next);
    if current + 1 < count {
        vstd::arithmetic::div_mod::lemma_small_mod((current + 1) as nat, count);
    } else {
        vstd::arithmetic::div_mod::lemma_mod_self_0(count as int);
    }
    let p = cycled_index(current, count, Direction::Prev);
    if current == 0 {
        vstd::arithmetic::div_mod::lemma_mod_self_0(count as int);
    } else {
        vstd::arithmetic::div_mod::lemma_small_mod(current, count);
    }
}

} // verus!
