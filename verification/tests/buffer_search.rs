use zed_logic::buffer_search::{
    BufferSearchBar, Deploy, FilteredSearchRange, FocusTarget, QueryEditorEvent,
    QueryLanguageChange, SearchableItemState, SelectMatchStep, SupportedOptions, ToggleAction,
    ToolbarItemLocation, UpdateMatchesPlan,
};
use zed_logic::search_options::{Direction, FoldToggle, SearchOptions};

fn all_supported() -> SupportedOptions {
    SupportedOptions {
        case: true,
        word: true,
        regex: true,
        replacement: true,
        selection: true,
        select_all: true,
        find_in_results: false,
    }
}

fn item(is_singleton: bool, matches: Option<usize>) -> SearchableItemState {
    SearchableItemState { is_singleton, supported: all_supported(), match_count: matches }
}

fn bar_with(matches: Option<usize>) -> BufferSearchBar {
    let mut bar = BufferSearchBar::new(SearchOptions::none());
    bar.active_item = Some(item(true, matches));
    bar
}

#[test]
fn new_bar_is_dismissed_and_empty() {
    let bar = BufferSearchBar::new(SearchOptions::case_sensitive());
    assert!(bar.dismissed);
    assert_eq!(bar.query(), "");
    assert_eq!(bar.replacement(), "");
    assert!(bar.has_search_option(SearchOptions::case_sensitive()));
    assert_eq!(bar.toggle(), ToggleAction::Deploy);
}

#[test]
fn show_without_item_does_nothing() {
    let mut bar = BufferSearchBar::new(SearchOptions::none());
    assert!(!bar.show(SearchOptions::regex()));
    assert!(bar.dismissed);
}

#[test]
fn show_takes_new_configured_options_and_clears_backwards() {
    let mut bar = bar_with(None);
    let mut configured = SearchOptions::regex();
    configured.insert(SearchOptions::backwards());
    assert!(bar.show(configured));
    assert!(!bar.dismissed);
    assert!(bar.has_search_option(SearchOptions::regex()));
    assert!(!bar.has_search_option(SearchOptions::backwards()));
    assert_eq!(bar.toggle(), ToggleAction::Dismiss);
    bar.dismiss();
    assert!(bar.dismissed);
}

#[test]
fn expand_collapse_only_for_multibuffers() {
    let mut bar = BufferSearchBar::new(SearchOptions::none());
    assert!(!bar.needs_expand_collapse_option());
    bar.active_item = Some(item(true, None));
    assert!(!bar.needs_expand_collapse_option());
    assert_eq!(bar.toolbar_location(), ToolbarItemLocation::Secondary);
    bar.active_item = Some(item(false, None));
    assert!(bar.needs_expand_collapse_option());
    assert_eq!(bar.toolbar_location(), ToolbarItemLocation::PrimaryLeft);
}

#[test]
fn query_suggestion_needs_item_and_text() {
    let bar = BufferSearchBar::new(SearchOptions::none());
    assert_eq!(bar.query_suggestion("abc".to_string()), None);
    let bar = bar_with(None);
    assert_eq!(bar.query_suggestion(String::new()), None);
    assert_eq!(bar.query_suggestion("abc".to_string()), Some("abc".to_string()));
}

#[test]
fn set_replacement_reads_back() {
    let mut bar = bar_with(None);
    bar.set_replacement(Some("new"));
    assert!(bar.replace_enabled);
    assert_eq!(bar.replacement(), "new");
    bar.set_replacement(None);
    assert!(!bar.replace_enabled);
    assert_eq!(bar.replacement(), "new");
}

#[test]
fn match_counter_texts() {
    let mut bar = bar_with(Some(5));
    assert_eq!(bar.match_text(), ("0/0".to_string(), false));
    bar.search("foo", None);
    assert_eq!(bar.match_text(), ("0/0".to_string(), true));
    bar.active_match_index = Some(2);
    assert_eq!(bar.match_text(), ("3/5".to_string(), false));
    bar.active_item = Some(item(true, Some(123)));
    bar.active_match_index = Some(99);
    assert_eq!(bar.match_text(), ("100/123".to_string(), false));
}

#[test]
fn match_selection_steps() {
    let mut bar = bar_with(Some(3));
    assert_eq!(bar.select_first_match(), Some(0));
    assert_eq!(bar.select_last_match(), Some(2));
    assert_eq!(bar.select_match(Direction::Next, 1, false), SelectMatchStep::Nothing);
    bar.active_match_index = Some(2);
    assert_eq!(bar.select_match(Direction::Next, 1, false), SelectMatchStep::NoMoreMatches);
    assert_eq!(
        bar.select_match(Direction::Next, 1, true),
        SelectMatchStep::AskItem { index: 2, count: 1, direction: Direction::Next }
    );
    bar.active_match_index = Some(0);
    assert_eq!(bar.select_match(Direction::Prev, 1, false), SelectMatchStep::NoMoreMatches);
    bar.finish_select_match(1);
    assert_eq!(bar.active_match_index, Some(1));
    let bar = bar_with(Some(0));
    assert_eq!(bar.select_first_match(), None);
    assert_eq!(bar.select_last_match(), None);
}

#[test]
fn update_match_index_follows_item() {
    let mut bar = bar_with(Some(4));
    bar.dismissed = false;
    let update = bar.update_match_index(Some(1));
    assert!(update.changed);
    assert!(update.refresh_item);
    assert!(bar.has_active_match());
    let update = bar.update_match_index(Some(1));
    assert!(!update.changed);
    let mut no_matches = bar_with(None);
    assert!(!no_matches.match_exists(Some(3)));
    assert_eq!(no_matches.active_match_index, None);
}

#[test]
fn backwards_option_reverses_direction() {
    let mut bar = bar_with(None);
    assert_eq!(bar.reverse_direction_if_backwards(Direction::Next), Direction::Next);
    bar.enable_search_option(SearchOptions::backwards());
    assert_eq!(bar.reverse_direction_if_backwards(Direction::Next), Direction::Prev);
    assert_eq!(bar.reverse_direction_if_backwards(Direction::Prev), Direction::Next);
}

#[test]
fn toggling_an_option_twice_restores_it() {
    let mut bar = bar_with(None);
    let before = bar.search_options.bits();
    bar.toggle_search_option(SearchOptions::whole_word());
    assert!(bar.has_search_option(SearchOptions::whole_word()));
    bar.toggle_search_option(SearchOptions::whole_word());
    assert_eq!(bar.search_options.bits(), before);
}

#[test]
fn smartcase_follows_uppercase() {
    let mut bar = bar_with(None);
    bar.search("Foo", None);
    bar.smartcase(true);
    assert!(bar.has_search_option(SearchOptions::case_sensitive()));
    bar.search("foo", Some(bar.search_options));
    bar.smartcase(true);
    assert!(!bar.has_search_option(SearchOptions::case_sensitive()));
    bar.search("Bar", Some(bar.search_options));
    bar.smartcase(false);
    assert!(!bar.has_search_option(SearchOptions::case_sensitive()));
    assert!(bar.is_contains_uppercase(&"aÉ".to_string()));
    assert!(!bar.is_contains_uppercase(&"aé1".to_string()));
}

#[test]
fn search_reports_unchanged_query() {
    let mut bar = bar_with(None);
    assert!(!bar.search("a", None));
    assert!(bar.search("a", None));
    assert!(!bar.search("a", Some(SearchOptions::regex())));
    assert!(bar.has_search_option(SearchOptions::regex()));
}

#[test]
fn update_matches_plans() {
    let mut empty = BufferSearchBar::new(SearchOptions::none());
    assert_eq!(empty.begin_update_matches(false), UpdateMatchesPlan::NoItem);
    let mut bar = bar_with(Some(2));
    bar.active_match_index = Some(1);
    assert_eq!(bar.begin_update_matches(false), UpdateMatchesPlan::Cleared);
    assert_eq!(bar.active_match_index, None);
    bar.search("x", Some(SearchOptions::regex()));
    assert_eq!(
        bar.begin_update_matches(false),
        UpdateMatchesPlan::BuildQuery {
            regex: true,
            whole_word: false,
            case_sensitive: false,
            one_match_per_line: false
        }
    );
    bar.record_matches(7);
    assert!(bar.has_active_search);
    assert_eq!(bar.begin_update_matches(true), UpdateMatchesPlan::ReuseQuery);
    bar.fail_update_matches("bad regex".to_string());
    assert_eq!(bar.query_error, Some("bad regex".to_string()));
    assert!(!bar.has_active_search);
    assert!(matches!(bar.begin_update_matches(true), UpdateMatchesPlan::BuildQuery { .. }));
}

#[test]
fn replace_needs_an_active_search() {
    let mut bar = bar_with(Some(2));
    assert!(!bar.replace_all());
    bar.dismissed = false;
    bar.has_active_search = true;
    bar.active_match_index = Some(0);
    assert!(bar.replace_all());
    assert_eq!(bar.replace_next(), (Some(0), true));
    assert!(bar.select_all_matches());
    assert_eq!(bar.activate_current_match(), Some(0));
}

#[test]
fn focus_cycles_through_visible_fields() {
    let mut bar = bar_with(None);
    assert_eq!(
        bar.cycle_field(Direction::Next, Some(FocusTarget::QueryEditor)),
        Some(FocusTarget::ActiveItem)
    );
    bar.replace_enabled = true;
    assert_eq!(
        bar.cycle_field(Direction::Next, Some(FocusTarget::QueryEditor)),
        Some(FocusTarget::ReplacementEditor)
    );
    assert_eq!(
        bar.cycle_field(Direction::Prev, Some(FocusTarget::QueryEditor)),
        Some(FocusTarget::ActiveItem)
    );
    assert_eq!(bar.cycle_field(Direction::Next, None), None);
    assert_eq!(bar.focus_editor(), Some(FocusTarget::ActiveItem));
}

#[test]
fn toggle_replace_moves_focus() {
    let mut bar = bar_with(None);
    assert_eq!(bar.toggle_replace(), Some(FocusTarget::ReplacementEditor));
    assert!(bar.replace_enabled);
    assert_eq!(bar.toggle_replace(), Some(FocusTarget::QueryEditor));
    let mut no_item = BufferSearchBar::new(SearchOptions::none());
    assert_eq!(no_item.toggle_replace(), None);
}

#[test]
fn focus_replace_moves_focus_to_replacement() {
    let mut bar = bar_with(None);
    bar.query_editor_focused = true;
    assert_eq!(bar.focus_replace(), FocusTarget::ReplacementEditor);
    assert!(bar.replacement_editor_focused);
    assert!(!bar.query_editor_focused);
}

#[test]
fn select_query_covers_whole_query() {
    let mut bar = bar_with(None);
    bar.search("héllo", None);
    assert_eq!(bar.select_query(), (0, 5));
}

#[test]
fn selection_search_toggles() {
    let mut bar = bar_with(None);
    assert_eq!(bar.toggle_selection(), Some(FilteredSearchRange::Default));
    assert!(bar.set_search_within_selection(Some(FilteredSearchRange::Selection)));
    assert_eq!(bar.toggle_selection(), None);
    bar.active_match_index = Some(1);
    assert_eq!(
        bar.clear_search_within_ranges(SearchOptions::regex(), true),
        QueryLanguageChange::SetRegex
    );
    assert!(bar.has_search_option(SearchOptions::regex()));
    assert_eq!(bar.active_match_index, Some(1));
    assert_eq!(bar.selection_search_enabled, Some(FilteredSearchRange::Selection));
}

#[test]
fn regex_language_of_query() {
    let mut bar = bar_with(None);
    assert_eq!(bar.adjust_query_regex_language(true), QueryLanguageChange::Clear);
    let follow = bar.set_search_options(SearchOptions::regex(), false);
    assert_eq!(follow.language, QueryLanguageChange::Keep);
    assert_eq!(follow.select_next_case_sensitive, Some(None));
    assert_eq!(bar.adjust_query_regex_language(true), QueryLanguageChange::SetRegex);
    assert_eq!(bar.adjust_query_regex_language(false), QueryLanguageChange::Keep);
}

#[test]
fn select_next_follows_case_sensitivity() {
    let mut bar = bar_with(None);
    assert_eq!(bar.sync_select_next_case_sensitivity(), Some(None));
    bar.dismissed = false;
    let follow = bar.set_search_options(SearchOptions::case_sensitive(), true);
    assert_eq!(follow.select_next_case_sensitive, Some(Some(true)));
    assert_eq!(follow.language, QueryLanguageChange::Clear);
    assert_eq!(bar.sync_select_next_case_sensitivity(), Some(Some(true)));
}

#[test]
fn deploy_with_seed_and_replace_focuses_replacement() {
    let mut bar = bar_with(None);
    let action = Deploy { focus: true, replace_enabled: true, selection_search_enabled: false };
    let out = bar.deploy(&action, SearchOptions::none(), true, Some("Seed".to_string()));
    assert!(out.shown);
    assert_eq!(out.focus, Some(FocusTarget::ReplacementEditor));
    assert!(!out.select_query);
    assert_eq!(bar.query(), "Seed");
    assert!(bar.replace_enabled);
    assert!(bar.has_search_option(SearchOptions::case_sensitive()));
}

#[test]
fn deploy_without_item_is_refused() {
    let mut bar = BufferSearchBar::new(SearchOptions::none());
    let action = Deploy { focus: true, replace_enabled: false, selection_search_enabled: true };
    let out = bar.deploy(&action, SearchOptions::none(), false, None);
    assert!(!out.shown);
    assert_eq!(out.filtered_search_range, Some(FilteredSearchRange::Default));
    assert!(bar.dismissed);
}

#[test]
fn use_selection_for_find_keeps_focus() {
    let mut bar = bar_with(None);
    let out = bar.use_selection_for_find(SearchOptions::none(), false, Some("sel".to_string()));
    assert!(out.shown);
    assert_eq!(out.focus, None);
    assert_eq!(bar.query(), "sel");
}

#[test]
fn layout_of_a_results_view() {
    let mut bar = BufferSearchBar::new(SearchOptions::none());
    let mut opts = all_supported();
    opts.find_in_results = true;
    bar.active_item = Some(SearchableItemState { is_singleton: false, supported: opts, match_count: None });
    bar.dismissed = false;
    let l = bar.layout(false, false, false);
    assert_eq!(l.fold_button, None);
    assert!(l.close_beside_options);
    assert!(!l.close_at_right);
    assert!(!l.show_match_navigation);
    assert!(!l.show_select_all);
}

#[test]
fn layout_of_a_multibuffer() {
    let mut bar = bar_with(Some(2));
    bar.active_item = Some(item(false, Some(2)));
    bar.search("q", None);
    bar.active_match_index = Some(0);
    bar.replace_enabled = true;
    bar.query_error = Some("oops".to_string());
    let l = bar.layout(true, true, true);
    assert_eq!(l.fold_button, Some(true));
    assert!(l.fold_button_only);
    assert_eq!(l.match_text, "1/2");
    assert!(!l.query_text_in_error);
    assert!(l.query_border_in_error);
    assert!(l.show_replace_line);
    assert!(!l.show_match_label);
    assert!(!l.close_at_right);
    assert!(l.match_navigation_enabled);
    assert!(l.in_replace);
    assert_eq!(l.error_line, Some("oops".to_string()));
}

#[test]
fn supported_options_without_item_are_none() {
    let bar = BufferSearchBar::new(SearchOptions::none());
    assert_eq!(bar.supported_options(), SupportedOptions::none());
}

#[test]
fn query_editor_events() {
    let mut bar = bar_with(None);
    assert!(!bar.on_query_editor_event(QueryEditorEvent::Focused, true));
    assert!(bar.query_editor_focused);
    assert!(!bar.on_query_editor_event(QueryEditorEvent::Blurred, true));
    assert!(!bar.query_editor_focused);
    bar.search("Up", None);
    assert!(bar.on_query_editor_event(QueryEditorEvent::Edited, true));
    assert!(bar.has_search_option(SearchOptions::case_sensitive()));
    bar.on_replacement_editor_event(true);
    assert!(bar.replacement_editor_focused);
}

#[test]
fn fold_toggle_in_item() {
    let bar = bar_with(None);
    assert_eq!(bar.toggle_fold_all_in_item(true, true), Some(FoldToggle::UnfoldAll));
    assert_eq!(bar.toggle_fold_all_in_item(true, false), Some(FoldToggle::FoldAll));
    assert_eq!(bar.toggle_fold_all_in_item(false, false), None);
}

#[test]
fn suggested_search_activates_only_when_shown() {
    let mut bar = bar_with(None);
    assert!(!bar.activates_after_suggested_search(true));
    bar.dismissed = false;
    assert!(bar.activates_after_suggested_search(true));
    assert!(!bar.activates_after_suggested_search(false));
}

#[test]
fn clearing_item_matches() {
    let mut bar = bar_with(Some(3));
    bar.active_match_index = Some(1);
    assert!(bar.clear_active_searchable_item_matches());
    assert_eq!(bar.active_match_index, None);
    assert_eq!(bar.active_item.unwrap().match_count, None);
}

#[test]
fn deploy_seeds_with_default_options() {
    let mut bar = bar_with(None);
    bar.search_options = SearchOptions::regex();
    let action = Deploy { focus: true, replace_enabled: false, selection_search_enabled: false };
    bar.deploy(&action, bar.configured_options, false, Some("seed".to_string()));
    assert_eq!(bar.search_options.bits(), bar.default_options.bits());
    assert!(!bar.has_search_option(SearchOptions::regex()));
    let mut bar = bar_with(None);
    bar.search_options = SearchOptions::regex();
    bar.use_selection_for_find(bar.configured_options, false, None);
    assert!(bar.has_search_option(SearchOptions::regex()));
}

#[test]
fn failed_regex_clears_active_match() {
    let mut bar = bar_with(Some(3));
    bar.active_match_index = Some(2);
    bar.search("(", Some(SearchOptions::regex()));
    assert!(matches!(bar.begin_update_matches(false), UpdateMatchesPlan::BuildQuery { .. }));
    assert_eq!(bar.active_match_index, Some(2));
    bar.fail_update_matches("unclosed group".to_string());
    assert_eq!(bar.active_match_index, None);
}

#[test]
fn empty_suggestion_seeds_nothing() {
    let mut bar = bar_with(None);
    bar.search("keep", None);
    let action = Deploy { focus: true, replace_enabled: true, selection_search_enabled: false };
    let out = bar.deploy(&action, bar.configured_options, false, Some(String::new()));
    assert_eq!(bar.query(), "keep");
    assert_eq!(out.focus, Some(FocusTarget::QueryEditor));
    assert!(out.select_query);
}
