use zed_logic::buffer_search::ToolbarItemLocation;
use zed_logic::project_search::{
    ActiveQuery,    buffer_search_query, project_match_text, summarize_search_chunk, InputPanel, MatchRange,
    ProjectFocus, ProjectSearch, ProjectSearchBar, ProjectSearchSettings, ProjectSearchView,
    ProjectSelectStep, QueryBuild, ReplaceAllStep, ReplaceNextStep, SearchActivity,
    SearchCompletion, SearchHistoryCursor, SearchInputKind, SearchResultItem, SearchState,
};
use zed_logic::search_options::{Direction, SearchOptions};

fn active(text: &str) -> ActiveQuery {
    ActiveQuery { text: text.to_string(), replacement: None, options: SearchOptions::none() }
}

fn range(start: usize, end: usize) -> MatchRange {
    MatchRange { start, end }
}

fn view_with_results(query: &str, n: usize) -> ProjectSearchView {
    let mut entity = ProjectSearch::new();
    entity.search(active(query));
    entity.receive_chunk(None, (0..n).map(|i| range(i * 10, i * 10 + 3)).collect());
    entity.complete(false);
    let mut view = ProjectSearchView::new(entity, None, SearchOptions::none());
    view.entity_changed();
    view
}

#[test]
fn search_lifecycle() {
    let mut s = ProjectSearch::new();
    assert_eq!(s.search_state, SearchState::Idle);
    s.search(active("needle"));
    assert_eq!(s.search_id, 1);
    assert!(s.pending_search);
    assert_eq!(s.search_state, SearchState::Running(SearchActivity::Searching));
    s.receive_chunk(Some(SearchActivity::WaitingForScan), vec![range(0, 6)]);
    assert_eq!(s.search_state, SearchState::Running(SearchActivity::WaitingForScan));
    s.receive_chunk(None, vec![range(10, 16), range(20, 26)]);
    assert_eq!(s.match_ranges.len(), 3);
    s.complete(true);
    assert_eq!(
        s.search_state,
        SearchState::Completed(SearchCompletion::Results { limit_reached: true })
    );
    assert!(s.search_state.limit_reached());
    assert!(!s.pending_search);
}

#[test]
fn search_without_results_completes_empty() {
    let mut s = ProjectSearch::new();
    s.search(active("x"));
    s.complete(true);
    assert_eq!(s.search_state, SearchState::Completed(SearchCompletion::NoResults));
    assert!(!s.search_state.limit_reached());
}

#[test]
fn chunk_summary() {
    let items = [
        SearchResultItem::Buffer { ranges: 2 },
        SearchResultItem::WaitingForScan,
        SearchResultItem::Buffer { ranges: 5 },
        SearchResultItem::LimitReached,
        SearchResultItem::Searching,
    ];
    let (buffers, limit, activity) = summarize_search_chunk(&items);
    assert_eq!(buffers, vec![2, 5]);
    assert!(limit);
    assert_eq!(activity, Some(SearchActivity::Searching));
    let (buffers, limit, activity) = summarize_search_chunk(&[]);
    assert!(buffers.is_empty());
    assert!(!limit);
    assert_eq!(activity, None);
}

#[test]
fn clone_drops_a_running_search() {
    let mut s = ProjectSearch::new();
    s.search(active("a"));
    s.receive_chunk(None, vec![range(1, 2)]);
    let c = s.clone();
    assert_eq!(c.match_ranges, vec![range(1, 2)]);
    assert_eq!(c.search_state, SearchState::Idle);
    assert!(!c.pending_search);
    s.complete(false);
    let c = s.clone();
    assert_eq!(c.search_state, s.search_state);
}

#[test]
fn history_cursors_are_per_input() {
    let mut s = ProjectSearch::new();
    s.set_cursor(SearchInputKind::Include, SearchHistoryCursor { selection: Some(3) });
    assert_eq!(s.cursor(SearchInputKind::Include).selection, Some(3));
    assert_eq!(s.cursor(SearchInputKind::Query).selection, None);
    assert_eq!(s.cursor(SearchInputKind::Exclude).selection, None);
}

#[test]
fn deleted_buffers_lose_their_matches() {
    let mut s = ProjectSearch::new();
    s.receive_chunk(None, vec![range(0, 1), range(2, 3), range(4, 5)]);
    s.remove_deleted_matches(&[true, false, true]);
    assert_eq!(s.match_ranges, vec![range(0, 1), range(4, 5)]);
}

#[test]
fn project_match_counter_texts() {
    assert_eq!(project_match_text(None, 4, false), "0/0");
    assert_eq!(project_match_text(Some(0), 0, false), "0/0");
    assert_eq!(project_match_text(Some(1), 12, false), "2/12");
    assert_eq!(project_match_text(Some(9), 10, true), "10/10+");
}

#[test]
fn new_view_takes_settings_and_query() {
    let mut entity = ProjectSearch::new();
    entity.search(ActiveQuery {
        text: "abc".to_string(),
        replacement: None,
        options: SearchOptions::case_sensitive(),
    });
    let settings = ProjectSearchSettings { search_options: SearchOptions::regex(), filters_enabled: true };
    let view = ProjectSearchView::new(entity, Some(settings), SearchOptions::none());
    assert_eq!(view.search_query_text(), "abc");
    assert!(view.filters_enabled);
    assert_eq!(view.search_options.bits(), SearchOptions::case_sensitive().bits());
    assert!(!view.has_matches());
    assert_eq!(view.replacement(), "");
    let mut entity = ProjectSearch::new();
    entity.search(ActiveQuery {
        text: "foo".to_string(),
        replacement: Some("bar".to_string()),
        options: SearchOptions::whole_word(),
    });
    let view = ProjectSearchView::new(entity, Some(settings), SearchOptions::none());
    assert_eq!(view.search_query_text(), "foo");
    assert_eq!(view.replacement(), "bar");
    assert_eq!(view.search_options.bits(), SearchOptions::whole_word().bits());
    assert!(view.filters_enabled);
    let view = ProjectSearchView::new(ProjectSearch::new(), Some(settings), SearchOptions::none());
    assert_eq!(view.search_options.bits(), SearchOptions::regex().bits());
    assert_eq!(view.replacement(), "");
}

#[test]
fn entity_change_activates_first_match() {
    let view = view_with_results("q", 3);
    assert_eq!(view.active_match_index, Some(0));
    assert_eq!(view.get_matches().len(), 3);
    assert_eq!(view.results_editor().match_ranges.len(), 3);
    assert!(view.has_matches());
    assert_eq!(view.search_id, 1);
}

#[test]
fn replace_steps() {
    let mut view = view_with_results("q", 2);
    assert_eq!(view.replace_next(), ReplaceNextStep::Replace(0));
    assert_eq!(view.replace_all(), ReplaceAllStep::ReplaceAll);
    assert!(!view.pending_replace_all);
    view.set_query("other", false);
    assert_eq!(view.replace_next(), ReplaceNextStep::Restart);
    assert_eq!(view.replace_all(), ReplaceAllStep::Restart);
    assert!(view.pending_replace_all);
    view.restart_search_failed();
    assert!(!view.pending_replace_all);
    view.entity.search(active("other"));
    assert_eq!(view.replace_all(), ReplaceAllStep::AfterSearch);
    assert_eq!(view.replace_next(), ReplaceNextStep::Nothing);
}

#[test]
fn select_match_steps() {
    let mut view = view_with_results("q", 2);
    assert_eq!(
        view.select_match(Direction::Next, false),
        ProjectSelectStep::AskEditor { index: 0, direction: Direction::Next }
    );
    assert_eq!(view.select_match(Direction::Prev, false), ProjectSelectStep::NoMoreMatches);
    view.update_match_index(Some(1));
    assert_eq!(view.select_match(Direction::Next, false), ProjectSelectStep::NoMoreMatches);
    assert_eq!(
        view.select_match(Direction::Next, true),
        ProjectSelectStep::AskEditor { index: 1, direction: Direction::Next }
    );
    assert!(!view.update_match_index(Some(1)));
    view.update_match_index(None);
    assert_eq!(view.select_match(Direction::Next, true), ProjectSelectStep::Nothing);
}

#[test]
fn options_and_filters() {
    let mut view = view_with_results("q", 1);
    let settings = view.toggle_filters();
    assert!(settings.filters_enabled);
    let settings = view.toggle_search_option(SearchOptions::case_sensitive());
    assert_eq!(settings.search_options.bits(), SearchOptions::case_sensitive().bits());
    view.toggle_search_option(SearchOptions::case_sensitive());
    assert_eq!(view.current_settings().search_options.bits(), 0);
    view.set_search_option_enabled(SearchOptions::regex(), true);
    assert!(view.adjust_query_regex_language());
    view.set_search_option_enabled(SearchOptions::regex(), false);
    assert!(!view.adjust_query_regex_language());
    view.toggle_opened_only();
    assert!(view.included_opened_only);
}

#[test]
fn smartcase_on_set_query() {
    let mut view = view_with_results("q", 1);
    view.set_query("Hello", true);
    assert!(view.search_options.contains(SearchOptions::case_sensitive()));
    view.set_query("hello", true);
    assert!(!view.search_options.contains(SearchOptions::case_sensitive()));
}

#[test]
fn building_a_query_reports_errors() {
    let mut view = view_with_results("q", 1);
    view.filters_enabled = true;
    assert!(!view.build_search_query(Err("bad glob".to_string()), Ok(()), Ok(QueryBuild::Built)));
    assert!(view.border_is_error(InputPanel::Include));
    assert!(!view.border_is_error(InputPanel::Query));
    assert!(!view.border_is_error(InputPanel::Replacement));
    assert!(!view.build_search_query(Ok(()), Ok(()), Err("bad regex".to_string())));
    assert!(view.border_is_error(InputPanel::Query));
    assert!(!view.build_search_query(Ok(()), Ok(()), Ok(QueryBuild::Empty)));
    assert!(view.build_search_query(Ok(()), Ok(()), Ok(QueryBuild::Built)));
}

#[test]
fn focus_moves_to_results_only_with_matches() {
    let view = view_with_results("q", 1);
    assert!(view.move_focus_to_results(false));
    assert!(!view.move_focus_to_results(true));
    let empty = ProjectSearchView::new(ProjectSearch::new(), None, SearchOptions::none());
    assert!(!empty.move_focus_to_results(false));
}

#[test]
fn text_finder_state_is_adopted() {
    let mut view = view_with_results("q", 1);
    view.adopt_text_finder_state(SearchOptions::regex(), Some(active("found")));
    assert_eq!(view.search_query_text(), "found");
    assert_eq!(view.entity.active_query.as_ref().map(|q| q.text.clone()), Some("found".to_string()));
    assert_eq!(view.entity.search_id, 2);
}

#[test]
fn toolbar_follows_active_item() {
    let mut bar = ProjectSearchBar::new();
    assert_eq!(bar.set_active_pane_item(None), ToolbarItemLocation::Hidden);
    assert!(!bar.confirm(false));
    assert_eq!(bar.match_text(), "0/0");
    assert_eq!(bar.layout(false, false).is_none(), true);
    let view = view_with_results("q", 2);
    assert_eq!(bar.set_active_pane_item(Some(view)), ToolbarItemLocation::PrimaryLeft);
    assert!(bar.confirm(false));
    assert!(!bar.confirm(true));
    assert_eq!(bar.match_text(), "1/2");
}

#[test]
fn toolbar_cycles_focus() {
    let mut bar = ProjectSearchBar::new();
    bar.set_active_pane_item(Some(view_with_results("q", 1)));
    assert_eq!(bar.cycle_field(Direction::Next, Some(ProjectFocus::Query)), Some(ProjectFocus::Query));
    assert_eq!(bar.toggle_replace(), Some(ProjectFocus::Replacement));
    assert!(bar.toggle_filters());
    assert_eq!(
        bar.cycle_field(Direction::Next, Some(ProjectFocus::Replacement)),
        Some(ProjectFocus::Include)
    );
    assert_eq!(bar.cycle_field(Direction::Prev, Some(ProjectFocus::Query)), Some(ProjectFocus::Exclude));
    assert_eq!(bar.toggle_replace(), Some(ProjectFocus::Query));
    assert_eq!(bar.cycle_field(Direction::Next, Some(ProjectFocus::Replacement)), None);
}

#[test]
fn toolbar_toggles_report_rerun() {
    let mut bar = ProjectSearchBar::new();
    assert_eq!(bar.toggle_search_option(SearchOptions::regex()), (false, false));
    bar.set_active_pane_item(Some(view_with_results("q", 1)));
    assert_eq!(bar.toggle_search_option(SearchOptions::regex()), (true, true));
    assert_eq!(bar.toggle_opened_only(), (true, true));
    assert!(bar.is_opened_only_enabled());
}

#[test]
fn toolbar_layout() {
    let mut bar = ProjectSearchBar::new();
    let mut entity = ProjectSearch::new();
    entity.search(active("miss"));
    entity.complete(false);
    let mut view = ProjectSearchView::new(entity, None, SearchOptions::none());
    view.panels_with_errors.excluded = Some("bad exclude".to_string());
    view.filters_enabled = true;
    bar.set_active_pane_item(Some(view));
    let l = bar.layout(true, false).unwrap();
    assert!(l.query_text_in_error);
    assert_eq!(l.match_text, "0/0");
    assert!(!l.match_navigation_enabled);
    assert!(l.show_filter_line);
    assert!(l.fold_button_expands);
    assert_eq!(l.filter_error_line, Some("bad exclude".to_string()));
    assert_eq!(l.query_error_line, None);
    assert!(!l.show_spinner);
}

#[test]
fn buffer_search_seeds_project_search() {
    assert_eq!(buffer_search_query(true, "abc".to_string()), Some("abc".to_string()));
    assert_eq!(buffer_search_query(false, "abc".to_string()), None);
    assert_eq!(buffer_search_query(true, String::new()), None);
}

#[test]
fn stream_hands_results_to_text_finder() {
    let mut s = ProjectSearch::new();
    s.search(active("needle"));
    s.receive_chunk(Some(SearchActivity::Searching), vec![range(0, 6)]);
    let mut turning = true;
    assert!(s.finish_stream(&mut turning, false));
    assert!(!turning);
    assert_eq!(s.search_state, SearchState::Running(SearchActivity::Searching));
    assert!(s.pending_search);

    let mut turning = false;
    assert!(!s.finish_stream(&mut turning, true));
    assert_eq!(
        s.search_state,
        SearchState::Completed(SearchCompletion::Results { limit_reached: true })
    );
    assert!(!s.pending_search);
}

#[test]
fn default_search_bar_has_no_search() {
    assert!(ProjectSearchBar::default().active_project_search.is_none());
}
