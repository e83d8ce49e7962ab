use zed_logic::project_search::SearchInputKind;
use zed_logic::search_history::{
    focused_history_input, next_history_step, previous_history_plan, NextHistoryStep,
    PreviousHistoryPlan,
};

#[test]
fn stepping_back_through_history() {
    assert_eq!(previous_history_plan(false, ""), PreviousHistoryPlan::Propagate);
    assert_eq!(previous_history_plan(true, ""), PreviousHistoryPlan::CurrentEntry);
    assert_eq!(previous_history_plan(true, "typed"), PreviousHistoryPlan::PreviousEntry);
}

#[test]
fn stepping_forward_through_history() {
    assert!(matches!(next_history_step(false, Some("a".to_string())), NextHistoryStep::Propagate));
    match next_history_step(true, Some("a".to_string())) {
        NextHistoryStep::Search(q) => assert_eq!(q, "a"),
        _ => panic!("the next entry is searched"),
    }
    assert!(matches!(next_history_step(true, None), NextHistoryStep::RestoreDraft));
}

#[test]
fn the_focused_input_walks_its_history() {
    assert_eq!(focused_history_input(true, true, false), Some(SearchInputKind::Query));
    assert_eq!(focused_history_input(false, true, true), Some(SearchInputKind::Include));
    assert_eq!(focused_history_input(false, false, true), Some(SearchInputKind::Exclude));
    assert_eq!(focused_history_input(false, false, false), None);
}
