use zed_logic::breakpoints::{
    line_breakpoint_labels, line_breakpoint_row,    BreakpointCapabilities, BreakpointEntry, BreakpointEntryKind, LineBreakpoint,
    SupportedBreakpointProperties, CONDITION_BIT, EXCEPTION_FILTER_OPTIONS_BIT,
    HIT_CONDITION_BIT, LOG_BIT,
};
use zed_logic::console_completion::{
    completion_candidates, completion_item_sort_text, completion_new_text,
    completion_prefix_len, completion_source, completion_type_score, is_completion_trigger,
    to_ascii_lowercase, CompletionItem, CompletionItemType, CompletionSource, CompletionVariable,
};
use zed_logic::debugger_panes::{
    drop_handled, drop_outcome, tab_shows_indicator, DropOutcome, SplitDirection,
};

fn line(path: &str, row: u32, message: Option<&str>) -> BreakpointEntry {
    BreakpointEntry {
        kind: BreakpointEntryKind::LineBreakpoint(LineBreakpoint {
            path: path.to_string(),
            row,
            message: message.map(|m| m.to_string()),
            condition: None,
            hit_condition: Some("3".to_string()),
        }),
    }
}

#[test]
fn breakpoint_properties_from_capabilities() {
    let caps = BreakpointCapabilities {
        supports_log_points: Some(true),
        supports_conditional_breakpoints: Some(false),
        supports_hit_conditional_breakpoints: Some(true),
        supports_exception_options: None,
    };
    let props = SupportedBreakpointProperties::from_capabilities(&caps);
    assert_eq!(props.bits, LOG_BIT | HIT_CONDITION_BIT);
    assert!(props.contains(SupportedBreakpointProperties { bits: LOG_BIT }));
    assert!(!props.contains(SupportedBreakpointProperties { bits: CONDITION_BIT }));
    let all = BreakpointCapabilities {
        supports_log_points: Some(true),
        supports_conditional_breakpoints: Some(true),
        supports_hit_conditional_breakpoints: Some(true),
        supports_exception_options: Some(true),
    };
    assert_eq!(
        SupportedBreakpointProperties::from_capabilities(&all).bits,
        LOG_BIT | CONDITION_BIT | HIT_CONDITION_BIT | EXCEPTION_FILTER_OPTIONS_BIT
    );
    assert_eq!(props.for_exception_breakpoints().bits, 0);
    assert_eq!(props.for_data_breakpoints().bits, 0);
}

#[test]
fn breakpoint_entries() {
    let b = line("/src/main.rs", 12, Some("hit"));
    assert_eq!(b.id(), "source-breakpoint-control-strip-\"/src/main.rs\":12");
    assert!(b.has_log());
    assert!(!b.has_condition());
    assert!(b.has_hit_condition());
    let props = SupportedBreakpointProperties { bits: LOG_BIT | CONDITION_BIT };
    assert_eq!(b.render(props).bits, LOG_BIT | CONDITION_BIT);
    let quoted = line("/a \"b\".rs", 1, None);
    assert_eq!(quoted.id(), "source-breakpoint-control-strip-\"/a \\\"b\\\".rs\":1");
    let e = BreakpointEntry { kind: BreakpointEntryKind::ExceptionBreakpoint { id: "panic".to_string() } };
    assert_eq!(e.id(), "exception-breakpoint-control-strip--panic");
    assert!(!e.has_log() && !e.has_condition() && !e.has_hit_condition());
    assert_eq!(e.render(props).bits, 0);
    let d = BreakpointEntry { kind: BreakpointEntryKind::DataBreakpoint { data_id: "x@1".to_string() } };
    assert_eq!(d.id(), "data-breakpoint-control-strip--x@1");
    assert_eq!(d.render(props).bits, 0);
}

fn item(label: &str, text: Option<&str>, sort: Option<&str>, t: Option<CompletionItemType>) -> CompletionItem {
    CompletionItem {
        label: label.to_string(),
        text: text.map(|s| s.to_string()),
        sort_text: sort.map(|s| s.to_string()),
        type_: t,
    }
}

#[test]
fn completion_ranks_and_texts() {
    assert_eq!(completion_type_score(CompletionItemType::Property), 0);
    assert_eq!(completion_type_score(CompletionItemType::Value), 1);
    assert_eq!(completion_type_score(CompletionItemType::Constructor), 2);
    assert_eq!(completion_type_score(CompletionItemType::Module), 3);
    assert_eq!(completion_type_score(CompletionItemType::Keyword), 4);
    assert_eq!(completion_item_sort_text(&item("Foo", None, None, Some(CompletionItemType::Field))), "000_foo");
    assert_eq!(completion_item_sort_text(&item("Bar", None, None, None)), "004_bar");
    assert_eq!(completion_item_sort_text(&item("Bar", None, Some("zz"), None)), "zz");
    assert_eq!(completion_new_text(&item("label", Some("text"), None, None)), "text");
    assert_eq!(completion_new_text(&item("label", None, None, None)), "label");
    assert_eq!(to_ascii_lowercase("ÀbC"), "Àbc");
}

#[test]
fn completion_replace_ranges() {
    assert_eq!(completion_prefix_len(b"res", b"result"), 3);
    assert_eq!(completion_prefix_len(b"print(res", b"result"), 3);
    assert_eq!(completion_prefix_len(b"$author->n", b"$author->name"), 10);
    assert_eq!(completion_prefix_len(b"$author->books[", b"$author->books[0]"), 15);
    assert_eq!(completion_prefix_len(b"xyz", b"result"), 0);
    assert_eq!(completion_prefix_len(b"result", b"result"), 0);
}

#[test]
fn completion_triggers() {
    let triggers = vec![".".to_string(), "->".to_string()];
    assert!(is_completion_trigger("a", true, true, Some(&triggers)));
    assert!(!is_completion_trigger("a", false, true, Some(&triggers)));
    assert!(is_completion_trigger("->", false, false, Some(&triggers)));
    assert!(is_completion_trigger("?", false, false, None));
    assert!(!is_completion_trigger("", true, true, None));
}

#[test]
fn completion_candidates_are_unique() {
    let v = |name: &str, eval: Option<&str>| CompletionVariable {
        name: name.to_string(),
        evaluate_name: eval.map(|e| e.to_string()),
        value: "0".to_string(),
    };
    let names = completion_candidates(&[v("a", Some("self.a")), v("b", None), v("a", None), v("self.a", Some("b"))]);
    assert_eq!(names, vec!["self.a".to_string(), "a".to_string(), "b".to_string()]);
}

#[test]
fn completion_sources() {
    assert_eq!(completion_source(false, Some(true)), None);
    assert_eq!(completion_source(true, Some(true)), Some(CompletionSource::Adapter));
    assert_eq!(completion_source(true, None), Some(CompletionSource::VariableList));
    assert_eq!(completion_source(true, Some(false)), Some(CompletionSource::VariableList));
}

#[test]
fn dropping_tabs_on_debugger_views() {
    assert_eq!(drop_outcome(false, true, true, Some(SplitDirection::Left)), DropOutcome::Ignored);
    assert_eq!(drop_outcome(true, false, true, Some(SplitDirection::Left)), DropOutcome::Ignored);
    assert_eq!(drop_outcome(true, true, false, None), DropOutcome::Ignored);
    assert_eq!(drop_outcome(true, true, true, None), DropOutcome::LeftToPane);
    assert_eq!(
        drop_outcome(true, true, true, Some(SplitDirection::Down)),
        DropOutcome::SplitAndMove(SplitDirection::Down)
    );
    assert!(!drop_handled(DropOutcome::LeftToPane));
    assert!(drop_handled(DropOutcome::Ignored));
    assert!(tab_shows_indicator(false, true));
    assert!(!tab_shows_indicator(true, true));
}

#[test]
fn line_breakpoint_row_texts() {
    let comps = vec!["/".to_string(), "home".to_string(), "me".to_string()];
    let l = line_breakpoint_labels("main.rs", 42, Some("/home/me"), &comps, true);
    assert_eq!(l.label, "main.rs:42");
    assert_eq!(l.dir_label, Some("home/me".to_string()));
    assert_eq!(l.dir_tooltip, Some("Worktree parent path: /home/me".to_string()));
    assert_eq!(l.toggle_tooltip, "Disable Breakpoint");
    assert!(l.enabled_icon);
    let root = vec!["/".to_string()];
    let l = line_breakpoint_labels("a.rs", 1, Some("/"), &root, false);
    assert_eq!(l.dir_label, None);
    assert_eq!(l.toggle_tooltip, "Enable Breakpoint");
    let l = line_breakpoint_labels("a.rs", 7, None, &[], false);
    assert_eq!(l.dir_label, None);
    assert_eq!(l.dir_tooltip, None);
    let l = line_breakpoint_row("lib.rs", 3, Some("/work/crate/src"), true);
    assert_eq!(l.label, "lib.rs:3");
    assert_eq!(l.dir_label, Some("work/crate/src".to_string()));
}
