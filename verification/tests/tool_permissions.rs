use zed_logic::tool_permissions::{
    check_hardcoded_security_rules, expand_rm_to_single_path_commands, hardcoded_security_rules,
    matches_hardcoded_patterns, TerminalInput, ToolPermissionDecision,
    HARDCODED_SECURITY_DENIAL_MESSAGE,
};

fn input(text: &str, subs: Option<Vec<&str>>) -> TerminalInput {
    TerminalInput {
        text: text.to_string(),
        sub_commands: subs.map(|v| v.into_iter().map(|s| s.to_string()).collect()),
    }
}

fn is_denied(d: Option<ToolPermissionDecision>) -> bool {
    match d {
        Some(ToolPermissionDecision::Deny(m)) => m == HARDCODED_SECURITY_DENIAL_MESSAGE,
        _ => false,
    }
}

#[test]
fn expand_rm_normalizes_traversal() {
    assert_eq!(expand_rm_to_single_path_commands("rm -rf /tmp/../../"), vec!["rm -rf /"]);
}

#[test]
fn expand_rm_splits_multiple_paths() {
    assert_eq!(
        expand_rm_to_single_path_commands("  rm -rf /tmp /  "),
        vec!["rm -rf /tmp", "rm -rf /"]
    );
}

#[test]
fn expand_rm_handles_home_variables_and_dot() {
    assert_eq!(
        expand_rm_to_single_path_commands("RM -r $HOME/x/.. ${HOME}/ $PWD ./a/.."),
        vec!["rm -r $HOME", "rm -r ${HOME}", "rm -r $PWD", "rm -r ."]
    );
}

#[test]
fn expand_rm_double_dash_ends_flags() {
    assert_eq!(
        expand_rm_to_single_path_commands("rm -f -- -weird"),
        vec!["rm -f -- -weird"]
    );
    assert_eq!(expand_rm_to_single_path_commands("rm x"), vec!["rm x"]);
}

#[test]
fn expand_ignores_other_commands() {
    assert!(expand_rm_to_single_path_commands("ls -la /").is_empty());
    assert!(expand_rm_to_single_path_commands("").is_empty());
}

#[test]
fn hardcoded_patterns_catch_root_and_home() {
    let rules = hardcoded_security_rules();
    assert_eq!(rules.terminal_deny.len(), 5);
    assert!(matches_hardcoded_patterns("rm -rf /", &rules.terminal_deny));
    assert!(matches_hardcoded_patterns("rm -rf ~", &rules.terminal_deny));
    assert!(matches_hardcoded_patterns("rm -rf $HOME", &rules.terminal_deny));
    assert!(matches_hardcoded_patterns("rm -rf ..", &rules.terminal_deny));
    assert!(matches_hardcoded_patterns("rm -rf /tmp/../../", &rules.terminal_deny));
    assert!(matches_hardcoded_patterns("rm -rf /tmp /", &rules.terminal_deny));
    assert!(!matches_hardcoded_patterns("rm -rf /tmp/build", &rules.terminal_deny));
    assert!(!matches_hardcoded_patterns("ls /", &rules.terminal_deny));
}

#[test]
fn check_rules_only_for_terminal() {
    let inputs = vec![input("rm -rf /", None)];
    assert!(check_hardcoded_security_rules("edit_file", &inputs, true).is_none());
    assert!(is_denied(check_hardcoded_security_rules("terminal", &inputs, true)));
}

#[test]
fn check_rules_inspects_sub_commands_for_posix_shells() {
    let inputs = vec![input(
        "echo hi && rm -rf ~ && echo bye",
        Some(vec!["echo hi", "rm -rf ~", "echo bye"]),
    )];
    assert!(is_denied(check_hardcoded_security_rules("terminal", &inputs, true)));
    assert!(check_hardcoded_security_rules("terminal", &inputs, false).is_none());
    let safe = vec![input("cargo build", Some(vec!["cargo build"]))];
    assert!(check_hardcoded_security_rules("terminal", &safe, true).is_none());
}
