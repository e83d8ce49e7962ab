use zed_logic::acp::{
    apply_config_value, config_state, default_config_to_apply, mcp_server_for,
    session_directories_from_work_dirs, set_option_value, terminal_auth_task_id,
    work_dirs_from_session_info, ContextServerConfiguration, DefaultValue, McpServer,
    SelectOptions, SessionConfigKind, SessionConfigOption, SessionConfigOptionValue,
    SessionModeState, EMPTY_WORK_DIRS_MESSAGE,
};
use zed_logic::acp_launch::{
    client_capabilities_for_agent,    connection_profile, launch_command, login_args, meta_terminal_auth_task, terminal_auth_task,
    trim_line_ending, AgentInfo, LaunchCommand, MetaTerminalAuth, UnsupportedVersion,
};
use zed_logic::acp_sessions::{
    check_delete_supported, finish_session_load, new_terminal_id, open_session_step,
    plan_session_notification, session_info_from_listing, terminal_label,
    unknown_session_message, ListedSession, OpenSessionStep, PendingSession, SessionRecord,
    SessionUpdateKind, TerminalEvent, TerminalExitMeta, TerminalInfoMeta, TerminalOutputMeta,
    Timestamp, DELETE_NOT_SUPPORTED, SESSION_CLOSED_DURING_LOAD,
};

fn strings(v: &[&str]) -> Vec<String> {
    v.iter().map(|s| s.to_string()).collect()
}

fn select(current: &str, options: &[&str]) -> SessionConfigOption {
    SessionConfigOption {
        id: "model".to_string(),
        kind: SessionConfigKind::Select {
            current_value: current.to_string(),
            options: SelectOptions::Ungrouped(strings(options)),
        },
    }
}

fn current_of(o: &SessionConfigOption) -> String {
    match &o.kind {
        SessionConfigKind::Select { current_value, .. } => current_value.clone(),
        SessionConfigKind::Boolean { current_value } => current_value.to_string(),
        SessionConfigKind::Other => String::new(),
    }
}

#[test]
fn directories_of_a_new_session() {
    let dirs = session_directories_from_work_dirs(&strings(&["/a", "/b", "/c"]), true).unwrap();
    assert_eq!(dirs.cwd, "/a");
    assert_eq!(dirs.additional_directories, strings(&["/b", "/c"]));
    let dirs = session_directories_from_work_dirs(&strings(&["/a", "/b"]), false).unwrap();
    assert!(dirs.additional_directories.is_empty());
    match session_directories_from_work_dirs(&[], true) {
        Err(e) => assert_eq!(e, EMPTY_WORK_DIRS_MESSAGE),
        Ok(_) => panic!("empty work directories must fail"),
    }
}

#[test]
fn listed_directories_drop_repeats() {
    assert_eq!(
        work_dirs_from_session_info("/a".to_string(), strings(&["/b", "/a", "/b", "/c"])),
        strings(&["/a", "/b", "/c"])
    );
}

#[test]
fn login_task_ids() {
    assert_eq!(terminal_auth_task_id("my-agent", "oauth"), "external-agent-my-agent-oauth-login");
}

#[test]
fn options_replace_modes() {
    assert_eq!(config_state(Some(1), Some("opts")), (None, Some("opts")));
    assert_eq!(config_state(Some(1), None::<&str>), (Some(1), None));
}

#[test]
fn defaults_to_apply() {
    let option = select("fast", &["fast", "smart"]);
    let default = DefaultValue::ValueId("smart".to_string());
    let (apply, restore) = default_config_to_apply(&option, Some(&default), false).unwrap();
    assert!(apply == SessionConfigOptionValue::ValueId("smart".to_string()));
    assert!(restore == SessionConfigOptionValue::ValueId("fast".to_string()));
    let unknown = DefaultValue::ValueId("huge".to_string());
    assert!(default_config_to_apply(&option, Some(&unknown), false).is_none());
    let flag = SessionConfigOption { id: "x".to_string(), kind: SessionConfigKind::Boolean { current_value: false } };
    assert!(default_config_to_apply(&flag, Some(&DefaultValue::Bool(true)), false).is_none());
    assert!(default_config_to_apply(&flag, Some(&DefaultValue::Bool(true)), true).is_some());
    assert!(default_config_to_apply(&flag, None, true).is_none());
}

#[test]
fn grouped_select_defaults() {
    let option = SessionConfigOption {
        id: "model".to_string(),
        kind: SessionConfigKind::Select {
            current_value: "a".to_string(),
            options: SelectOptions::Grouped(vec![strings(&["a"]), strings(&["b", "c"])]),
        },
    };
    assert!(default_config_to_apply(&option, Some(&DefaultValue::ValueId("c".to_string())), false).is_some());
}

#[test]
fn default_then_restore_gives_back_the_option() {
    let option = select("fast", &["fast", "smart"]);
    let (apply, restore) =
        default_config_to_apply(&option, Some(&DefaultValue::ValueId("smart".to_string())), false).unwrap();
    let applied = apply_config_value(option, &apply);
    assert_eq!(current_of(&applied), "smart");
    let restored = apply_config_value(applied, &restore);
    assert_eq!(current_of(&restored), "fast");
}

#[test]
fn mismatched_values_leave_options_alone() {
    let option = select("fast", &["fast"]);
    let same = apply_config_value(option, &SessionConfigOptionValue::Boolean(true));
    assert_eq!(current_of(&same), "fast");
}

#[test]
fn setting_an_option_by_id() {
    let mut opts = vec![
        SessionConfigOption { id: "flag".to_string(), kind: SessionConfigKind::Boolean { current_value: false } },
        select("fast", &["fast", "smart"]),
    ];
    set_option_value(&mut opts, "model", &SessionConfigOptionValue::ValueId("smart".to_string()));
    assert_eq!(current_of(&opts[1]), "smart");
    set_option_value(&mut opts, "flag", &SessionConfigOptionValue::Boolean(true));
    assert_eq!(current_of(&opts[0]), "true");
    set_option_value(&mut opts, "missing", &SessionConfigOptionValue::Boolean(false));
    assert_eq!(opts.len(), 2);
}

#[test]
fn optimistic_mode_changes() {
    let mut modes = SessionModeState { current_mode_id: "ask".to_string(), available_modes: strings(&["ask", "code"]) };
    let previous = modes.begin_set_mode("code".to_string());
    assert_eq!(previous, "ask");
    assert_eq!(modes.current_mode_id, "code");
    modes.finish_set_mode(previous, false);
    assert_eq!(modes.current_mode_id, "ask");
    let previous = modes.begin_set_mode("code".to_string());
    modes.finish_set_mode(previous, true);
    assert_eq!(modes.current_mode_id, "code");
}

#[test]
fn context_servers_offered_to_agents() {
    let local = ContextServerConfiguration::Command {
        command: "srv".to_string(),
        args: strings(&["--x"]),
        env: Some(vec![("K".to_string(), "V".to_string())]),
        remote: false,
    };
    match mcp_server_for("db", &local, true) {
        Some(McpServer::Stdio { name, command, args, env }) => {
            assert_eq!(name, "db");
            assert_eq!(command, "srv");
            assert_eq!(args, strings(&["--x"]));
            assert_eq!(env, vec![("K".to_string(), "V".to_string())]);
        }
        _ => panic!("expected a stdio server"),
    }
    assert!(mcp_server_for("db", &local, false).is_none());
    let no_env = ContextServerConfiguration::Command { command: "s".to_string(), args: vec![], env: None, remote: true };
    match mcp_server_for("r", &no_env, false) {
        Some(McpServer::Stdio { env, .. }) => assert!(env.is_empty()),
        _ => panic!("remote servers are offered"),
    }
    let http = ContextServerConfiguration::Http {
        url: "https://x".to_string(),
        headers: vec![("Auth".to_string(), "t".to_string())],
    };
    match mcp_server_for("web", &http, false) {
        Some(McpServer::Http { name, url, headers }) => {
            assert_eq!(name, "web");
            assert_eq!(url, "https://x");
            assert_eq!(headers.len(), 1);
        }
        _ => panic!("expected an http server"),
    }
    assert!(mcp_server_for("o", &ContextServerConfiguration::Other, true).is_none());
}

#[test]
fn opening_sessions_counts_holders() {
    let dirs = strings(&["/w"]);
    let mut pending = None;
    let mut session = None;
    match open_session_step(&mut pending, &mut session, &dirs, false) {
        OpenSessionStep::Load(d) => assert_eq!(d.cwd, "/w"),
        _ => panic!("expected a load"),
    }
    assert_eq!(pending, Some(PendingSession { ref_count: 1 }));
    assert!(matches!(open_session_step(&mut pending, &mut session, &dirs, false), OpenSessionStep::AwaitPending));
    assert!(matches!(open_session_step(&mut pending, &mut session, &dirs, false), OpenSessionStep::AwaitPending));
    assert_eq!(pending, Some(PendingSession { ref_count: 3 }));
    assert_eq!(finish_session_load(pending, true), Ok(3));
    assert_eq!(finish_session_load(None, true), Ok(1));
    assert_eq!(finish_session_load(pending, false), Err(SESSION_CLOSED_DURING_LOAD.to_string()));
}

#[test]
fn reopening_a_live_session_reuses_it() {
    let mut pending = None;
    let mut session = Some(SessionRecord { ref_count: 1, thread_alive: true });
    assert!(matches!(open_session_step(&mut pending, &mut session, &[], true), OpenSessionStep::ReuseThread));
    assert_eq!(session, Some(SessionRecord { ref_count: 2, thread_alive: true }));
    assert_eq!(pending, None);
    let mut dead = Some(SessionRecord { ref_count: 1, thread_alive: false });
    match open_session_step(&mut pending, &mut dead, &[], true) {
        OpenSessionStep::Fail(e) => assert_eq!(e, EMPTY_WORK_DIRS_MESSAGE),
        _ => panic!("no directories to load in"),
    }
    assert_eq!(pending, None);
}

#[test]
fn notifications_plan_terminal_events() {
    let plan = plan_session_notification(&SessionUpdateKind::CurrentModeUpdate("code".to_string()));
    assert_eq!(plan.mode_update, Some("code".to_string()));
    let plan = plan_session_notification(&SessionUpdateKind::ConfigOptionUpdate);
    assert!(plan.config_options_replaced && !plan.session_info_forwarded);
    let plan = plan_session_notification(&SessionUpdateKind::ToolCall {
        title: "npm test".to_string(),
        terminal_info: Some(TerminalInfoMeta { terminal_id: Some("t1".to_string()), cwd: Some("/w".to_string()) }),
    });
    match plan.created {
        Some(TerminalEvent::Created { terminal_id, label, cwd }) => {
            assert_eq!(terminal_id, "t1");
            assert_eq!(label, "npm test");
            assert_eq!(cwd, Some("/w".to_string()));
        }
        _ => panic!("expected a created terminal"),
    }
    let plan = plan_session_notification(&SessionUpdateKind::ToolCallUpdate {
        terminal_output: Some(TerminalOutputMeta { terminal_id: Some("t1".to_string()), data: Some("ok ✓".to_string()) }),
        terminal_exit: Some(TerminalExitMeta {
            terminal_id: Some("t1".to_string()),
            exit_code: Some(0x1_0000_0002),
            signal: None,
        }),
    });
    match plan.output {
        Some(TerminalEvent::Output { terminal_id, data }) => {
            assert_eq!(terminal_id, "t1");
            assert_eq!(data, "ok ✓".as_bytes().to_vec());
        }
        _ => panic!("expected output"),
    }
    match plan.exit {
        Some(TerminalEvent::Exit { exit_code, signal, .. }) => {
            assert_eq!(exit_code, Some(2));
            assert_eq!(signal, None);
        }
        _ => panic!("expected an exit"),
    }
    let plan = plan_session_notification(&SessionUpdateKind::ToolCallUpdate {
        terminal_output: Some(TerminalOutputMeta { terminal_id: None, data: Some("x".to_string()) }),
        terminal_exit: None,
    });
    assert!(plan.output.is_none() && plan.exit.is_none());
    let plan = plan_session_notification(&SessionUpdateKind::Other);
    assert!(plan.created.is_none() && plan.mode_update.is_none());
}

#[test]
fn terminal_labels_and_ids() {
    assert_eq!(terminal_label("cargo", &strings(&["test", "--all"])), "cargo test --all");
    assert_eq!(terminal_label("ls", &[]), "ls ");
    let id = new_terminal_id();
    assert_eq!(id.len(), 36);
    assert_eq!(id.chars().nth(14), Some('4'));
    assert_ne!(id, new_terminal_id());
}

#[test]
fn listed_sessions() {
    let info = session_info_from_listing(ListedSession {
        session_id: "s".to_string(),
        cwd: "/a".to_string(),
        additional_directories: strings(&["/a", "/b"]),
        title: Some("Fix bug".to_string()),
        updated_at: Some("2024-01-02T03:04:05Z".to_string()),
    });
    assert_eq!(info.work_dirs, strings(&["/a", "/b"]));
    assert_eq!(info.updated_at, Some(Timestamp { seconds: 1_704_164_645, nanos: 0 }));
    let info = session_info_from_listing(ListedSession {
        session_id: "s".to_string(),
        cwd: "/a".to_string(),
        additional_directories: vec![],
        title: None,
        updated_at: Some("yesterday".to_string()),
    });
    assert_eq!(info.updated_at, None);
    let info = session_info_from_listing(ListedSession {
        session_id: "s".to_string(),
        cwd: "/a".to_string(),
        additional_directories: vec![],
        title: None,
        updated_at: Some("2024-01-02T05:04:05.5+02:00".to_string()),
    });
    assert_eq!(info.updated_at, Some(Timestamp { seconds: 1_704_164_645, nanos: 500_000_000 }));
}

#[test]
fn deleting_sessions_needs_support() {
    assert_eq!(check_delete_supported(true), Ok(()));
    assert_eq!(check_delete_supported(false), Err(DELETE_NOT_SUPPORTED.to_string()));
    assert_eq!(unknown_session_message("abc"), "unknown session: abc");
}

#[test]
fn agent_launch() {
    let own = LaunchCommand {
        program: "agent".to_string(),
        args: strings(&["--acp"]),
        env: vec![],
        cwd: None,
    };
    let cmd = launch_command(own, None, Some("/w".to_string()), true);
    assert_eq!(cmd.program, "agent");
    assert_eq!(cmd.cwd, Some("/w".to_string()));
    let own = LaunchCommand { program: "agent".to_string(), args: vec![], env: vec![], cwd: None };
    let cmd = launch_command(
        own,
        Some(("ssh".to_string(), strings(&["host", "agent"]), vec![("A".to_string(), "1".to_string())])),
        Some("/w".to_string()),
        false,
    );
    assert_eq!(cmd.program, "ssh");
    assert_eq!(cmd.args, strings(&["host", "agent"]));
    assert_eq!(cmd.cwd, None);
}

#[test]
fn error_output_lines() {
    assert_eq!(trim_line_ending("oops\r\n"), "oops");
    assert_eq!(trim_line_ending("oops\n\n"), "oops");
    assert_eq!(trim_line_ending("a\nb"), "a\nb");
    assert_eq!(trim_line_ending(""), "");
}

#[test]
fn initialize_answers() {
    match connection_profile("gemini", None, 1, 1, true, false) {
        Ok(p) => {
            assert_eq!(p.telemetry_id, "gemini");
            assert_eq!(p.agent_version, None);
            assert!(p.has_session_list && !p.supports_delete);
        }
        Err(_) => panic!("supported version"),
    }
    let info = AgentInfo { name: "Gemini CLI".to_string(), version: "1.2".to_string() };
    let p = connection_profile("gemini", Some(info), 2, 1, false, true).ok().unwrap();
    assert_eq!(p.telemetry_id, "Gemini CLI");
    assert_eq!(p.agent_version, Some("1.2".to_string()));
    let info = AgentInfo { name: "x".to_string(), version: String::new() };
    assert_eq!(connection_profile("a", Some(info), 2, 1, false, false).ok().unwrap().agent_version, None);
    assert!(matches!(connection_profile("a", None, 0, 1, false, false), Err(UnsupportedVersion)));
}

#[test]
fn login_commands() {
    assert_eq!(
        login_args(&strings(&["--experimental-acp", "-m", "--acp", "x"])),
        strings(&["-m", "x"])
    );
    let task = terminal_auth_task("gemini", "login", "Login".to_string(), "/bin/gemini".to_string(), strings(&["-m"]), None);
    assert_eq!(task.id, "external-agent-gemini-login-login");
    assert!(task.env.is_empty());
    let meta = MetaTerminalAuth {
        label: "gemini /auth".to_string(),
        command: "gemini".to_string(),
        args: vec![],
        env: vec![("K".to_string(), "V".to_string())],
    };
    let task = meta_terminal_auth_task("g", "m", Some(meta)).unwrap();
    assert_eq!(task.label, "gemini /auth");
    assert_eq!(task.id, "external-agent-g-m-login");
    assert!(meta_terminal_auth_task("g", "m", None).is_none());
}

#[test]
fn capabilities_offer_model_picker_to_named_agent_only() {
    let c = client_capabilities_for_agent("cursor", "cursor", false);
    assert!(c.meta_model_picker);
    assert!(!c.boolean_config_options);
    assert!(c.read_text_file && c.write_text_file && c.terminal && c.terminal_auth);
    assert!(c.meta_terminal_output && c.meta_terminal_auth);
    let d = client_capabilities_for_agent("other", "cursor", true);
    assert!(!d.meta_model_picker);
    assert!(d.boolean_config_options);
}
