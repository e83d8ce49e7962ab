//! Starting an agent server over stdio: the command that runs it, the lines
//! of its error output, what its answer to `initialize` makes of the
//! connection, and the login arguments of an agent whose login is built in.
use vstd::prelude::*;

use crate::acp::terminal_auth_task_id;
use crate::text::{chars_of, str_equal, string_from_chars};

verus! {

/// A program to run, with its arguments, environment and directory.
pub struct LaunchCommand {
    pub program: String,
    pub args: Vec<String>,
    pub env: Vec<(String, String)>,
    pub cwd: Option<String>,
}

/// The command that starts the agent: the remote client's template for it
/// when the project is remote and the template could be built, else the
/// agent's own command; it runs in the project's first directory only when
/// the project is local.
pub fn launch_command(
    command: LaunchCommand,
    remote_template: Option<(String, Vec<String>, Vec<(String, String)>)>,
    root_dir: Option<String>,
    is_local: bool,
) -> (r: LaunchCommand)
    ensures
        match remote_template {
            Some((program, args, env)) => r.program == program && r.args == args && r.env == env,
            None => r.program == command.program && r.args == command.args && r.env
                == command.env,
        },
        r.cwd == if is_local {
            root_dir
        } else {
            None
        },
{
    let (program, args, env) = match remote_template {
        Some(t) => t,
        None => (command.program, command.args, command.env),
    };
    LaunchCommand { program, args, env, cwd: if is_local { root_dir } else { None } }
}

/// `s` without the line-ending characters (`\n`, `\r`) at its end.
pub open spec fn without_line_ending(s: Seq<char>) -> Seq<char>
    decreases s.len(),
{
    if s.len() > 0 && (s.last() == '\n' || s.last() == '\r') {
        without_line_ending(s.drop_last())
    } else {
        s
    }
}

/// A line of the agent's error output as it is logged: without the
/// line-ending characters at its end.
pub fn trim_line_ending(line: &str) -> (r: String)
    ensures
        r@ == without_line_ending(line@),
{
    let chars = chars_of(line);
    let mut n: usize = chars.len();
    proof {
        assert(chars@.take(n as int) =~= chars@);
    }
    while n > 0 && (chars[n - 1] == '\n' || chars[n - 1] == '\r')
        invariant
            n <= chars@.len(),
            without_line_ending(chars@) == without_line_ending(chars@.take(n as int)),
        decreases n,
    {
        proof {
            assert(chars@.take(n as int).drop_last() =~= chars@.take(n - 1));
        }
        n = n - 1;
    }
    let mut out: Vec<char> = Vec::new();
    let mut i: usize = 0;
    while i < n
        invariant
            n <= chars@.len(),
            i <= n,
            out@ == chars@.take(i as int),
        decreases n - i,
    {
        out.push(chars[i]);
        proof {
            assert(chars@.take(i + 1) =~= chars@.take(i as int).push(chars@[i as int]));
        }
        i = i + 1;
    }
    proof {
        let t = chars@.take(n as int);
        assert(!(t.len() > 0 && (t.last() == '\n' || t.last() == '\r')));
        assert(without_line_ending(t) == t);
    }
    string_from_chars(out.as_slice())
}

/// What the agent says of itself in its answer to `initialize`.
pub struct AgentInfo {
    pub name: String,
    pub version: String,
}

/// What the connection keeps of the agent's answer.
pub struct ConnectionProfile {
    /// The name the agent is known by in telemetry: its own name when it
    /// gives one, else its id.
    pub telemetry_id: String,
    /// The agent's version, when it gives a non-empty one.
    pub agent_version: Option<String>,
    /// The agent lists sessions (the connection keeps a session list).
    pub has_session_list: bool,
    /// The agent deletes sessions.
    pub supports_delete: bool,
}

/// The refusal of an agent that speaks too old a protocol.
#[derive(Clone, Copy, Debug, PartialEq, Eq, Structural)]
pub struct UnsupportedVersion;

/// The connection's profile of the agent, from its id and its answer to
/// `initialize`; an agent whose protocol version is below the minimum is
/// refused.
pub fn connection_profile(
    agent_id: &str,
    agent_info: Option<AgentInfo>,
    protocol_version: u16,
    minimum_version: u16,
    lists_sessions: bool,
    deletes_sessions: bool,
) -> (r: Result<ConnectionProfile, UnsupportedVersion>)
    ensures
        protocol_version < minimum_version <==> r is Err,
        r matches Ok(p) ==> {
            &&& p.telemetry_id@ == match agent_info {
                Some(i) => i.name@,
                None => agent_id@,
            }
            &&& p.agent_version matches Some(v) ==> (agent_info matches Some(i) && v@ == i.version@
                && i.version@.len() > 0)
            &&& p.agent_version is None ==> (agent_info matches Some(i) ==> i.version@.len() == 0)
            &&& p.has_session_list == lists_sessions
            &&& p.supports_delete == deletes_sessions
        },
{
    if protocol_version < minimum_version {
        return Err(UnsupportedVersion);
    }
    let (telemetry_id, agent_version) = match agent_info {
        Some(info) => {
            let version = if info.version.as_str().unicode_len() == 0 {
                None
            } else {
                Some(info.version)
            };
            (info.name, version)
        },
        None => (String::from_str(agent_id), None),
    };
    Ok(
        ConnectionProfile {
            telemetry_id,
            agent_version,
            has_session_list: lists_sessions,
            supports_delete: deletes_sessions,
        },
    )
}

/// The flags that put the agent in protocol mode: they are dropped from the
/// arguments of its login command.
pub open spec fn is_protocol_flag(arg: Seq<char>) -> bool {
    arg == "--experimental-acp"@ || arg == "--acp"@
}

/// `args` without the protocol flags, in order.
pub open spec fn without_protocol_flags(args: Seq<Seq<char>>) -> Seq<Seq<char>>
    decreases args.len(),
{
    if args.len() == 0 {
        Seq::empty()
    } else {
        let init = without_protocol_flags(args.drop_last());
        if is_protocol_flag(args.last()) {
            init
        } else {
            init.push(args.last())
        }
    }
}

/// The arguments of the login command of an agent whose login the client
/// builds itself: the agent's arguments without the protocol flags.
pub fn login_args(args: &[String]) -> (r: Vec<String>)
    ensures
        r.deep_view() == without_protocol_flags(args.deep_view()),
{
    let mut out: Vec<String> = Vec::new();
    let mut i: usize = 0;
    proof {
        assert(args.deep_view().take(0) =~= Seq::<Seq<char>>::empty());
        assert(out.deep_view() =~= Seq::<Seq<char>>::empty());
    }
    while i < args.len()
        invariant
            i <= args@.len(),
            out.deep_view() == without_protocol_flags(args.deep_view().take(i as int)),
        decreases args@.len() - i,
    {
        let a = args[i].as_str();
        proof {
            let t = args.deep_view().take(i + 1);
            assert(t.drop_last() =~= args.deep_view().take(i as int));
            assert(t.last() == a@);
        }
        if !(str_equal(a, "--experimental-acp") || str_equal(a, "--acp")) {
            let ghost before = out.deep_view();
            out.push(args[i].clone());
            proof {
                assert(out.deep_view() =~= before.push(a@));
            }
        }
        i = i + 1;
    }
    proof {
        assert(args.deep_view().take(args@.len() as int) =~= args.deep_view());
    }
    out
}

/// A terminal task that logs in to an agent.
pub struct TerminalAuthTask {
    /// `external-agent-{agent}-{method}-login`.
    pub id: String,
    pub label: String,
    pub command: String,
    pub args: Vec<String>,
    pub env: Vec<(String, String)>,
}

/// The login task of a terminal auth method: the agent's own command, with
/// its environment (none when it has none), labelled by the method.
pub fn terminal_auth_task(
    agent_id: &str,
    method_id: &str,
    method_name: String,
    command_path: String,
    command_args: Vec<String>,
    command_env: Option<Vec<(String, String)>>,
) -> (r: TerminalAuthTask)
    ensures
        r.id@ == "external-agent-"@ + agent_id@ + seq!['-'] + method_id@ + "-login"@,
        r.label == method_name,
        r.command == command_path,
        r.args == command_args,
        match command_env {
            Some(e) => r.env == e,
            None => r.env@.len() == 0,
        },
{
    let env = match command_env {
        Some(e) => e,
        None => Vec::new(),
    };
    TerminalAuthTask {
        id: terminal_auth_task_id(agent_id, method_id),
        label: method_name,
        command: command_path,
        args: command_args,
        env,
    }
}

/// The login command that an auth method describes in its `terminal-auth`
/// meta (as parsed from it).
pub struct MetaTerminalAuth {
    pub label: String,
    pub command: String,
    pub args: Vec<String>,
    pub env: Vec<(String, String)>,
}

/// The login task described in an auth method's meta, if it describes one.
pub fn meta_terminal_auth_task(agent_id: &str, method_id: &str, meta: Option<MetaTerminalAuth>) -> (r:
    Option<TerminalAuthTask>)
    ensures
        meta is None <==> r is None,
        r matches Some(t) ==> meta matches Some(m) && t.id@ == "external-agent-"@ + agent_id@
            + seq!['-'] + method_id@ + "-login"@ && t.label == m.label && t.command == m.command
            && t.args == m.args && t.env == m.env,
{
    match meta {
        Some(m) => Some(
            TerminalAuthTask {
                id: terminal_auth_task_id(agent_id, method_id),
                label: m.label,
                command: m.command,
                args: m.args,
                env: m.env,
            },
        ),
        None => None,
    }
}

/// What the client tells an agent it can do.
#[derive(Clone, Copy, Debug, PartialEq, Eq, Structural)]
pub struct ClientCapabilities {
    pub read_text_file: bool,
    pub write_text_file: bool,
    pub terminal: bool,
    pub terminal_auth: bool,
    /// The `terminal_output` entry of the meta map.
    pub meta_terminal_output: bool,
    /// The `terminal-auth` entry of the meta map.
    pub meta_terminal_auth: bool,
    /// The model-picker entry of the meta map, offered to one agent only.
    pub meta_model_picker: bool,
    /// Whether boolean session config options are announced.
    pub boolean_config_options: bool,
}

/// The capabilities announced to an agent: files, terminals and terminal
/// login always; the model picker where the agent is the one named by
/// `model_picker_agent`; boolean config options where they are supported.
pub fn client_capabilities_for_agent(
    agent_id: &str,
    model_picker_agent: &str,
    supports_boolean_config_options: bool,
) -> (r: ClientCapabilities)
    ensures
        r == (ClientCapabilities {
            read_text_file: true,
            write_text_file: true,
            terminal: true,
            terminal_auth: true,
            meta_terminal_output: true,
            meta_terminal_auth: true,
            meta_model_picker: agent_id@ == model_picker_agent@,
            boolean_config_options: supports_boolean_config_options,
        }),
{
    ClientCapabilities {
        read_text_file: true,
        write_text_file: true,
        terminal: true,
        terminal_auth: true,
        meta_terminal_output: true,
        meta_terminal_auth: true,
        meta_model_picker: str_equal(agent_id, model_picker_agent),
        boolean_config_options: supports_boolean_config_options,
    }
}

} // verus!
