//! Decisions of the connection to an external agent: the directories a
//! session works in, default values of session options, optimistic mode
//! changes, and which context servers the agent is told about.
use vstd::prelude::*;

use crate::text::{append_chars, chars_of, str_equal, string_from_chars};

verus! {

/// The working directory of a session and the further directories it may use.
pub struct SessionDirectories {
    pub cwd: String,
    pub additional_directories: Vec<String>,
}

pub const EMPTY_WORK_DIRS_MESSAGE: &'static str = "Working directory cannot be empty";

/// The directories of a new session: the first work directory is the
/// working directory; the others are passed on only when the agent supports
/// additional directories. No work directory is an error.
pub fn session_directories_from_work_dirs(
    work_dirs: &[String],
    supports_additional_directories: bool,
) -> (r: Result<SessionDirectories, String>)
    ensures
        work_dirs@.len() == 0 <==> r is Err,
        r matches Err(e) ==> e@ == EMPTY_WORK_DIRS_MESSAGE@,
        r matches Ok(d) ==> {
            &&& d.cwd@ == work_dirs@[0]@
            &&& d.additional_directories.deep_view() == if supports_additional_directories {
                work_dirs.deep_view().skip(1)
            } else {
                Seq::<Seq<char>>::empty()
            }
        },
{
    if work_dirs.len() == 0 {
        return Err(String::from_str(EMPTY_WORK_DIRS_MESSAGE));
    }
    let cwd = work_dirs[0].clone();
    let mut additional: Vec<String> = Vec::new();
    if supports_additional_directories {
        let mut i: usize = 1;
        proof {
            assert(work_dirs.deep_view().subrange(1, 1) =~= Seq::<Seq<char>>::empty());
            assert(additional.deep_view() =~= Seq::<Seq<char>>::empty());
        }
        while i < work_dirs.len()
            invariant
                1 <= i <= work_dirs@.len(),
                additional.deep_view() == work_dirs.deep_view().subrange(1, i as int),
            decreases work_dirs@.len() - i,
        {
            let ghost before = additional.deep_view();
            let d = work_dirs[i].clone();
            additional.push(d);
            proof {
                assert(work_dirs.deep_view()[i as int] == work_dirs@[i as int]@);
                assert(additional.deep_view() =~= before.push(work_dirs@[i as int]@));
                assert(additional.deep_view() =~= work_dirs.deep_view().subrange(1, i + 1));
            }
            i = i + 1;
        }
        proof {
            assert(work_dirs.deep_view().subrange(1, work_dirs@.len() as int) =~= work_dirs.deep_view().skip(1));
        }
    } else {
        proof {
            assert(additional.deep_view() =~= Seq::<Seq<char>>::empty());
        }
    }
    Ok(SessionDirectories { cwd, additional_directories: additional })
}

/// `dirs` without repeats, each kept where it first occurs.
pub open spec fn without_repeats(dirs: Seq<Seq<char>>) -> Seq<Seq<char>>
    decreases dirs.len(),
{
    if dirs.len() == 0 {
        Seq::empty()
    } else {
        let init = without_repeats(dirs.drop_last());
        if init.contains(dirs.last()) {
            init
        } else {
            init.push(dirs.last())
        }
    }
}

fn contains_path(v: &Vec<String>, p: &str) -> (r: bool)
    ensures
        r == v.deep_view().contains(p@),
{
    let mut i: usize = 0;
    while i < v.len()
        invariant
            i <= v@.len(),
            forall|j: int| 0 <= j < i ==> v@[j]@ != p@,
        decreases v@.len() - i,
    {
        if str_equal(v[i].as_str(), p) {
            proof {
                assert(v.deep_view()[i as int] == p@);
            }
            return true;
        }
        i = i + 1;
    }
    proof {
        if v.deep_view().contains(p@) {
            let j = choose|j: int| 0 <= j < v.deep_view().len() && v.deep_view()[j] == p@;
            assert(v@[j]@ == p@);
        }
    }
    false
}

/// The work directories of a listed session: its working directory first,
/// then each further directory that did not come before.
pub fn work_dirs_from_session_info(cwd: String, additional_directories: Vec<String>) -> (r: Vec<
    String,
>)
    ensures
        r.deep_view() == without_repeats(seq![cwd@] + additional_directories.deep_view()),
{
    let ghost all = seq![cwd@] + additional_directories.deep_view();
    let mut paths: Vec<String> = Vec::new();
    paths.push(cwd);
    proof {
        let t = all.take(1);
        assert(t.drop_last() =~= Seq::<Seq<char>>::empty());
        assert(t.last() == all[0]);
        assert(all[0] == paths@[0]@);
        assert(without_repeats(t.drop_last()) =~= Seq::<Seq<char>>::empty());
        assert(without_repeats(t) =~= seq![all[0]]);
        assert(paths.deep_view() =~= seq![all[0]]);
    }
    let mut i: usize = 0;
    while i < additional_directories.len()
        invariant
            i <= additional_directories@.len(),
            all == seq![all[0]] + additional_directories.deep_view(),
            all.len() == additional_directories@.len() + 1,
            paths.deep_view() == without_repeats(all.take(i + 1)),
        decreases additional_directories@.len() - i,
    {
        let p = &additional_directories[i];
        proof {
            let t = all.take(i + 2);
            assert(t.drop_last() =~= all.take(i + 1));
            assert(t.last() == all[i + 1]);
            assert(all[i + 1] == additional_directories.deep_view()[i as int]);
            assert(additional_directories.deep_view()[i as int] == p@);
        }
        if !contains_path(&paths, p.as_str()) {
            let ghost before = paths.deep_view();
            paths.push(p.clone());
            proof {
                assert(paths.deep_view() =~= before.push(p@));
            }
        }
        i = i + 1;
    }
    proof {
        assert(all.take(additional_directories@.len() as int + 1) =~= all);
    }
    paths
}

/// The id of the terminal task that logs in to an agent:
/// `external-agent-{agent}-{method}-login`.
pub fn terminal_auth_task_id(agent_id: &str, method_id: &str) -> (r: String)
    ensures
        r@ == "external-agent-"@ + agent_id@ + seq!['-'] + method_id@ + "-login"@,
{
    let mut v = chars_of("external-agent-");
    append_chars(&mut v, &chars_of(agent_id));
    v.push('-');
    append_chars(&mut v, &chars_of(method_id));
    append_chars(&mut v, &chars_of("-login"));
    string_from_chars(v.as_slice())
}

/// The session's modes and options as the agent reported them: options,
/// when given, take the place of modes.
pub fn config_state<M, C>(modes: Option<M>, config_options: Option<C>) -> (r: (Option<M>, Option<
    C,
>))
    ensures
        config_options is Some ==> r.0 is None && r.1 == config_options,
        config_options is None ==> r.0 == modes && r.1 is None,
{
    match config_options {
        Some(opts) => (None, Some(opts)),
        None => (modes, None),
    }
}

/// The choices of a select option.
pub enum SelectOptions {
    Ungrouped(Vec<String>),
    Grouped(Vec<Vec<String>>),
}

/// The kind of a session option and its current value.
#[allow(inconsistent_fields)]
pub enum SessionConfigKind {
    Select { current_value: String, options: SelectOptions },
    Boolean { current_value: bool },
    Other,
}

pub struct SessionConfigOption {
    pub id: String,
    pub kind: SessionConfigKind,
}

/// A default value from the settings.
pub enum DefaultValue {
    ValueId(String),
    Bool(bool),
}

/// A value to set an option to.
#[derive(PartialEq, Eq)]
pub enum SessionConfigOptionValue {
    ValueId(String),
    Boolean(bool),
}

/// Whether `value` is one of the select's choices.
pub open spec fn select_offers(options: SelectOptions, value: Seq<char>) -> bool {
    match options {
        SelectOptions::Ungrouped(opts) => list_offers(opts@, value),
        SelectOptions::Grouped(groups) => groups_offer(groups@, value),
    }
}

/// Whether `value` is among the choices.
pub open spec fn list_offers(opts: Seq<String>, value: Seq<char>) -> bool {
    exists|i: int| 0 <= i < opts.len() && opts[i]@ == value
}

/// Whether `value` is among the choices of some group.
pub open spec fn groups_offer(groups: Seq<Vec<String>>, value: Seq<char>) -> bool {
    exists|g: int| 0 <= g < groups.len() && list_offers(#[trigger] groups[g]@, value)
}

/// The default to apply to an option and the value to go back to should
/// setting it fail: a select takes a listed value id, a boolean takes a
/// boolean default only when boolean defaults are on; anything else is left
/// alone.
pub open spec fn default_to_apply(
    option: SessionConfigOption,
    default: Option<DefaultValue>,
    apply_boolean_defaults: bool,
) -> Option<(SessionConfigOptionValue, SessionConfigOptionValue)> {
    match (default, option.kind) {
        (Some(DefaultValue::ValueId(v)), SessionConfigKind::Select { current_value, options }) => {
            if select_offers(options, v@) {
                Some(
                    (
                        SessionConfigOptionValue::ValueId(v),
                        SessionConfigOptionValue::ValueId(current_value),
                    ),
                )
            } else {
                None
            }
        },
        (Some(DefaultValue::Bool(b)), SessionConfigKind::Boolean { current_value }) => {
            if apply_boolean_defaults {
                Some(
                    (
                        SessionConfigOptionValue::Boolean(b),
                        SessionConfigOptionValue::Boolean(current_value),
                    ),
                )
            } else {
                None
            }
        },
        _ => None,
    }
}

fn strings_contain(v: &Vec<String>, s: &str) -> (r: bool)
    ensures
        r == exists|i: int| 0 <= i < v@.len() && v@[i]@ == s@,
{
    let mut i: usize = 0;
    while i < v.len()
        invariant
            i <= v@.len(),
            forall|j: int| 0 <= j < i ==> v@[j]@ != s@,
        decreases v@.len() - i,
    {
        if str_equal(v[i].as_str(), s) {
            return true;
        }
        i = i + 1;
    }
    false
}

fn select_contains(options: &SelectOptions, value: &str) -> (r: bool)
    ensures
        r == select_offers(*options, value@),
{
    match options {
        SelectOptions::Ungrouped(opts) => strings_contain(opts, value),
        SelectOptions::Grouped(groups) => {
            let mut g: usize = 0;
            while g < groups.len()
                invariant
                    g <= groups@.len(),
                    *options == SelectOptions::Grouped(*groups),
                    forall|gg: int| 0 <= gg < g ==> !list_offers(#[trigger] groups@[gg]@, value@),
                decreases groups@.len() - g,
            {
                if strings_contain(&groups[g], value) {
                    proof {
                        assert(list_offers(groups@[g as int]@, value@));
                        assert(groups_offer(groups@, value@));
                    }
                    return true;
                }
                g = g + 1;
            }
            false
        },
    }
}

/// The default value to apply to an option, with the value to restore.
pub fn default_config_to_apply(
    option: &SessionConfigOption,
    default: Option<&DefaultValue>,
    apply_boolean_defaults: bool,
) -> (r: Option<(SessionConfigOptionValue, SessionConfigOptionValue)>)
    ensures
        r == default_to_apply(
            *option,
            match default {
                Some(d) => Some(*d),
                None => None,
            },
            apply_boolean_defaults,
        ),
{
    match (default, &option.kind) {
        (Some(DefaultValue::ValueId(v)), SessionConfigKind::Select { current_value, options }) => {
            if select_contains(options, v.as_str()) {
                Some(
                    (
                        SessionConfigOptionValue::ValueId(v.clone()),
                        SessionConfigOptionValue::ValueId(current_value.clone()),
                    ),
                )
            } else {
                None
            }
        },
        (Some(DefaultValue::Bool(b)), SessionConfigKind::Boolean { current_value }) => {
            if apply_boolean_defaults {
                Some(
                    (
                        SessionConfigOptionValue::Boolean(*b),
                        SessionConfigOptionValue::Boolean(*current_value),
                    ),
                )
            } else {
                None
            }
        },
        _ => None,
    }
}

/// The option after setting `value`: a value id sets a select, a boolean
/// sets a boolean option, any other pairing leaves it as it was.
pub open spec fn with_value(option: SessionConfigOption, value: SessionConfigOptionValue) -> SessionConfigOption {
    match (option.kind, value) {
        (SessionConfigKind::Select { options, .. }, SessionConfigOptionValue::ValueId(v)) => SessionConfigOption {
            id: option.id,
            kind: SessionConfigKind::Select { current_value: v, options },
        },
        (SessionConfigKind::Boolean { .. }, SessionConfigOptionValue::Boolean(b)) => SessionConfigOption {
            id: option.id,
            kind: SessionConfigKind::Boolean { current_value: b },
        },
        _ => option,
    }
}

/// Sets the current value of an option, when the value fits its kind.
pub fn apply_config_value(option: SessionConfigOption, value: &SessionConfigOptionValue) -> (r:
    SessionConfigOption)
    ensures
        r == with_value(option, *value),
{
    let SessionConfigOption { id, kind } = option;
    match (kind, value) {
        (SessionConfigKind::Select { current_value, options }, SessionConfigOptionValue::ValueId(
            v,
        )) => SessionConfigOption {
            id,
            kind: SessionConfigKind::Select { current_value: v.clone(), options },
        },
        (SessionConfigKind::Boolean { current_value }, SessionConfigOptionValue::Boolean(b)) => {
            SessionConfigOption { id, kind: SessionConfigKind::Boolean { current_value: *b } }
        },
        (kind, _) => SessionConfigOption { id, kind },
    }
}

/// The position of the first option with this id.
pub open spec fn first_option_with_id(options: Seq<SessionConfigOption>, id: Seq<char>, i: int) -> bool {
    &&& 0 <= i < options.len()
    &&& options[i].id@ == id
    &&& forall|j: int| 0 <= j < i ==> options[j].id@ != id
}

/// Sets the value of the first option with this id (when the value fits
/// its kind); without such an option nothing changes.
pub fn set_option_value(options: &mut Vec<SessionConfigOption>, id: &str, value: &SessionConfigOptionValue)
    ensures
        (exists|i: int| first_option_with_id(old(options)@, id@, i)) ==> {
            let i = choose|i: int| first_option_with_id(old(options)@, id@, i);
            final(options)@ == old(options)@.update(i, with_value(old(options)@[i], *value))
        },
        !(exists|i: int| first_option_with_id(old(options)@, id@, i)) ==> final(options)@ == old(
            options,
        )@,
{
    let mut i: usize = 0;
    while i < options.len()
        invariant
            i <= options@.len(),
            options@ == old(options)@,
            forall|j: int| 0 <= j < i ==> options@[j].id@ != id@,
        decreases options@.len() - i,
    {
        if str_equal(options[i].id.as_str(), id) {
            proof {
                assert(first_option_with_id(old(options)@, id@, i as int));
                let c = choose|k: int| first_option_with_id(old(options)@, id@, k);
                if c < i {
                    assert(options@[c].id@ != id@);
                } else if c > i {
                    assert(old(options)@[i as int].id@ == id@);
                }
            }
            let option = options.remove(i);
            let updated = apply_config_value(option, value);
            options.insert(i, updated);
            proof {
                assert(options@ =~= old(options)@.update(
                    i as int,
                    with_value(old(options)@[i as int], *value),
                ));
            }
            return;
        }
        i = i + 1;
    }
    proof {
        assert(!exists|k: int| first_option_with_id(old(options)@, id@, k)) by {
            if exists|k: int| first_option_with_id(old(options)@, id@, k) {
                let k = choose|k: int| first_option_with_id(old(options)@, id@, k);
                assert(old(options)@[k].id@ == id@);
            }
        }
    }
}

/// Setting a default and then, after a failed request, the value to restore
/// gives back the option as it was.
pub proof fn lemma_default_then_restore(
    option: SessionConfigOption,
    default: Option<DefaultValue>,
    apply_boolean_defaults: bool,
)
    requires
        default_to_apply(option, default, apply_boolean_defaults) is Some,
    ensures
        ({
            let (apply, initial) = default_to_apply(option, default, apply_boolean_defaults)->Some_0;
            with_value(with_value(option, apply), initial) == option
        }),
{
}

/// A default that is applied is the default itself, and the value kept
/// for restoring is the option's current value: a listed value id applies
/// to a select, a boolean default to a boolean option while boolean
/// defaults are on; the option then holds the default as its current value.
pub proof fn lemma_applied_default_is_the_default(
    option: SessionConfigOption,
    default: Option<DefaultValue>,
    apply_boolean_defaults: bool,
)
    ensures
        ({
            let r = default_to_apply(option, default, apply_boolean_defaults);
            match default {
                Some(DefaultValue::Bool(b)) => {
                    &&& (r matches Some((apply, restore)) ==> {
                        &&& apply == SessionConfigOptionValue::Boolean(b)
                        &&& option.kind matches SessionConfigKind::Boolean { current_value }
                            && restore == SessionConfigOptionValue::Boolean(current_value)
                        &&& with_value(option, apply).kind == SessionConfigKind::Boolean {
                            current_value: b,
                        }
                    })
                    &&& (option.kind is Boolean ==> (r is Some <==> apply_boolean_defaults))
                    &&& (!(option.kind is Boolean) ==> r is None)
                },
                Some(DefaultValue::ValueId(v)) => {
                    &&& (r matches Some((apply, restore)) ==> {
                        &&& apply == SessionConfigOptionValue::ValueId(v)
                        &&& option.kind matches SessionConfigKind::Select { current_value, options }
                            && restore == SessionConfigOptionValue::ValueId(current_value)
                            && with_value(option, apply).kind == SessionConfigKind::Select {
                            current_value: v,
                            options,
                        }
                    })
                    &&& (option.kind matches SessionConfigKind::Select { options, .. } ==> (r is Some
                        <==> select_offers(options, v@)))
                    &&& (!(option.kind is Select) ==> r is None)
                },
                None => r is None,
            }
        }),
{
}

/// The mode state of a session.
pub struct SessionModeState {
    pub current_mode_id: String,
    pub available_modes: Vec<String>,
}

impl SessionModeState {
    /// Switches to `mode_id` before the agent confirms; returns the mode to go
    /// back to.
    pub fn begin_set_mode(&mut self, mode_id: String) -> (r: String)
        ensures
            final(self).current_mode_id == mode_id,
            r == old(self).current_mode_id,
            final(self).available_modes == old(self).available_modes,
    {
        let old_mode_id = self.current_mode_id.clone();
        self.current_mode_id = mode_id;
        old_mode_id
    }

    /// Takes the agent's answer: on failure the previous mode comes back.
    pub fn finish_set_mode(&mut self, previous_mode_id: String, succeeded: bool)
        ensures
            final(self).current_mode_id == if succeeded {
                old(self).current_mode_id
            } else {
                previous_mode_id
            },
            final(self).available_modes == old(self).available_modes,
    {
        if !succeeded {
            self.current_mode_id = previous_mode_id;
        }
    }
}

/// How a context server is configured.
pub enum ContextServerConfiguration {
    /// A server started from a command (configured by hand or by an
    /// extension), with its environment if it sets one.
    Command {
        command: String,
        args: Vec<String>,
        env: Option<Vec<(String, String)>>,
        remote: bool,
    },
    /// A server reached over HTTP, with the headers to send.
    Http { url: String, headers: Vec<(String, String)> },
    Other,
}

/// How the agent reaches a context server.
pub enum McpServer {
    Stdio { name: String, command: String, args: Vec<String>, env: Vec<(String, String)> },
    Http { name: String, url: String, headers: Vec<(String, String)> },
}

/// Whether the agent is told about a server: command servers when the
/// project is local or the server runs remotely, HTTP servers always.
pub open spec fn server_offered(config: ContextServerConfiguration, is_local: bool) -> bool {
    match config {
        ContextServerConfiguration::Command { remote, .. } => is_local || remote,
        ContextServerConfiguration::Http { .. } => true,
        ContextServerConfiguration::Other => false,
    }
}

/// The name-value pairs of an environment or of headers.
pub open spec fn pairs_view(v: Seq<(String, String)>) -> Seq<(Seq<char>, Seq<char>)> {
    Seq::new(v.len(), |i: int| (v[i].0@, v[i].1@))
}

/// The server entry handed to the agent, if the server is offered: a
/// command server with its arguments and environment (none when it sets
/// none), an HTTP server with its headers, both named by the server's id.
pub fn mcp_server_for(id: &str, config: &ContextServerConfiguration, is_local: bool) -> (r: Option<
    McpServer,
>)
    ensures
        r is Some <==> server_offered(*config, is_local),
        match r {
            Some(McpServer::Stdio { name, command, args, env }) => name@ == id@ && match *config {
                ContextServerConfiguration::Command { command: c, args: a, env: e, .. } => command@
                    == c@ && args.deep_view() == a.deep_view() && pairs_view(env@) == match e {
                    Some(e) => pairs_view(e@),
                    None => Seq::empty(),
                },
                _ => false,
            },
            Some(McpServer::Http { name, url, headers }) => name@ == id@ && match *config {
                ContextServerConfiguration::Http { url: u, headers: h } => url@ == u@
                    && pairs_view(headers@) == pairs_view(h@),
                _ => false,
            },
            None => true,
        },
{
    match config {
        ContextServerConfiguration::Command { command, args, env, remote } => {
            if is_local || *remote {
                let env = match env {
                    Some(e) => clone_pairs(e),
                    None => {
                        let empty: Vec<(String, String)> = Vec::new();
                        proof {
                            assert(pairs_view(empty@) =~= Seq::<(Seq<char>, Seq<char>)>::empty());
                        }
                        empty
                    },
                };
                Some(
                    McpServer::Stdio {
                        name: String::from_str(id),
                        command: command.clone(),
                        args: clone_strings(args),
                        env,
                    },
                )
            } else {
                None
            }
        },
        ContextServerConfiguration::Http { url, headers } => Some(
            McpServer::Http {
                name: String::from_str(id),
                url: url.clone(),
                headers: clone_pairs(headers),
            },
        ),
        ContextServerConfiguration::Other => None,
    }
}

fn clone_pairs(v: &Vec<(String, String)>) -> (r: Vec<(String, String)>)
    ensures
        pairs_view(r@) == pairs_view(v@),
{
    let mut out: Vec<(String, String)> = Vec::new();
    let mut i: usize = 0;
    while i < v.len()
        invariant
            i <= v@.len(),
            pairs_view(out@) == pairs_view(v@).take(i as int),
        decreases v@.len() - i,
    {
        let a = v[i].0.clone();
        let b = v[i].1.clone();
        let ghost before = out@;
        out.push((a, b));
        proof {
            assert(pairs_view(out@) =~= pairs_view(before).push((v@[i as int].0@, v@[i as int].1@)));
            assert(pairs_view(out@) =~= pairs_view(v@).take(i + 1));
        }
        i = i + 1;
    }
    proof {
        assert(pairs_view(v@).take(v@.len() as int) =~= pairs_view(v@));
    }
    out
}

fn clone_strings(v: &Vec<String>) -> (r: Vec<String>)
    ensures
        r.deep_view() == v.deep_view(),
{
    let mut out: Vec<String> = Vec::new();
    let mut i: usize = 0;
    while i < v.len()
        invariant
            i <= v@.len(),
            out.deep_view() == v.deep_view().take(i as int),
        decreases v@.len() - i,
    {
        let ghost before = out.deep_view();
        let x = v[i].clone();
        out.push(x);
        proof {
            assert(v.deep_view()[i as int] == v@[i as int]@);
            assert(out.deep_view() =~= before.push(v@[i as int]@));
            assert(out.deep_view() =~= v.deep_view().take(i + 1));
        }
        i = i + 1;
    }
    proof {
        assert(v.deep_view().take(v@.len() as int) =~= v.deep_view());
    }
    out
}

} // verus!
