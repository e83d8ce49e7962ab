//! Sessions of an agent connection: opening a session while loads of it may
//! be in flight, what a session notification asks of the thread and of its
//! terminals, the terminals the agent creates, and the sessions it lists.
use vstd::prelude::*;

use crate::acp::{session_directories_from_work_dirs, without_repeats, work_dirs_from_session_info, SessionDirectories};
use crate::paths::join_with;
use crate::text::{append_chars, chars_of, string_from_chars};

verus! {

/// A load of a session that is in flight, with the number of callers that
/// wait for it.
#[derive(Clone, Copy, Debug, PartialEq, Eq, Structural)]
pub struct PendingSession {
    pub ref_count: usize,
}

/// A session that the connection knows, with the number of its holders and
/// whether its thread is still alive.
#[derive(Clone, Copy, Debug, PartialEq, Eq, Structural)]
pub struct SessionRecord {
    pub ref_count: usize,
    pub thread_alive: bool,
}

/// What opening a session does.
pub enum OpenSessionStep {
    /// A load is in flight: wait for it (its count went up).
    AwaitPending,
    /// The session's thread is alive: hand it back (its count went up).
    ReuseThread,
    /// Load the session in these directories; the load is now in flight.
    Load(SessionDirectories),
    /// The session cannot be loaded: the work directories are empty.
    Fail(String),
}

/// The message of a load whose session was closed while it ran.
pub const SESSION_CLOSED_DURING_LOAD: &'static str = "session was closed before load completed";

/// The pending load after an open: one more waiter on a load in flight; a
/// new load with one waiter when the session has no live thread and its
/// directories are known; else unchanged.
pub open spec fn pending_after_open(
    pending: Option<PendingSession>,
    session: Option<SessionRecord>,
    has_work_dirs: bool,
) -> Option<nat> {
    match pending {
        Some(p) => Some((p.ref_count + 1) as nat),
        None => if (session matches Some(s) && s.thread_alive) || !has_work_dirs {
            None
        } else {
            Some(1)
        },
    }
}

/// Opens a session, given the load of it in flight and the record of it,
/// if any. A load in flight is joined; a live thread is reused; otherwise
/// the session is loaded in the directories derived from `work_dirs` (the
/// first is the working directory), which fails when there are none. Every
/// open that finds the record counts as one more holder.
pub fn open_session_step(
    pending: &mut Option<PendingSession>,
    session: &mut Option<SessionRecord>,
    work_dirs: &[String],
    supports_additional_directories: bool,
) -> (r: OpenSessionStep)
    requires
        *old(pending) matches Some(p) ==> p.ref_count < usize::MAX,
        *old(session) matches Some(s) ==> s.ref_count < usize::MAX,
    ensures
        match *final(pending) {
            Some(p) => pending_after_open(*old(pending), *old(session), work_dirs@.len() > 0)
                == Some(p.ref_count as nat),
            None => pending_after_open(*old(pending), *old(session), work_dirs@.len() > 0) is None,
        },
        *old(pending) is Some ==> r is AwaitPending && *final(session) == *old(session),
        *old(pending) is None ==> match *old(session) {
            Some(s) => *final(session) == Some(
                SessionRecord { ref_count: (s.ref_count + 1) as usize, thread_alive: s.thread_alive },
            ),
            None => *final(session) is None,
        },
        *old(pending) is None && (*old(session) matches Some(s) && s.thread_alive) ==> r is ReuseThread,
        *old(pending) is None && !(*old(session) matches Some(s) && s.thread_alive) ==> {
            match r {
                OpenSessionStep::Load(d) => work_dirs@.len() > 0 && d.cwd@ == work_dirs@[0]@
                    && d.additional_directories.deep_view() == if supports_additional_directories {
                    work_dirs.deep_view().skip(1)
                } else {
                    Seq::<Seq<char>>::empty()
                },
                OpenSessionStep::Fail(e) => work_dirs@.len() == 0 && e@
                    == crate::acp::EMPTY_WORK_DIRS_MESSAGE@,
                _ => false,
            }
        },
{
    match pending {
        Some(p) => {
            p.ref_count = p.ref_count + 1;
            return OpenSessionStep::AwaitPending;
        },
        None => {},
    }
    match session {
        Some(s) => {
            s.ref_count = s.ref_count + 1;
            if s.thread_alive {
                return OpenSessionStep::ReuseThread;
            }
        },
        None => {},
    }
    match session_directories_from_work_dirs(work_dirs, supports_additional_directories) {
        Ok(directories) => {
            *pending = Some(PendingSession { ref_count: 1 });
            OpenSessionStep::Load(directories)
        },
        Err(e) => OpenSessionStep::Fail(e),
    }
}

/// The end of a successful load: the session keeps as many holders as
/// waited for the load (one when its pending entry is gone); a session
/// closed while the load ran fails it.
pub fn finish_session_load(pending: Option<PendingSession>, session_present: bool) -> (r: Result<
    usize,
    String,
>)
    ensures
        session_present ==> r == Ok::<usize, String>(
            match pending {
                Some(p) => p.ref_count,
                None => 1usize,
            },
        ),
        !session_present ==> (r matches Err(e) && e@ == SESSION_CLOSED_DURING_LOAD@),
{
    let ref_count = match pending {
        Some(p) => p.ref_count,
        None => 1,
    };
    if session_present {
        Ok(ref_count)
    } else {
        Err(String::from_str(SESSION_CLOSED_DURING_LOAD))
    }
}

/// The pending count after `k` further opens of a session whose load is in
/// flight with `n` waiters.
pub open spec fn joined(n: nat, k: nat) -> nat
    decreases k,
{
    if k == 0 {
        n
    } else {
        pending_count_after_join(joined(n, (k - 1) as nat))
    }
}

/// The count of a pending load after one more open joins it.
pub open spec fn pending_count_after_join(n: nat) -> nat {
    match pending_after_open(Some(PendingSession { ref_count: n as usize }), None, true) {
        Some(c) => c,
        None => 0,
    }
}

/// Every open that joins a load in flight is counted: a load started by
/// one open and joined by `k` more finishes with `k + 1` holders.
pub proof fn lemma_every_open_is_counted(k: nat)
    requires
        k + 1 <= usize::MAX,
    ensures
        joined(1, k) == k + 1,
    decreases k,
{
    if k > 0 {
        lemma_every_open_is_counted((k - 1) as nat);
    }
}

/// The terminal that a tool call announces in its `terminal_info` meta.
pub struct TerminalInfoMeta {
    pub terminal_id: Option<String>,
    pub cwd: Option<String>,
}

/// Output that a tool call update carries in its `terminal_output` meta.
pub struct TerminalOutputMeta {
    pub terminal_id: Option<String>,
    pub data: Option<String>,
}

/// The exit that a tool call update reports in its `terminal_exit` meta.
pub struct TerminalExitMeta {
    pub terminal_id: Option<String>,
    pub exit_code: Option<u64>,
    pub signal: Option<String>,
}

/// What a session notification updates, with the parts of its meta that
/// concern terminals.
pub enum SessionUpdateKind {
    CurrentModeUpdate(String),
    ConfigOptionUpdate,
    SessionInfoUpdate,
    ToolCall { title: String, terminal_info: Option<TerminalInfoMeta> },
    ToolCallUpdate {
        terminal_output: Option<TerminalOutputMeta>,
        terminal_exit: Option<TerminalExitMeta>,
    },
    Other,
}

/// What a terminal of a tool call reports to the thread.
pub enum TerminalEvent {
    /// A display-only terminal to create, labelled by the tool call.
    Created { terminal_id: String, label: String, cwd: Option<String> },
    /// Output of the terminal, as UTF-8 bytes.
    Output { terminal_id: String, data: Vec<u8> },
    /// The terminal exited.
    Exit { terminal_id: String, exit_code: Option<u32>, signal: Option<String> },
}

/// What handling a session notification does, in order: the session's
/// state first, then the terminal created before the update reaches the
/// thread, then the terminal events after it.
pub struct NotificationPlan {
    /// The new current mode of the session.
    pub mode_update: Option<String>,
    /// The session's options were replaced (and their watchers told).
    pub config_options_replaced: bool,
    /// The session list hears of the new session info.
    pub session_info_forwarded: bool,
    /// The terminal to create before the update goes to the thread.
    pub created: Option<TerminalEvent>,
    /// Output of a terminal, after the update went to the thread.
    pub output: Option<TerminalEvent>,
    /// The exit of a terminal, after the output.
    pub exit: Option<TerminalEvent>,
}

pub open spec fn opt_view(s: Option<String>) -> Option<Seq<char>> {
    match s {
        Some(t) => Some(t@),
        None => None,
    }
}

fn clone_opt(s: &Option<String>) -> (r: Option<String>)
    ensures
        opt_view(r) == opt_view(*s),
{
    match s {
        Some(t) => Some(t.clone()),
        None => None,
    }
}

/// The terminal created for a tool call: when its meta names a terminal,
/// one labelled by the call's title in the meta's directory.
pub open spec fn created_terminal_ok(update: SessionUpdateKind, e: Option<TerminalEvent>) -> bool {
    match update {
        SessionUpdateKind::ToolCall { title, terminal_info } => match terminal_info {
            Some(TerminalInfoMeta { terminal_id: Some(id), cwd }) => e matches Some(
                TerminalEvent::Created { terminal_id, label, cwd: c },
            ) && terminal_id@ == id@ && label@ == title@ && opt_view(c) == opt_view(cwd),
            _ => e is None,
        },
        _ => e is None,
    }
}

/// The output reported by a tool call update: when its meta names the
/// terminal and carries data.
pub open spec fn output_ok(update: SessionUpdateKind, e: Option<TerminalEvent>) -> bool {
    match update {
        SessionUpdateKind::ToolCallUpdate { terminal_output, .. } => match terminal_output {
            Some(TerminalOutputMeta { terminal_id: Some(id), data: Some(d) }) => e matches Some(
                TerminalEvent::Output { terminal_id, data },
            ) && terminal_id@ == id@ && data@ == vstd::utf8::encode_utf8(d@),
            _ => e is None,
        },
        _ => e is None,
    }
}

/// The exit reported by a tool call update: when its meta names the
/// terminal; the exit code is kept to its low 32 bits.
pub open spec fn exit_ok(update: SessionUpdateKind, e: Option<TerminalEvent>) -> bool {
    match update {
        SessionUpdateKind::ToolCallUpdate { terminal_exit, .. } => match terminal_exit {
            Some(TerminalExitMeta { terminal_id: Some(id), exit_code, signal }) => e matches Some(
                TerminalEvent::Exit { terminal_id, exit_code: c, signal: s },
            ) && terminal_id@ == id@ && c == (match exit_code {
                Some(x) => Some(x as u32),
                None => None,
            }) && opt_view(s) == opt_view(signal),
            _ => e is None,
        },
        _ => e is None,
    }
}

/// Plans the handling of a session notification.
pub fn plan_session_notification(update: &SessionUpdateKind) -> (r: NotificationPlan)
    ensures
        opt_view(r.mode_update) == match update {
            SessionUpdateKind::CurrentModeUpdate(m) => Some(m@),
            _ => None,
        },
        r.config_options_replaced == update is ConfigOptionUpdate,
        r.session_info_forwarded == update is SessionInfoUpdate,
        created_terminal_ok(*update, r.created),
        output_ok(*update, r.output),
        exit_ok(*update, r.exit),
{
    let mut plan = NotificationPlan {
        mode_update: None,
        config_options_replaced: false,
        session_info_forwarded: false,
        created: None,
        output: None,
        exit: None,
    };
    match update {
        SessionUpdateKind::CurrentModeUpdate(m) => {
            plan.mode_update = Some(m.clone());
        },
        SessionUpdateKind::ConfigOptionUpdate => {
            plan.config_options_replaced = true;
        },
        SessionUpdateKind::SessionInfoUpdate => {
            plan.session_info_forwarded = true;
        },
        SessionUpdateKind::ToolCall { title, terminal_info } => {
            match terminal_info {
                Some(info) => match &info.terminal_id {
                    Some(id) => {
                        plan.created = Some(
                            TerminalEvent::Created {
                                terminal_id: id.clone(),
                                label: title.clone(),
                                cwd: clone_opt(&info.cwd),
                            },
                        );
                    },
                    None => {},
                },
                None => {},
            }
        },
        SessionUpdateKind::ToolCallUpdate { terminal_output, terminal_exit } => {
            match terminal_output {
                Some(out) => match (&out.terminal_id, &out.data) {
                    (Some(id), Some(d)) => {
                        plan.output = Some(
                            TerminalEvent::Output {
                                terminal_id: id.clone(),
                                data: vstd::slice::slice_to_vec(d.as_str().as_bytes()),
                            },
                        );
                    },
                    _ => {},
                },
                None => {},
            }
            match terminal_exit {
                Some(ex) => match &ex.terminal_id {
                    Some(id) => {
                        let code: Option<u32> = match ex.exit_code {
                            Some(c) => Some(#[verifier::truncate] (c as u32)),
                            None => None,
                        };
                        plan.exit = Some(
                            TerminalEvent::Exit {
                                terminal_id: id.clone(),
                                exit_code: code,
                                signal: clone_opt(&ex.signal),
                            },
                        );
                    },
                    None => {},
                },
                None => {},
            }
        },
        SessionUpdateKind::Other => {},
    }
    plan
}

/// The label of a terminal that the agent creates: the command, a space,
/// and its arguments separated by spaces.
pub fn terminal_label(command: &str, args: &[String]) -> (r: String)
    ensures
        r@ == command@ + seq![' '] + join_with(args.deep_view(), ' '),
{
    let mut out = chars_of(command);
    out.push(' ');
    let ghost start = out@;
    let mut i: usize = 0;
    proof {
        assert(args.deep_view().take(0) =~= Seq::<Seq<char>>::empty());
        assert(out@ =~= start + join_with(args.deep_view().take(0), ' '));
    }
    while i < args.len()
        invariant
            i <= args@.len(),
            out@ == start + join_with(args.deep_view().take(i as int), ' '),
        decreases args@.len() - i,
    {
        proof {
            let t = args.deep_view().take(i + 1);
            assert(t.drop_last() =~= args.deep_view().take(i as int));
            assert(t.last() == args@[i as int]@);
        }
        if i > 0 {
            out.push(' ');
        }
        append_chars(&mut out, &chars_of(args[i].as_str()));
        proof {
            let t = args.deep_view().take(i + 1);
            assert(out@ =~= start + join_with(t, ' '));
        }
        i = i + 1;
    }
    proof {
        assert(args.deep_view().take(args@.len() as int) =~= args.deep_view());
    }
    string_from_chars(out.as_slice())
}

/// Whether `c` is a lowercase hexadecimal digit.
pub open spec fn is_lower_hex(c: char) -> bool {
    ('0' <= c && c <= '9') || ('a' <= c && c <= 'f')
}

/// The text of a random (version 4) UUID in hyphenated lowercase form.
pub open spec fn is_v4_uuid_text(s: Seq<char>) -> bool {
    &&& s.len() == 36
    &&& forall|i: int|
        0 <= i < 36 ==> if i == 8 || i == 13 || i == 18 || i == 23 {
            s[i] == '-'
        } else {
            is_lower_hex(#[trigger] s[i])
        }
    &&& s[14] == '4'
    &&& (s[19] == '8' || s[19] == '9' || s[19] == 'a' || s[19] == 'b')
}

/// `uuid::Uuid::new_v4()` in its `to_string` form. The value is random: the
/// contract states only its shape, which the crate's formatting code fixes
/// (36 characters, hyphens after 8, 12, 16 and 20 digits, lowercase hex,
/// version digit `4`, variant digit one of `8`, `9`, `a`, `b`).
#[verifier::external_body]
fn random_uuid_text() -> (r: String)
    ensures
        is_v4_uuid_text(r@),
{
    uuid::Uuid::new_v4().to_string()
}

/// A fresh id for a terminal that the agent creates: a random UUID.
pub fn new_terminal_id() -> (r: String)
    ensures
        is_v4_uuid_text(r@),
{
    random_uuid_text()
}

/// A point in time: seconds since the Unix epoch and the nanoseconds past
/// that second.
#[derive(Clone, Copy, Debug, PartialEq, Eq, Structural)]
pub struct Timestamp {
    pub seconds: i64,
    pub nanos: u32,
}

/// The instant that `chrono::DateTime::parse_from_rfc3339` reads from a
/// text, taken in UTC as (seconds since the epoch, nanoseconds); nothing
/// when the text is not an RFC 3339 date and time.
pub uninterp spec fn rfc3339_instant(text: Seq<char>) -> Option<(i64, u32)>;

/// `chrono::DateTime::parse_from_rfc3339`, converted to UTC and read with
/// `timestamp` and `timestamp_subsec_nanos`. The contract claims only that
/// the result depends on the text alone (an RFC 3339 text carries its own
/// offset).
#[verifier::external_body]
fn parse_rfc3339(text: &str) -> (r: Option<(i64, u32)>)
    ensures
        r == rfc3339_instant(text@),
{
    chrono::DateTime::parse_from_rfc3339(text).ok().map(
        |dt| {
            let utc = dt.with_timezone(&chrono::Utc);
            (utc.timestamp(), utc.timestamp_subsec_nanos())
        },
    )
}

/// A session as the agent lists it.
pub struct ListedSession {
    pub session_id: String,
    pub cwd: String,
    pub additional_directories: Vec<String>,
    pub title: Option<String>,
    pub updated_at: Option<String>,
}

/// A session as the session list shows it.
pub struct SessionInfo {
    pub session_id: String,
    pub work_dirs: Vec<String>,
    pub title: Option<String>,
    pub updated_at: Option<Timestamp>,
}

/// The time of a listed session's last update: its text read as RFC 3339,
/// nothing when it is missing or does not parse.
pub open spec fn listed_update_time(updated_at: Option<String>) -> Option<Timestamp> {
    match updated_at {
        Some(t) => match rfc3339_instant(t@) {
            Some((s, n)) => Some(Timestamp { seconds: s, nanos: n }),
            None => None,
        },
        None => None,
    }
}

/// What the session list shows of a listed session: its work directories
/// (the working directory, then the further ones without repeats), its
/// title, and the time of its last update when that parses.
pub fn session_info_from_listing(listed: ListedSession) -> (r: SessionInfo)
    ensures
        r.session_id@ == listed.session_id@,
        r.work_dirs.deep_view() == without_repeats(
            seq![listed.cwd@] + listed.additional_directories.deep_view(),
        ),
        opt_view(r.title) == opt_view(listed.title),
        r.updated_at == listed_update_time(listed.updated_at),
{
    let updated_at = match &listed.updated_at {
        Some(t) => match parse_rfc3339(t.as_str()) {
            Some((s, n)) => Some(Timestamp { seconds: s, nanos: n }),
            None => None,
        },
        None => None,
    };
    let ListedSession { session_id, cwd, additional_directories, title, updated_at: _ } = listed;
    SessionInfo {
        session_id,
        work_dirs: work_dirs_from_session_info(cwd, additional_directories),
        title,
        updated_at,
    }
}

/// The error of deleting a session when the agent cannot.
pub const DELETE_NOT_SUPPORTED: &'static str = "delete_session not supported";

/// Whether a session may be deleted: an error when the agent does not
/// support deleting sessions.
pub fn check_delete_supported(supports_delete: bool) -> (r: Result<(), String>)
    ensures
        supports_delete <==> r is Ok,
        r matches Err(e) ==> e@ == DELETE_NOT_SUPPORTED@,
{
    if supports_delete {
        Ok(())
    } else {
        Err(String::from_str(DELETE_NOT_SUPPORTED))
    }
}

/// The error data of a request for a session that the connection does not
/// know: `unknown session: ` and the session id.
pub fn unknown_session_message(session_id: &str) -> (r: String)
    ensures
        r@ == "unknown session: "@ + session_id@,
{
    let mut out = chars_of("unknown session: ");
    append_chars(&mut out, &chars_of(session_id));
    string_from_chars(out.as_slice())
}

} // verus!
