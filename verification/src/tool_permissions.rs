//! Built-in security rules for the agent's terminal tool: command patterns
//! that no setting can allow, checked on the command as written, on each of
//! its sub-commands, and on every single-path `rm` that it amounts to.
use vstd::prelude::*;

use crate::paths::{normalize_path, spec_normalize_path};
use crate::text::{
    append_chars, chars_of, chars_skip, chars_start_with, is_unicode_whitespace, is_whitespace,
    str_equal, string_from_chars,
};

verus! {

/// The name under which the terminal tool asks for permission.
pub const TERMINAL_TOOL_NAME: &'static str = "terminal";

pub const HARDCODED_SECURITY_DENIAL_MESSAGE: &'static str = "Blocked by built-in security rule. This operation is considered too harmful to be allowed, and cannot be overridden by settings.";

/// `rm` of the filesystem root: `rm -rf /`, `rm -rf /*`, `rm / -rf`.
pub const DENY_ROOT: &'static str = r"(?i)\brm\s+(--[a-zA-Z0-9][-a-zA-Z0-9_]*(=[^\s]*)?\s+|-[a-zA-Z]+\s+)*(--\s+)?/\*?(\s+--[a-zA-Z0-9][-a-zA-Z0-9_]*(=[^\s]*)?|\s+-[a-zA-Z]+)*\s*$";

/// `rm` of the home directory: `rm -rf ~`, `rm -rf ~/`, `rm -rf ~/*`.
pub const DENY_HOME: &'static str = r"(?i)\brm\s+(--[a-zA-Z0-9][-a-zA-Z0-9_]*(=[^\s]*)?\s+|-[a-zA-Z]+\s+)*(--\s+)?~/?\*?(\s+--[a-zA-Z0-9][-a-zA-Z0-9_]*(=[^\s]*)?|\s+-[a-zA-Z]+)*\s*$";

/// `rm` of `$HOME` or `${HOME}`, with or without `/` and `/*`.
pub const DENY_HOME_VAR: &'static str = r"(?i)\brm\s+(--[a-zA-Z0-9][-a-zA-Z0-9_]*(=[^\s]*)?\s+|-[a-zA-Z]+\s+)*(--\s+)?(\$HOME|\$\{HOME\})/?(\*)?(\s+--[a-zA-Z0-9][-a-zA-Z0-9_]*(=[^\s]*)?|\s+-[a-zA-Z]+)*\s*$";

/// `rm` of the current directory: `rm -rf .`, `rm -rf ./`, `rm -rf ./*`.
pub const DENY_CURRENT_DIR: &'static str = r"(?i)\brm\s+(--[a-zA-Z0-9][-a-zA-Z0-9_]*(=[^\s]*)?\s+|-[a-zA-Z]+\s+)*(--\s+)?\./?\*?(\s+--[a-zA-Z0-9][-a-zA-Z0-9_]*(=[^\s]*)?|\s+-[a-zA-Z]+)*\s*$";

/// `rm` of the parent directory: `rm -rf ..`, `rm -rf ../`, `rm -rf ../*`.
pub const DENY_PARENT_DIR: &'static str = r"(?i)\brm\s+(--[a-zA-Z0-9][-a-zA-Z0-9_]*(=[^\s]*)?\s+|-[a-zA-Z]+\s+)*(--\s+)?\.\./?\*?(\s+--[a-zA-Z0-9][-a-zA-Z0-9_]*(=[^\s]*)?|\s+-[a-zA-Z]+)*\s*$";

/// Whether the regular expression `pattern` matches somewhere in `haystack`,
/// as the `regex` crate decides; a pattern that does not compile matches
/// nothing.
pub uninterp spec fn regex_matches(pattern: Seq<char>, haystack: Seq<char>) -> bool;

/// Compiles `pattern` with `regex::Regex::new` and tests `haystack` with
/// `Regex::is_match`. The contract claims only that the answer is a function
/// of the pattern and the haystack (named `regex_matches`), false when the
/// pattern does not compile; which strings a pattern matches is left to the
/// `regex` crate.
#[verifier::external_body]
fn pattern_is_match(pattern: &str, haystack: &str) -> (r: bool)
    ensures
        r == regex_matches(pattern@, haystack@),
{
    match regex::Regex::new(pattern) {
        Ok(re) => re.is_match(haystack),
        Err(_) => false,
    }
}

/// Security rules that are always enforced and cannot be overridden by any
/// setting: the sources of regular expressions that deny a terminal command.
pub struct HardcodedSecurityRules {
    pub terminal_deny: Vec<String>,
}

/// The patterns of the built-in terminal rules, in order.
pub open spec fn terminal_deny_patterns() -> Seq<Seq<char>> {
    seq![DENY_ROOT@, DENY_HOME@, DENY_HOME_VAR@, DENY_CURRENT_DIR@, DENY_PARENT_DIR@]
}

/// The built-in rules.
pub fn hardcoded_security_rules() -> (r: HardcodedSecurityRules)
    ensures
        r.terminal_deny.deep_view() == terminal_deny_patterns(),
{
    let mut v: Vec<String> = Vec::new();
    v.push(String::from_str(DENY_ROOT));
    v.push(String::from_str(DENY_HOME));
    v.push(String::from_str(DENY_HOME_VAR));
    v.push(String::from_str(DENY_CURRENT_DIR));
    v.push(String::from_str(DENY_PARENT_DIR));
    proof {
        assert(v.deep_view() =~= terminal_deny_patterns());
    }
    HardcodedSecurityRules { terminal_deny: v }
}

/// The state of splitting at white space after some characters: the words
/// completed so far and the word under way.
pub open spec fn whitespace_scan(s: Seq<char>) -> (Seq<Seq<char>>, Seq<char>)
    decreases s.len(),
{
    if s.len() == 0 {
        (Seq::empty(), Seq::empty())
    } else {
        let (done, cur) = whitespace_scan(s.drop_last());
        let c = s.last();
        if is_unicode_whitespace(c) {
            if cur.len() > 0 {
                (done.push(cur), Seq::empty())
            } else {
                (done, Seq::empty())
            }
        } else {
            (done, cur.push(c))
        }
    }
}

/// The maximal runs of non-white-space characters of `s`, in order (what
/// `str::split_whitespace` yields).
pub open spec fn split_words(s: Seq<char>) -> Seq<Seq<char>> {
    let (done, cur) = whitespace_scan(s);
    if cur.len() > 0 {
        done.push(cur)
    } else {
        done
    }
}

pub open spec fn double_dash() -> Seq<char> {
    seq!['-', '-']
}

/// The arguments of an `rm` split into flags and paths: everything that starts
/// with `-` is a flag until a `--`, which is a flag itself; all else are paths.
pub open spec fn partition_args(args: Seq<Seq<char>>) -> (Seq<Seq<char>>, Seq<Seq<char>>, bool)
    decreases args.len(),
{
    if args.len() == 0 {
        (Seq::empty(), Seq::empty(), false)
    } else {
        let (flags, paths, past) = partition_args(args.drop_last());
        let part = args.last();
        if !past && part == double_dash() {
            (flags.push(part), paths, true)
        } else if !past && part.len() > 0 && part[0] == '-' {
            (flags.push(part), paths, past)
        } else {
            (flags, paths.push(part), past)
        }
    }
}

/// The words of `parts` joined by single spaces.
pub open spec fn join_words(parts: Seq<Seq<char>>) -> Seq<char>
    decreases parts.len(),
{
    if parts.len() == 0 {
        Seq::empty()
    } else if parts.len() == 1 {
        parts[0]
    } else {
        join_words(parts.drop_last()).push(' ') + parts.last()
    }
}

/// The flags as they are repeated in each single-path command: joined by
/// spaces and followed by one, or nothing when there are none.
pub open spec fn flags_text(flags: Seq<Seq<char>>) -> Seq<char> {
    if flags.len() == 0 {
        Seq::empty()
    } else {
        join_words(flags).push(' ')
    }
}

pub open spec fn rm_space() -> Seq<char> {
    seq!['r', 'm', ' ']
}

pub open spec fn home_braced() -> Seq<char> {
    seq!['$', '{', 'H', 'O', 'M', 'E', '}']
}

pub open spec fn home_plain() -> Seq<char> {
    seq!['$', 'H', 'O', 'M', 'E']
}

pub open spec fn starts_with(s: Seq<char>, prefix: Seq<char>) -> bool {
    prefix.len() <= s.len() && s.take(prefix.len() as int) == prefix
}

/// The path argument as it stands in its single-path command: a `$HOME` or
/// `${HOME}` followed by `/...` gets the rest normalized (a bare root keeps the
/// variable alone), other `$` arguments stay as they are, and plain paths are
/// normalized, an empty relative result becoming `.`.
pub open spec fn rewritten_rm_path(path: Seq<char>) -> Seq<char> {
    if path.len() > 0 && path[0] == '$' {
        let prefix = if starts_with(path, home_braced()) {
            Some(home_braced())
        } else if starts_with(path, home_plain()) {
            Some(home_plain())
        } else {
            None
        };
        match prefix {
            Some(p) => {
                let suffix = path.skip(p.len() as int);
                if suffix.len() == 0 {
                    path
                } else if suffix[0] == '/' {
                    let n = spec_normalize_path(suffix);
                    if n == seq!['/'] {
                        p
                    } else {
                        p + n
                    }
                } else {
                    path
                }
            },
            None => path,
        }
    } else {
        let n = spec_normalize_path(path);
        if n.len() == 0 && !(path.len() > 0 && path[0] == '/') {
            seq!['.']
        } else {
            n
        }
    }
}

/// The single-path commands of each path argument, in order.
pub open spec fn single_path_commands(flags: Seq<char>, paths: Seq<Seq<char>>) -> Seq<Seq<char>>
    decreases paths.len(),
{
    if paths.len() == 0 {
        Seq::empty()
    } else {
        single_path_commands(flags, paths.drop_last()).push(
            rm_space() + flags + rewritten_rm_path(paths.last()),
        )
    }
}

/// Whether a word is `rm`, ignoring ASCII case.
pub open spec fn is_rm_word(w: Seq<char>) -> bool {
    w.len() == 2 && (w[0] == 'r' || w[0] == 'R') && (w[1] == 'm' || w[1] == 'M')
}

/// For an `rm` command, one `rm` per path argument with the same flags and
/// the path normalized; for any other command, nothing.
pub open spec fn rm_expansions(command: Seq<char>) -> Seq<Seq<char>> {
    let words = split_words(command);
    if words.len() == 0 || !is_rm_word(words[0]) {
        Seq::empty()
    } else {
        let (flags, paths, _) = partition_args(words.skip(1));
        single_path_commands(flags_text(flags), paths)
    }
}

/// Splits `s` into its white-space separated words.
fn split_whitespace_words(s: &Vec<char>) -> (r: Vec<Vec<char>>)
    ensures
        crate::paths::views(r@) == split_words(s@),
{
    let mut done: Vec<Vec<char>> = Vec::new();
    let mut cur: Vec<char> = Vec::new();
    let mut i: usize = 0;
    proof {
        assert(s@.take(0) =~= Seq::<char>::empty());
        assert(crate::paths::views(done@) =~= Seq::<Seq<char>>::empty());
    }
    while i < s.len()
        invariant
            i <= s@.len(),
            (crate::paths::views(done@), cur@) == whitespace_scan(s@.take(i as int)),
        decreases s@.len() - i,
    {
        let c = s[i];
        let ghost before = crate::paths::views(done@);
        proof {
            let t = s@.take(i + 1);
            assert(t.drop_last() =~= s@.take(i as int));
            assert(t.last() == c);
        }
        if is_whitespace(c) {
            if cur.len() > 0 {
                let ghost w = cur@;
                done.push(cur);
                cur = Vec::new();
                proof {
                    assert(crate::paths::views(done@) =~= before.push(w));
                    assert(cur@ =~= Seq::<char>::empty());
                }
            } else {
                proof {
                    assert(cur@ =~= Seq::<char>::empty());
                }
            }
        } else {
            cur.push(c);
        }
        i = i + 1;
    }
    proof {
        assert(s@.take(s@.len() as int) =~= s@);
    }
    if cur.len() > 0 {
        let ghost before = crate::paths::views(done@);
        let ghost w = cur@;
        done.push(cur);
        proof {
            assert(crate::paths::views(done@) =~= before.push(w));
        }
    }
    done
}

fn is_double_dash(w: &Vec<char>) -> (r: bool)
    ensures
        r == (w@ == double_dash()),
{
    if w.len() == 2 && w[0] == '-' && w[1] == '-' {
        proof {
            assert(w@ =~= double_dash());
        }
        true
    } else {
        false
    }
}

fn literal_chars(s: &str) -> (r: Vec<char>)
    ensures
        r@ == s@,
{
    chars_of(s)
}

/// Appends `rewritten_rm_path(path)` to `out`.
fn push_rewritten_rm_path(out: &mut Vec<char>, path: &Vec<char>)
    ensures
        final(out)@ == old(out)@ + rewritten_rm_path(path@),
{
    if path.len() > 0 && path[0] == '$' {
        let braced = literal_chars("${HOME}");
        let plain = literal_chars("$HOME");
        proof {
            reveal_strlit("${HOME}");
            reveal_strlit("$HOME");
            assert(braced@ =~= home_braced());
            assert(plain@ =~= home_plain());
        }
        let prefix: Option<&Vec<char>> = if chars_start_with(path.as_slice(), braced.as_slice()) {
            Some(&braced)
        } else if chars_start_with(path.as_slice(), plain.as_slice()) {
            Some(&plain)
        } else {
            None
        };
        match prefix {
            Some(p) => {
                let suffix = chars_skip(path.as_slice(), p.len());
                if suffix.len() == 0 {
                    append_chars(out, path);
                } else if suffix[0] == '/' {
                    let suffix_str = string_from_chars(suffix.as_slice());
                    let n = chars_of(normalize_path(suffix_str.as_str()).as_str());
                    if n.len() == 1 && n[0] == '/' {
                        proof {
                            assert(n@ =~= seq!['/']);
                        }
                        append_chars(out, p);
                    } else {
                        proof {
                            assert(n@ != seq!['/']);
                        }
                        append_chars(out, p);
                        append_chars(out, &n);
                        proof {
                            assert(out@ =~= old(out)@ + (p@ + n@));
                        }
                    }
                } else {
                    append_chars(out, path);
                }
            },
            None => {
                append_chars(out, path);
            },
        }
    } else {
        let path_str = string_from_chars(path.as_slice());
        let n = chars_of(normalize_path(path_str.as_str()).as_str());
        if n.len() == 0 && !(path.len() > 0 && path[0] == '/') {
            out.push('.');
            proof {
                assert(out@ =~= old(out)@ + seq!['.']);
            }
        } else {
            append_chars(out, &n);
        }
    }
}

/// For `rm` commands, expands multi-path arguments into individual single-path
/// commands with normalized paths, so that `rm -rf /tmp/../../` and
/// `rm -rf /tmp /` are seen as `rm -rf /`. Any other command gives nothing.
pub fn expand_rm_to_single_path_commands(command: &str) -> (r: Vec<String>)
    ensures
        r.deep_view() == rm_expansions(command@),
{
    let chars = chars_of(command);
    let words = split_whitespace_words(&chars);
    let ghost wv = crate::paths::views(words@);
    if words.len() == 0 {
        return Vec::new();
    }
    let first = &words[0];
    if !(first.len() == 2 && (first[0] == 'r' || first[0] == 'R') && (first[1] == 'm' || first[1]
        == 'M')) {
        proof {
            assert(wv[0] == first@);
        }
        return Vec::new();
    }
    proof {
        assert(wv[0] == first@);
    }
    let mut flags: Vec<Vec<char>> = Vec::new();
    let mut paths: Vec<Vec<char>> = Vec::new();
    let mut past_double_dash = false;
    let mut k: usize = 1;
    proof {
        assert(wv.skip(1).take(0) =~= Seq::<Seq<char>>::empty());
    }
    while k < words.len()
        invariant
            1 <= k <= words@.len(),
            wv == crate::paths::views(words@),
            (crate::paths::views(flags@), crate::paths::views(paths@), past_double_dash)
                == partition_args(wv.skip(1).take(k - 1)),
        decreases words@.len() - k,
    {
        let part = &words[k];
        let ghost fb = crate::paths::views(flags@);
        let ghost pb = crate::paths::views(paths@);
        proof {
            let t = wv.skip(1).take(k as int);
            assert(t.drop_last() =~= wv.skip(1).take(k - 1));
            assert(t.last() == part@);
        }
        if !past_double_dash && is_double_dash(part) {
            past_double_dash = true;
            flags.push(part.clone());
            proof {
                assert(crate::paths::views(flags@) =~= fb.push(part@));
            }
        } else if !past_double_dash && part.len() > 0 && part[0] == '-' {
            flags.push(part.clone());
            proof {
                assert(crate::paths::views(flags@) =~= fb.push(part@));
            }
        } else {
            paths.push(part.clone());
            proof {
                assert(crate::paths::views(paths@) =~= pb.push(part@));
            }
        }
        k = k + 1;
    }
    proof {
        assert(wv.skip(1).take(words@.len() - 1) =~= wv.skip(1));
    }
    let mut flags_str: Vec<char> = Vec::new();
    let mut f: usize = 0;
    while f < flags.len()
        invariant
            f <= flags@.len(),
            flags_str@ == join_words(crate::paths::views(flags@).take(f as int)),
        decreases flags@.len() - f,
    {
        let ghost prev = flags_str@;
        proof {
            let t = crate::paths::views(flags@).take(f + 1);
            assert(t.drop_last() =~= crate::paths::views(flags@).take(f as int));
            assert(t.last() == flags@[f as int]@);
        }
        if f > 0 {
            flags_str.push(' ');
        }
        append_chars(&mut flags_str, &flags[f]);
        proof {
            let t = crate::paths::views(flags@).take(f + 1);
            assert(flags_str@ =~= join_words(t));
        }
        f = f + 1;
    }
    proof {
        assert(crate::paths::views(flags@).take(flags@.len() as int) =~= crate::paths::views(
            flags@,
        ));
    }
    if flags.len() > 0 {
        flags_str.push(' ');
    }
    let ghost ft = flags_text(crate::paths::views(flags@));
    proof {
        assert(flags_str@ =~= ft);
    }
    let mut results: Vec<String> = Vec::new();
    let mut j: usize = 0;
    proof {
        assert(crate::paths::views(paths@).take(0) =~= Seq::<Seq<char>>::empty());
        assert(results.deep_view() =~= Seq::<Seq<char>>::empty());
    }
    while j < paths.len()
        invariant
            j <= paths@.len(),
            flags_str@ == ft,
            results.deep_view() == single_path_commands(
                ft,
                crate::paths::views(paths@).take(j as int),
            ),
        decreases paths@.len() - j,
    {
        let mut line: Vec<char> = Vec::new();
        line.push('r');
        line.push('m');
        line.push(' ');
        append_chars(&mut line, &flags_str);
        push_rewritten_rm_path(&mut line, &paths[j]);
        let ghost before = results.deep_view();
        results.push(string_from_chars(line.as_slice()));
        proof {
            let t = crate::paths::views(paths@).take(j + 1);
            assert(t.drop_last() =~= crate::paths::views(paths@).take(j as int));
            assert(t.last() == paths@[j as int]@);
            assert(line@ =~= rm_space() + ft + rewritten_rm_path(paths@[j as int]@));
            assert(results.deep_view() =~= before.push(line@));
        }
        j = j + 1;
    }
    proof {
        assert(crate::paths::views(paths@).take(paths@.len() as int) =~= crate::paths::views(
            paths@,
        ));
    }
    results
}

/// Whether some pattern matches `command` itself or one of its single-path
/// `rm` expansions.
pub open spec fn matches_patterns(command: Seq<char>, patterns: Seq<Seq<char>>) -> bool {
    ||| exists|i: int| 0 <= i < patterns.len() && regex_matches(patterns[i], command)
    ||| exists|j: int, i: int|
        0 <= j < rm_expansions(command).len() && 0 <= i < patterns.len() && regex_matches(
            patterns[i],
            rm_expansions(command)[j],
        )
}

fn any_pattern_matches(text: &str, patterns: &[String]) -> (r: bool)
    ensures
        r == exists|i: int|
            0 <= i < patterns.deep_view().len() && regex_matches(patterns.deep_view()[i], text@),
{
    let mut i: usize = 0;
    while i < patterns.len()
        invariant
            i <= patterns@.len(),
            patterns.deep_view().len() == patterns@.len(),
            forall|k: int| 0 <= k < i ==> !regex_matches(#[trigger] patterns.deep_view()[k], text@),
        decreases patterns@.len() - i,
    {
        proof {
            assert(patterns.deep_view()[i as int] == patterns@[i as int]@);
        }
        if pattern_is_match(patterns[i].as_str(), text) {
            return true;
        }
        i = i + 1;
    }
    false
}

/// Checks a single command against the patterns, both as written and with
/// the path arguments of an `rm` normalized one by one.
pub fn matches_hardcoded_patterns(command: &str, patterns: &[String]) -> (r: bool)
    ensures
        r == matches_patterns(command@, patterns.deep_view()),
{
    if any_pattern_matches(command, patterns) {
        return true;
    }
    let expanded = expand_rm_to_single_path_commands(command);
    let ghost ex = rm_expansions(command@);
    let mut j: usize = 0;
    while j < expanded.len()
        invariant
            j <= expanded@.len(),
            expanded.deep_view() == ex,
            ex == rm_expansions(command@),
            forall|jj: int, i: int|
                0 <= jj < j && 0 <= i < patterns.deep_view().len() ==> !regex_matches(
                    #[trigger] patterns.deep_view()[i],
                    #[trigger] ex[jj],
                ),
        decreases expanded@.len() - j,
    {
        proof {
            assert(expanded.deep_view()[j as int] == expanded@[j as int]@);
        }
        if any_pattern_matches(expanded[j].as_str(), patterns) {
            proof {
                let i = choose|i: int|
                    0 <= i < patterns.deep_view().len() && regex_matches(
                        patterns.deep_view()[i],
                        expanded@[j as int]@,
                    );
                assert(0 <= j < rm_expansions(command@).len() && 0 <= i
                    < patterns.deep_view().len() && regex_matches(
                    patterns.deep_view()[i],
                    rm_expansions(command@)[j as int],
                ));
            }
            return true;
        }
        j = j + 1;
    }
    false
}

/// Outcomes of a permission check.
pub enum ToolPermissionDecision {
    Allow,
    Deny(String),
    Confirm,
}

/// One terminal input as the check sees it: the text, and the sub-commands
/// that a shell parser found in it (`None` where it could not parse it).
pub struct TerminalInput {
    pub text: String,
    pub sub_commands: Option<Vec<String>>,
}

/// Whether one input is denied: its text matches, or (for shells with POSIX
/// command chaining) one of its parsed sub-commands does.
pub open spec fn input_denied(input: TerminalInput, patterns: Seq<Seq<char>>, posix_chaining: bool) -> bool {
    ||| matches_patterns(input.text@, patterns)
    ||| (posix_chaining && match input.sub_commands {
        Some(cmds) => exists|k: int| 0 <= k < cmds@.len() && matches_patterns(cmds@[k]@, patterns),
        None => false,
    })
}

/// Whether the built-in rules deny the call: only the terminal tool has such
/// rules, and one denied input denies the whole call.
pub open spec fn hardcoded_denial(tool_name: Seq<char>, inputs: Seq<TerminalInput>, posix_chaining: bool) -> bool {
    tool_name == TERMINAL_TOOL_NAME@ && exists|k: int|
        0 <= k < inputs.len() && input_denied(inputs[k], terminal_deny_patterns(), posix_chaining)
}

/// Checks the inputs of a tool call against the rules that cannot be
/// bypassed: a `Deny` with the built-in message when they block the call,
/// `None` otherwise.
pub fn check_hardcoded_security_rules(
    tool_name: &str,
    inputs: &[TerminalInput],
    supports_posix_chaining: bool,
) -> (r: Option<ToolPermissionDecision>)
    ensures
        r is Some <==> hardcoded_denial(tool_name@, inputs@, supports_posix_chaining),
        r matches Some(d) ==> d matches ToolPermissionDecision::Deny(m) && m@
            == HARDCODED_SECURITY_DENIAL_MESSAGE@,
{
    if !str_equal(tool_name, TERMINAL_TOOL_NAME) {
        return None;
    }
    let rules = hardcoded_security_rules();
    let patterns = rules.terminal_deny.as_slice();
    let mut k: usize = 0;
    while k < inputs.len()
        invariant
            k <= inputs@.len(),
            tool_name@ == TERMINAL_TOOL_NAME@,
            patterns.deep_view() == terminal_deny_patterns(),
            forall|kk: int|
                0 <= kk < k ==> !input_denied(
                    #[trigger] inputs@[kk],
                    terminal_deny_patterns(),
                    supports_posix_chaining,
                ),
        decreases inputs@.len() - k,
    {
        let input = &inputs[k];
        if matches_hardcoded_patterns(input.text.as_str(), patterns) {
            proof {
                assert(input_denied(inputs@[k as int], terminal_deny_patterns(), supports_posix_chaining));
            }
            return Some(
                ToolPermissionDecision::Deny(String::from_str(HARDCODED_SECURITY_DENIAL_MESSAGE)),
            );
        }
        if supports_posix_chaining {
            match &input.sub_commands {
                Some(cmds) => {
                    let mut c: usize = 0;
                    while c < cmds.len()
                        invariant
                            c <= cmds@.len(),
                            k < inputs@.len(),
                            supports_posix_chaining,
                            tool_name@ == TERMINAL_TOOL_NAME@,
                            inputs@[k as int].sub_commands == Some(*cmds),
                            patterns.deep_view() == terminal_deny_patterns(),
                            forall|cc: int|
                                0 <= cc < c ==> !matches_patterns(
                                    #[trigger] cmds@[cc]@,
                                    terminal_deny_patterns(),
                                ),
                        decreases cmds@.len() - c,
                    {
                        if matches_hardcoded_patterns(cmds[c].as_str(), patterns) {
                            proof {
                                let inp = inputs@[k as int];
                                assert(matches_patterns(
                                    inp.sub_commands->Some_0@[c as int]@,
                                    terminal_deny_patterns(),
                                ));
                                assert(input_denied(inp, terminal_deny_patterns(), supports_posix_chaining));
                            }
                            return Some(
                                ToolPermissionDecision::Deny(
                                    String::from_str(HARDCODED_SECURITY_DENIAL_MESSAGE),
                                ),
                            );
                        }
                        c = c + 1;
                    }
                },
                None => {},
            }
        }
        k = k + 1;
    }
    None
}

} // verus!
