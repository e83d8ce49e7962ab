//! Lexical path normalization and the resolution of the write paths that a
//! sandboxed terminal command may touch.
use vstd::prelude::*;

use crate::text::{append_chars, chars_of, string_from_chars};

verus! {

/// The character sequences that the vectors of `v` hold.
pub open spec fn views(v: Seq<Vec<char>>) -> Seq<Seq<char>> {
    Seq::new(v.len(), |i: int| v[i]@)
}

/// Whether `c` separates path components: `/` always, `\` in Windows style.
pub open spec fn is_separator(c: char, windows: bool) -> bool {
    c == '/' || (windows && c == '\\')
}

/// The pieces of `s` between separators, empty pieces included.
pub open spec fn split_components(s: Seq<char>, windows: bool) -> Seq<Seq<char>>
    decreases s.len(),
{
    if s.len() == 0 {
        seq![Seq::<char>::empty()]
    } else {
        let init = split_components(s.drop_last(), windows);
        if is_separator(s.last(), windows) {
            init.push(Seq::<char>::empty())
        } else {
            init.update(init.len() - 1, init.last().push(s.last()))
        }
    }
}

pub open spec fn dot() -> Seq<char> {
    seq!['.']
}

pub open spec fn dot_dot() -> Seq<char> {
    seq!['.', '.']
}

/// How one component changes the stack of kept components: empty and `.`
/// components vanish, `..` removes the last kept name (or is kept itself when
/// nothing can be removed from a relative path), anything else is kept.
pub open spec fn component_step(stack: Seq<Seq<char>>, comp: Seq<char>, absolute: bool) -> Seq<
    Seq<char>,
> {
    if comp.len() == 0 || comp == dot() {
        stack
    } else if comp == dot_dot() {
        if stack.len() > 0 && stack.last() == dot_dot() {
            stack.push(dot_dot())
        } else if stack.len() > 0 {
            stack.drop_last()
        } else if !absolute {
            stack.push(dot_dot())
        } else {
            stack
        }
    } else {
        stack.push(comp)
    }
}

/// The components kept after reading `comps` from left to right.
pub open spec fn fold_components(comps: Seq<Seq<char>>, absolute: bool) -> Seq<Seq<char>>
    decreases comps.len(),
{
    if comps.len() == 0 {
        Seq::empty()
    } else {
        component_step(fold_components(comps.drop_last(), absolute), comps.last(), absolute)
    }
}

/// `parts` with `sep` between each two of them.
pub open spec fn join_with(parts: Seq<Seq<char>>, sep: char) -> Seq<char>
    decreases parts.len(),
{
    if parts.len() == 0 {
        Seq::empty()
    } else if parts.len() == 1 {
        parts[0]
    } else {
        join_with(parts.drop_last(), sep).push(sep) + parts.last()
    }
}

/// The lexical normal form of a path without a drive prefix: `.` and empty
/// components dropped, `..` resolved against what precedes it, components
/// joined by `/` (or `\` in Windows style), a leading separator kept.
pub open spec fn normalize_body(body: Seq<char>, windows: bool) -> Seq<char> {
    let absolute = body.len() > 0 && is_separator(body[0], windows);
    let sep = if windows {
        '\\'
    } else {
        '/'
    };
    let joined = join_with(fold_components(split_components(body, windows), absolute), sep);
    if absolute {
        seq![sep] + joined
    } else {
        joined
    }
}

/// The lexical normal form of a POSIX path.
pub open spec fn spec_normalize_path(raw: Seq<char>) -> Seq<char> {
    normalize_body(raw, false)
}

pub open spec fn is_ascii_letter(c: char) -> bool {
    ('a' <= c && c <= 'z') || ('A' <= c && c <= 'Z')
}

pub open spec fn to_ascii_upper(c: char) -> char {
    if 'a' <= c && c <= 'z' {
        ((c as u32) - 32) as char
    } else {
        c
    }
}

/// A Windows path that starts with a drive letter, a colon and a separator.
pub open spec fn has_drive_root(p: Seq<char>) -> bool {
    p.len() >= 3 && is_ascii_letter(p[0]) && p[1] == ':' && is_separator(p[2], true)
}

/// A path that is absolute in the given style.
pub open spec fn is_absolute_path(p: Seq<char>, windows: bool) -> bool {
    (p.len() > 0 && p[0] == '/') || (windows && ((p.len() > 0 && p[0] == '\\') || has_drive_root(
        p,
    )))
}

/// The normal form of an absolute path: Windows drive paths and paths rooted
/// at `\` are normalized in Windows style, any other in POSIX style.
pub open spec fn normalize_for(p: Seq<char>, windows: bool) -> Seq<char> {
    if windows && has_drive_root(p) {
        p.take(2) + normalize_body(p.skip(2), true)
    } else if windows && p.len() > 0 && p[0] == '\\' {
        normalize_body(p, true)
    } else {
        normalize_body(p, false)
    }
}

pub open spec fn mnt_prefix() -> Seq<char> {
    seq!['/', 'm', 'n', 't', '/']
}

/// A WSL drive mount: `/mnt/`, one ASCII letter, then the end or a `/`.
pub open spec fn is_wsl_drive_mount(p: Seq<char>) -> bool {
    p.len() >= 6 && p.take(5) == mnt_prefix() && is_ascii_letter(p[5]) && (p.len() == 6 || p[6]
        == '/')
}

/// `/mnt/x/rest` as the Windows path `X:\rest`, normalized.
pub open spec fn wsl_mount_to_windows(p: Seq<char>) -> Seq<char> {
    let rest = p.skip(6);
    let body = if rest.len() == 0 {
        seq!['/']
    } else {
        rest
    };
    seq![to_ascii_upper(p[5]), ':'] + normalize_body(body, true)
}

/// The separator put between a base directory and a relative path.
pub open spec fn join_separator(base: Seq<char>, windows: bool) -> char {
    if windows && (has_drive_root(base) || (base.len() > 0 && base[0] == '\\')) {
        '\\'
    } else {
        '/'
    }
}

/// Where one write path lands: WSL drive mounts become Windows drive paths
/// (Windows only), absolute paths are normalized, relative paths are resolved
/// against the base directory, and without a base a relative path is dropped.
pub open spec fn resolve_write_path(p: Seq<char>, base: Option<Seq<char>>, windows: bool) -> Option<
    Seq<char>,
> {
    if windows && is_wsl_drive_mount(p) {
        Some(wsl_mount_to_windows(p))
    } else if is_absolute_path(p, windows) {
        Some(normalize_for(p, windows))
    } else {
        match base {
            Some(b) => Some(normalize_for(b.push(join_separator(b, windows)) + p, windows)),
            None => None,
        }
    }
}

/// The resolved write paths, in order, without the dropped ones.
pub open spec fn resolve_write_paths(ps: Seq<Seq<char>>, base: Option<Seq<char>>, windows: bool) -> Seq<
    Seq<char>,
>
    decreases ps.len(),
{
    if ps.len() == 0 {
        Seq::empty()
    } else {
        let init = resolve_write_paths(ps.drop_last(), base, windows);
        match resolve_write_path(ps.last(), base, windows) {
            Some(r) => init.push(r),
            None => init,
        }
    }
}

fn is_separator_char(c: char, windows: bool) -> (r: bool)
    ensures
        r == is_separator(c, windows),
{
    c == '/' || (windows && c == '\\')
}

/// Splits `s` at every separator.
pub(crate) fn split_chars(s: &Vec<char>, windows: bool) -> (r: Vec<Vec<char>>)
    ensures
        views(r@) == split_components(s@, windows),
        r@.len() >= 1,
{
    let mut parts: Vec<Vec<char>> = Vec::new();
    parts.push(Vec::new());
    let mut i: usize = 0;
    proof {
        assert(s@.take(0) =~= Seq::<char>::empty());
        assert(views(parts@) =~= split_components(s@.take(0), windows));
    }
    while i < s.len()
        invariant
            i <= s@.len(),
            parts@.len() >= 1,
            views(parts@) == split_components(s@.take(i as int), windows),
        decreases s@.len() - i,
    {
        let c = s[i];
        let ghost before = views(parts@);
        proof {
            let t = s@.take(i + 1);
            assert(t.drop_last() =~= s@.take(i as int));
            assert(t.last() == c);
        }
        if is_separator_char(c, windows) {
            parts.push(Vec::new());
            proof {
                assert(views(parts@) =~= before.push(Seq::<char>::empty()));
            }
        } else {
            let mut cur = parts.pop().unwrap();
            cur.push(c);
            parts.push(cur);
            proof {
                assert(views(parts@) =~= before.update(before.len() - 1, before.last().push(c)));
            }
        }
        i = i + 1;
    }
    proof {
        assert(s@.take(s@.len() as int) =~= s@);
    }
    parts
}

fn is_dot(a: &Vec<char>) -> (r: bool)
    ensures
        r == (a@ == dot()),
{
    if a.len() == 1 && a[0] == '.' {
        proof {
            assert(a@ =~= dot());
        }
        true
    } else {
        false
    }
}

fn is_dot_dot(a: &Vec<char>) -> (r: bool)
    ensures
        r == (a@ == dot_dot()),
{
    if a.len() == 2 && a[0] == '.' && a[1] == '.' {
        proof {
            assert(a@ =~= dot_dot());
        }
        true
    } else {
        false
    }
}

fn dot_dot_vec() -> (r: Vec<char>)
    ensures
        r@ == dot_dot(),
{
    let mut v = Vec::new();
    v.push('.');
    v.push('.');
    proof {
        assert(v@ =~= dot_dot());
    }
    v
}

/// Reads the components from left to right, keeping what `component_step` keeps.
fn fold_chars(comps: &Vec<Vec<char>>, absolute: bool) -> (r: Vec<Vec<char>>)
    ensures
        views(r@) == fold_components(views(comps@), absolute),
{
    let mut stack: Vec<Vec<char>> = Vec::new();
    let mut j: usize = 0;
    proof {
        assert(views(comps@).take(0) =~= Seq::<Seq<char>>::empty());
        assert(views(stack@) =~= Seq::<Seq<char>>::empty());
    }
    while j < comps.len()
        invariant
            j <= comps@.len(),
            views(stack@) == fold_components(views(comps@).take(j as int), absolute),
        decreases comps@.len() - j,
    {
        let comp = &comps[j];
        let ghost before = views(stack@);
        proof {
            let t = views(comps@).take(j + 1);
            assert(t.drop_last() =~= views(comps@).take(j as int));
            assert(t.last() == comp@);
        }
        if comp.len() == 0 || is_dot(comp) {
        } else if is_dot_dot(comp) {
            let n = stack.len();
            if n > 0 && is_dot_dot(&stack[n - 1]) {
                stack.push(dot_dot_vec());
                proof {
                    assert(views(stack@) =~= before.push(dot_dot()));
                }
            } else if n > 0 {
                stack.pop();
                proof {
                    assert(views(stack@) =~= before.drop_last());
                }
            } else if !absolute {
                stack.push(dot_dot_vec());
                proof {
                    assert(views(stack@) =~= before.push(dot_dot()));
                }
            }
        } else {
            stack.push(comp.clone());
            proof {
                assert(views(stack@) =~= before.push(comp@));
            }
        }
        j = j + 1;
    }
    proof {
        assert(views(comps@).take(comps@.len() as int) =~= views(comps@));
    }
    stack
}

/// `parts` joined by `sep`, appended to `out`.
fn join_chars(out: &mut Vec<char>, parts: &Vec<Vec<char>>, sep: char)
    ensures
        final(out)@ == old(out)@ + join_with(views(parts@), sep),
{
    let ghost start = out@;
    let mut i: usize = 0;
    proof {
        assert(views(parts@).take(0) =~= Seq::<Seq<char>>::empty());
        assert(out@ =~= start + join_with(views(parts@).take(0), sep));
    }
    while i < parts.len()
        invariant
            i <= parts@.len(),
            out@ == start + join_with(views(parts@).take(i as int), sep),
        decreases parts@.len() - i,
    {
        let ghost prev = join_with(views(parts@).take(i as int), sep);
        proof {
            let t = views(parts@).take(i + 1);
            assert(t.drop_last() =~= views(parts@).take(i as int));
            assert(t.last() == parts@[i as int]@);
        }
        if i > 0 {
            out.push(sep);
        }
        append_chars(out, &parts[i]);
        proof {
            let t = views(parts@).take(i + 1);
            if i == 0 {
                assert(t.len() == 1);
                assert(out@ =~= start + join_with(t, sep));
            } else {
                assert(out@ =~= start + join_with(t, sep));
            }
        }
        i = i + 1;
    }
    proof {
        assert(views(parts@).take(parts@.len() as int) =~= views(parts@));
    }
}

/// Normalizes a path without a drive prefix, appending the result to `out`.
fn normalize_body_into(out: &mut Vec<char>, body: &Vec<char>, windows: bool)
    ensures
        final(out)@ == old(out)@ + normalize_body(body@, windows),
{
    let absolute = body.len() > 0 && is_separator_char(body[0], windows);
    let sep = if windows {
        '\\'
    } else {
        '/'
    };
    let comps = split_chars(body, windows);
    let stack = fold_chars(&comps, absolute);
    let ghost start = out@;
    if absolute {
        out.push(sep);
    }
    join_chars(out, &stack, sep);
    proof {
        let joined = join_with(fold_components(split_components(body@, windows), absolute), sep);
        if absolute {
            assert(out@ =~= start + (seq![sep] + joined));
        } else {
            assert(out@ =~= start + joined);
        }
    }
}

/// Collapses `.` and `..` components of a POSIX path without touching the
/// filesystem; the result is relative exactly when the input is.
pub fn normalize_path(raw: &str) -> (r: String)
    ensures
        r@ == spec_normalize_path(raw@),
{
    let body = chars_of(raw);
    let mut out: Vec<char> = Vec::new();
    normalize_body_into(&mut out, &body, false);
    proof {
        assert(out@ =~= spec_normalize_path(raw@));
    }
    string_from_chars(out.as_slice())
}

fn is_ascii_letter_char(c: char) -> (r: bool)
    ensures
        r == is_ascii_letter(c),
{
    ('a' <= c && c <= 'z') || ('A' <= c && c <= 'Z')
}

fn has_drive_root_chars(p: &Vec<char>) -> (r: bool)
    ensures
        r == has_drive_root(p@),
{
    p.len() >= 3 && is_ascii_letter_char(p[0]) && p[1] == ':' && is_separator_char(p[2], true)
}

fn skip_chars(p: &Vec<char>, n: usize) -> (r: Vec<char>)
    requires
        n <= p@.len(),
    ensures
        r@ == p@.skip(n as int),
{
    let mut r: Vec<char> = Vec::new();
    let mut i: usize = n;
    while i < p.len()
        invariant
            n <= i <= p@.len(),
            r@ == p@.subrange(n as int, i as int),
        decreases p@.len() - i,
    {
        r.push(p[i]);
        proof {
            assert(p@.subrange(n as int, i + 1) =~= p@.subrange(n as int, i as int).push(
                p@[i as int],
            ));
        }
        i = i + 1;
    }
    proof {
        assert(p@.subrange(n as int, p@.len() as int) =~= p@.skip(n as int));
    }
    r
}

fn normalize_for_chars(p: &Vec<char>, windows: bool) -> (r: Vec<char>)
    ensures
        r@ == normalize_for(p@, windows),
{
    let mut out: Vec<char> = Vec::new();
    if windows && has_drive_root_chars(p) {
        out.push(p[0]);
        out.push(p[1]);
        let rest = skip_chars(p, 2);
        normalize_body_into(&mut out, &rest, true);
        proof {
            assert(p@.take(2) =~= seq![p@[0], p@[1]]);
            assert(out@ =~= normalize_for(p@, windows));
        }
    } else if windows && p.len() > 0 && p[0] == '\\' {
        normalize_body_into(&mut out, p, true);
        proof {
            assert(out@ =~= normalize_for(p@, windows));
        }
    } else {
        normalize_body_into(&mut out, p, false);
        proof {
            assert(out@ =~= normalize_for(p@, windows));
        }
    }
    out
}

fn is_wsl_drive_mount_chars(p: &Vec<char>) -> (r: bool)
    ensures
        r == is_wsl_drive_mount(p@),
{
    if p.len() >= 6 && p[0] == '/' && p[1] == 'm' && p[2] == 'n' && p[3] == 't' && p[4] == '/'
        && is_ascii_letter_char(p[5]) && (p.len() == 6 || p[6] == '/') {
        proof {
            assert(p@.take(5) =~= mnt_prefix());
        }
        true
    } else {
        proof {
            if p@.len() >= 6 && p@.take(5) == mnt_prefix() {
                assert(p@.take(5)[0] == p@[0]);
                assert(p@.take(5)[1] == p@[1]);
                assert(p@.take(5)[2] == p@[2]);
                assert(p@.take(5)[3] == p@[3]);
                assert(p@.take(5)[4] == p@[4]);
            }
        }
        false
    }
}

fn to_ascii_upper_char(c: char) -> (r: char)
    ensures
        r == to_ascii_upper(c),
{
    if 'a' <= c && c <= 'z' {
        let code: u8 = ((c as u32) - 32) as u8;
        code as char
    } else {
        c
    }
}

fn wsl_mount_to_windows_chars(p: &Vec<char>) -> (r: Vec<char>)
    requires
        is_wsl_drive_mount(p@),
    ensures
        r@ == wsl_mount_to_windows(p@),
{
    let mut out: Vec<char> = Vec::new();
    out.push(to_ascii_upper_char(p[5]));
    out.push(':');
    let rest = skip_chars(p, 6);
    if rest.len() == 0 {
        let mut root: Vec<char> = Vec::new();
        root.push('/');
        normalize_body_into(&mut out, &root, true);
        proof {
            assert(root@ =~= seq!['/']);
        }
    } else {
        normalize_body_into(&mut out, &rest, true);
    }
    proof {
        assert(out@ =~= wsl_mount_to_windows(p@));
    }
    out
}

fn resolve_write_path_chars(p: &Vec<char>, base: &Option<Vec<char>>, windows: bool) -> (r: Option<
    Vec<char>,
>)
    ensures
        r matches Some(v) ==> resolve_write_path(
            p@,
            match base {
                Some(b) => Some(b@),
                None => None,
            },
            windows,
        ) == Some(v@),
        r is None ==> resolve_write_path(
            p@,
            match base {
                Some(b) => Some(b@),
                None => None,
            },
            windows,
        ) is None,
{
    if windows && is_wsl_drive_mount_chars(p) {
        Some(wsl_mount_to_windows_chars(p))
    } else if (p.len() > 0 && p[0] == '/') || (windows && ((p.len() > 0 && p[0] == '\\')
        || has_drive_root_chars(p))) {
        Some(normalize_for_chars(p, windows))
    } else {
        match base {
            Some(b) => {
                let sep = if windows && (has_drive_root_chars(b) || (b.len() > 0 && b[0] == '\\')) {
                    '\\'
                } else {
                    '/'
                };
                let mut joined = b.clone();
                joined.push(sep);
                append_chars(&mut joined, p);
                proof {
                    assert(sep == join_separator(b@, windows));
                    assert(joined@ =~= b@.push(sep) + p@);
                }
                Some(normalize_for_chars(&joined, windows))
            },
            None => None,
        }
    }
}

/// Resolves the paths that a sandboxed command may write to: absolute paths
/// are kept (lexically normalized), relative ones are joined onto `base` and
/// normalized, and dropped when there is no base. On Windows a WSL drive
/// mount such as `/mnt/c/dir` becomes the drive path `C:\dir`, while other
/// POSIX-rooted paths are kept as they are.
pub fn join_write_paths(paths: &[String], base: Option<&str>, is_windows: bool) -> (r: Vec<
    String,
>)
    ensures
        r.deep_view() == resolve_write_paths(
            paths.deep_view(),
            match base {
                Some(b) => Some(b@),
                None => None,
            },
            is_windows,
        ),
{
    let base_chars: Option<Vec<char>> = match base {
        Some(b) => Some(chars_of(b)),
        None => None,
    };
    let ghost base_view: Option<Seq<char>> = match base {
        Some(b) => Some(b@),
        None => None,
    };
    let mut out: Vec<String> = Vec::new();
    let mut i: usize = 0;
    proof {
        assert(paths.deep_view().take(0) =~= Seq::<Seq<char>>::empty());
        assert(out.deep_view() =~= Seq::<Seq<char>>::empty());
    }
    while i < paths.len()
        invariant
            i <= paths@.len(),
            base_view == match base_chars {
                Some(b) => Some(b@),
                None => None::<Seq<char>>,
            },
            out.deep_view() == resolve_write_paths(
                paths.deep_view().take(i as int),
                base_view,
                is_windows,
            ),
        decreases paths@.len() - i,
    {
        let p = chars_of(paths[i].as_str());
        let ghost before = out.deep_view();
        proof {
            let t = paths.deep_view().take(i + 1);
            assert(t.drop_last() =~= paths.deep_view().take(i as int));
            assert(t.last() == paths@[i as int]@);
        }
        match resolve_write_path_chars(&p, &base_chars, is_windows) {
            Some(v) => {
                let s = string_from_chars(v.as_slice());
                out.push(s);
                proof {
                    assert(out.deep_view() =~= before.push(v@));
                }
            },
            None => {},
        }
        i = i + 1;
    }
    proof {
        assert(paths.deep_view().take(paths@.len() as int) =~= paths.deep_view());
    }
    out
}

} // verus!
