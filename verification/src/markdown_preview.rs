//! Decisions of the Markdown preview: its stored mode, which files it
//! previews, and where clicked links and images lead.
use vstd::prelude::*;

use crate::console_completion::ascii_lowercase;
use crate::paths::{dot, dot_dot, split_chars, split_components, views};
use crate::text::{append_chars, chars_of, chars_skip, chars_start_with, string_from_chars};

verus! {

/// Whether the preview shows one editor or follows the active one.
#[derive(Clone, Copy, Debug, PartialEq, Eq, Structural)]
pub enum MarkdownPreviewMode {
    /// The preview will always show the contents of the provided editor.
    Default,
    /// The preview will "follow" the currently active editor.
    Follow,
}

/// The events a preview emits.
#[derive(Clone, Copy, Debug, PartialEq, Eq, Structural)]
pub enum MarkdownPreviewEvent {
    SourceEditorChanged,
    SourceFileHandleChanged,
}

impl MarkdownPreviewMode {
    /// The number stored for the mode.
    pub fn to_db(self) -> (r: i64)
        ensures
            r == match self {
                MarkdownPreviewMode::Default => 0i64,
                MarkdownPreviewMode::Follow => 1i64,
            },
    {
        match self {
            MarkdownPreviewMode::Default => 0,
            MarkdownPreviewMode::Follow => 1,
        }
    }

    /// The mode of a stored number: 1 follows, anything else is the default.
    pub fn from_db(value: i64) -> (r: Self)
        ensures
            r == if value == 1 {
                MarkdownPreviewMode::Follow
            } else {
                MarkdownPreviewMode::Default
            },
    {
        if value == 1 {
            MarkdownPreviewMode::Follow
        } else {
            MarkdownPreviewMode::Default
        }
    }
}

/// A stored mode reads back as the mode that was stored.
pub proof fn lemma_mode_db_round_trip(mode: MarkdownPreviewMode)
    ensures
        (if (match mode {
            MarkdownPreviewMode::Default => 0i64,
            MarkdownPreviewMode::Follow => 1i64,
        }) == 1 {
            MarkdownPreviewMode::Follow
        } else {
            MarkdownPreviewMode::Default
        }) == mode,
{
}

/// The last component of a path that is neither empty nor `.`.
pub open spec fn last_normal_component(pieces: Seq<Seq<char>>) -> Option<Seq<char>>
    decreases pieces.len(),
{
    if pieces.len() == 0 {
        None
    } else if pieces.last().len() == 0 || pieces.last() == dot() {
        last_normal_component(pieces.drop_last())
    } else {
        Some(pieces.last())
    }
}

/// The file name of a POSIX path: its last component, unless that is `..`.
pub open spec fn file_name(path: Seq<char>) -> Option<Seq<char>> {
    match last_normal_component(split_components(path, false)) {
        Some(c) => if c == dot_dot() {
            None
        } else {
            Some(c)
        },
        None => None,
    }
}

/// The position of the last `.` in `s`.
pub open spec fn last_dot(s: Seq<char>) -> Option<int>
    decreases s.len(),
{
    if s.len() == 0 {
        None
    } else if s.last() == '.' {
        Some(s.len() - 1)
    } else {
        last_dot(s.drop_last())
    }
}

/// The extension of a file name: what follows its last `.`, unless that dot
/// starts the name.
pub open spec fn extension_of(name: Seq<char>) -> Option<Seq<char>> {
    match last_dot(name) {
        Some(i) => if i > 0 {
            Some(name.skip(i + 1))
        } else {
            None
        },
        None => None,
    }
}

/// Whether the path names a Markdown file: extension `md` or `markdown`,
/// ignoring ASCII case.
pub open spec fn is_markdown(path: Seq<char>) -> bool {
    match file_name(path) {
        Some(n) => match extension_of(n) {
            Some(e) => ascii_lowercase(e) == "md"@ || ascii_lowercase(e) == "markdown"@,
            None => false,
        },
        None => false,
    }
}

fn last_normal(pieces: &Vec<Vec<char>>) -> (r: Option<Vec<char>>)
    ensures
        match r {
            Some(v) => last_normal_component(views(pieces@)) == Some(v@),
            None => last_normal_component(views(pieces@)) is None,
        },
{
    let mut i: usize = pieces.len();
    proof {
        assert(views(pieces@).take(i as int) =~= views(pieces@));
    }
    while i > 0
        invariant
            i <= pieces@.len(),
            last_normal_component(views(pieces@)) == last_normal_component(
                views(pieces@).take(i as int),
            ),
        decreases i,
    {
        let p = &pieces[i - 1];
        proof {
            let t = views(pieces@).take(i as int);
            assert(t.last() == p@);
            assert(t.drop_last() =~= views(pieces@).take(i - 1));
        }
        let is_dot = p.len() == 1 && p[0] == '.';
        proof {
            if p@.len() == 1 && p@[0] == '.' {
                assert(p@ =~= dot());
            }
        }
        if !(p.len() == 0 || is_dot) {
            return Some(p.clone());
        }
        i = i - 1;
    }
    None
}

fn extension_chars(name: &Vec<char>) -> (r: Option<Vec<char>>)
    ensures
        match r {
            Some(v) => extension_of(name@) == Some(v@),
            None => extension_of(name@) is None,
        },
{
    let mut i: usize = name.len();
    proof {
        assert(name@.take(i as int) =~= name@);
    }
    while i > 0
        invariant
            i <= name@.len(),
            last_dot(name@) == last_dot(name@.take(i as int)),
        decreases i,
    {
        proof {
            let t = name@.take(i as int);
            assert(t.drop_last() =~= name@.take(i - 1));
        }
        if name[i - 1] == '.' {
            if i - 1 > 0 {
                return Some(chars_skip(name.as_slice(), i));
            } else {
                return None;
            }
        }
        i = i - 1;
    }
    None
}

fn ascii_lower_char(c: char) -> (r: char)
    ensures
        r == crate::console_completion::ascii_lower(c),
{
    if 'A' <= c && c <= 'Z' {
        let code: u8 = ((c as u32) + 32) as u8;
        code as char
    } else {
        c
    }
}

fn equals_ignoring_ascii_case(s: &Vec<char>, lower: &Vec<char>) -> (r: bool)
    ensures
        r == (ascii_lowercase(s@) == lower@),
{
    if s.len() != lower.len() {
        return false;
    }
    let mut i: usize = 0;
    while i < s.len()
        invariant
            s@.len() == lower@.len(),
            i <= s@.len(),
            forall|j: int| 0 <= j < i ==> ascii_lowercase(s@)[j] == lower@[j],
        decreases s@.len() - i,
    {
        if ascii_lower_char(s[i]) != lower[i] {
            return false;
        }
        i = i + 1;
    }
    proof {
        assert(ascii_lowercase(s@) =~= lower@);
    }
    true
}

/// Whether the path names a Markdown file.
pub fn is_markdown_path(path: &str) -> (r: bool)
    ensures
        r == is_markdown(path@),
{
    let chars = chars_of(path);
    let pieces = split_chars(&chars, false);
    match last_normal(&pieces) {
        Some(name) => {
            if name.len() == 2 && name[0] == '.' && name[1] == '.' {
                proof {
                    assert(name@ =~= dot_dot());
                }
                return false;
            }
            proof {
                assert(name@ != dot_dot());
            }
            match extension_chars(&name) {
                Some(ext) => {
                    let md = chars_of("md");
                    let markdown = chars_of("markdown");
                    equals_ignoring_ascii_case(&ext, &md) || equals_ignoring_ascii_case(
                        &ext,
                        &markdown,
                    )
                },
                None => false,
            }
        },
        None => false,
    }
}

/// The part before the first `#` and the fragment after it, if any.
pub open spec fn split_at_hash(url: Seq<char>) -> (Seq<char>, Option<Seq<char>>) {
    if exists|i: int| 0 <= i < url.len() && url[i] == '#' {
        let i = choose|i: int|
            0 <= i < url.len() && url[i] == '#' && forall|j: int| 0 <= j < i ==> url[j] != '#';
        (url.take(i), Some(url.skip(i + 1)))
    } else {
        (url, None)
    }
}

/// Splits a link into its path and its fragment at the first `#`.
pub fn split_preview_url(url: &str) -> (r: (String, Option<String>))
    ensures
        (exists|i: int| 0 <= i < url@.len() && url@[i] == '#') ==> exists|i: int|
            0 <= i < url@.len() && url@[i] == '#' && (forall|j: int| 0 <= j < i ==> url@[j] != '#')
                && r.0@ == url@.take(i) && optional_text(r.1) == Some(url@.skip(i + 1)),
        !(exists|i: int| 0 <= i < url@.len() && url@[i] == '#') ==> r.0@ == url@ && r.1 is None,
{
    let chars = chars_of(url);
    let mut i: usize = 0;
    while i < chars.len()
        invariant
            i <= chars@.len(),
            chars@ == url@,
            forall|j: int| 0 <= j < i ==> chars@[j] != '#',
        decreases chars@.len() - i,
    {
        if chars[i] == '#' {
            let mut head: Vec<char> = Vec::new();
            let mut k: usize = 0;
            while k < i
                invariant
                    k <= i,
                    i < chars@.len(),
                    head@ == chars@.take(k as int),
                decreases i - k,
            {
                head.push(chars[k]);
                proof {
                    assert(chars@.take(k + 1) =~= chars@.take(k as int).push(chars@[k as int]));
                }
                k = k + 1;
            }
            let tail = chars_skip(chars.as_slice(), i + 1);
            return (string_from_chars(head.as_slice()), Some(string_from_chars(tail.as_slice())));
        }
        i = i + 1;
    }
    (String::from_str(url), None)
}

/// What a click on a link does.
pub enum UrlClickAction {
    /// A bare fragment: scroll the preview to the heading with this slug.
    ScrollToHeading(String),
    /// Open the link (a file or a web address), without its fragment.
    Open(String),
    /// An empty link.
    Nothing,
}

/// The action of a click on a link: a link with a path opens it; a bare
/// fragment scrolls to its heading; an empty link does nothing.
pub fn url_click_action(url: &str) -> (r: UrlClickAction)
    ensures
        ({
            let (path, fragment) = split_at_hash(url@);
            match r {
                UrlClickAction::Open(p) => path.len() > 0 && p@ == path,
                UrlClickAction::ScrollToHeading(f) => path.len() == 0 && fragment == Some(f@),
                UrlClickAction::Nothing => path.len() == 0 && fragment is None,
            }
        }),
{
    let (path, fragment) = split_preview_url(url);
    proof {
        lemma_split_at_hash(url@);
    }
    if path.as_str().unicode_len() == 0 {
        match fragment {
            Some(f) => UrlClickAction::ScrollToHeading(f),
            None => UrlClickAction::Nothing,
        }
    } else {
        UrlClickAction::Open(path)
    }
}

proof fn lemma_split_at_hash(url: Seq<char>)
    ensures
        (exists|i: int| 0 <= i < url.len() && url[i] == '#') ==> ({
            let i = choose|i: int|
                0 <= i < url.len() && url[i] == '#' && forall|j: int| 0 <= j < i ==> url[j] != '#';
            &&& 0 <= i < url.len() && url[i] == '#'
            &&& forall|j: int| 0 <= j < i ==> url[j] != '#'
            &&& forall|k: int|
                0 <= k < url.len() && url[k] == '#' && (forall|j: int| 0 <= j < k ==> url[j]
                    != '#') ==> k == i
        }),
{
    if exists|i: int| 0 <= i < url.len() && url[i] == '#' {
        let w = choose|i: int| 0 <= i < url.len() && url[i] == '#';
        let first = first_hash(url, w);
        assert(0 <= first < url.len() && url[first] == '#' && forall|j: int|
            0 <= j < first ==> url[j] != '#');
    }
}

proof fn first_hash(url: Seq<char>, w: int) -> (r: int)
    requires
        0 <= w < url.len(),
        url[w] == '#',
    ensures
        0 <= r <= w,
        url[r] == '#',
        forall|j: int| 0 <= j < r ==> url[j] != '#',
    decreases w,
{
    if exists|j: int| 0 <= j < w && url[j] == '#' {
        let j = choose|j: int| 0 <= j < w && url[j] == '#';
        first_hash(url, j)
    } else {
        w
    }
}

/// The characters of an optional string.
pub open spec fn optional_text(s: Option<String>) -> Option<Seq<char>> {
    match s {
        Some(t) => Some(t@),
        None => None,
    }
}

/// What `urlencoding::decode` makes of a text: the percent-decoded text, or
/// nothing when the decoded bytes are not UTF-8.
pub uninterp spec fn percent_decoded(data: Seq<char>) -> Option<Seq<char>>;

/// `urlencoding::decode`. The contract claims that the result depends on the
/// text alone (named `percent_decoded`) and, as the crate's source shows,
/// that a text without `%` comes back unchanged; how escapes decode is left
/// to the crate.
#[verifier::external_body]
fn url_decode(data: &str) -> (r: Option<String>)
    ensures
        optional_text(r) == percent_decoded(data@),
        !data@.contains('%') ==> optional_text(r) == Some(data@),
{
    match urlencoding::decode(data) {
        Ok(s) => Some(s.into_owned()),
        Err(_) => None,
    }
}

/// The decoded text, or the text itself when it does not decode.
pub open spec fn decoded_or_raw(data: Seq<char>) -> Seq<char> {
    match percent_decoded(data) {
        Some(d) => d,
        None => data,
    }
}

/// The path that a link opens: its part before `#`, percent-decoded (kept
/// as written when it does not decode).
pub fn preview_url_path(url: &str) -> (r: String)
    ensures
        r@ == decoded_or_raw(split_at_hash(url@).0),
{
    let (path, _) = split_preview_url(url);
    proof {
        lemma_split_at_hash(url@);
    }
    match url_decode(path.as_str()) {
        Some(d) => d,
        None => path,
    }
}

/// `base` joined with `rest` as `Path::join` does on POSIX: an absolute
/// `rest` replaces the base; otherwise a `/` goes between them unless the
/// base is empty or already ends with one.
pub open spec fn join_path(base: Seq<char>, rest: Seq<char>) -> Seq<char> {
    if rest.len() > 0 && rest[0] == '/' {
        rest
    } else if base.len() == 0 || base.last() == '/' {
        base + rest
    } else {
        base.push('/') + rest
    }
}

fn join_path_chars(base: &Vec<char>, rest: &Vec<char>) -> (r: Vec<char>)
    ensures
        r@ == join_path(base@, rest@),
{
    if rest.len() > 0 && rest[0] == '/' {
        return rest.clone();
    }
    let mut out = base.clone();
    if !(base.len() == 0 || base[base.len() - 1] == '/') {
        out.push('/');
    }
    append_chars(&mut out, rest);
    out
}

/// Where an image of the preview comes from. Files still have to exist.
pub enum PreviewImage {
    /// Not shown (inline data, or a relative path without a base directory).
    Skip,
    /// A web address.
    Uri(String),
    /// A file under the workspace root (for paths starting with a separator).
    WorkspaceFile(String),
    /// A file (absolute, or relative to the Markdown file's directory).
    File(String),
}

pub open spec fn starts_with_text(s: Seq<char>, prefix: Seq<char>) -> bool {
    prefix.len() <= s.len() && s.take(prefix.len() as int) == prefix
}

/// The source of an image: `data:` links are skipped, web links are used as
/// they are; anything else is percent-decoded, and a leading separator
/// makes it relative to the workspace root when there is one; otherwise an
/// absolute path is used as it is and a relative one is resolved against the
/// Markdown file's directory.
pub open spec fn image_source(dest_url: Seq<char>, base: Option<Seq<char>>, workspace: Option<Seq<char>>) -> PreviewImageSpec {
    if starts_with_text(dest_url, "data:"@) {
        PreviewImageSpec::Skip
    } else if starts_with_text(dest_url, "http://"@) || starts_with_text(dest_url, "https://"@) {
        PreviewImageSpec::Uri(dest_url)
    } else {
        let decoded = decoded_or_raw(dest_url);
        if decoded.len() > 0 && (decoded[0] == '/' || decoded[0] == '\\') && workspace is Some {
            PreviewImageSpec::WorkspaceFile(join_path(workspace->Some_0, decoded.skip(1)))
        } else if decoded.len() > 0 && decoded[0] == '/' {
            PreviewImageSpec::File(decoded)
        } else {
            match base {
                Some(b) => PreviewImageSpec::File(join_path(b, decoded)),
                None => PreviewImageSpec::Skip,
            }
        }
    }
}

/// A relative image path resolves beside the Markdown file: for a source
/// that is neither inline data nor a web address and whose decoded path
/// `p` does not start with a separator, the file is the file's directory
/// `b`, a `/` unless `b` already ends in one, and `p`; so `b` is an
/// ancestor directory of the result. Without such a directory the image is
/// skipped.
pub proof fn lemma_relative_image_beside_markdown_file(
    dest_url: Seq<char>,
    base: Option<Seq<char>>,
    workspace: Option<Seq<char>>,
)
    requires
        !starts_with_text(dest_url, "data:"@),
        !starts_with_text(dest_url, "http://"@),
        !starts_with_text(dest_url, "https://"@),
        decoded_or_raw(dest_url).len() > 0,
        decoded_or_raw(dest_url)[0] != '/',
        decoded_or_raw(dest_url)[0] != '\\',
    ensures
        ({
            let p = decoded_or_raw(dest_url);
            match base {
                Some(b) => {
                    &&& b.len() > 0 && b.last() != '/' ==> image_source(dest_url, base, workspace)
                        == PreviewImageSpec::File(b + seq!['/'] + p)
                    &&& b.len() > 0 && b.last() == '/' ==> image_source(dest_url, base, workspace)
                        == PreviewImageSpec::File(b + p)
                    &&& image_source(dest_url, base, workspace) matches PreviewImageSpec::File(f)
                        && f.len() > b.len() && f.take(b.len() as int) == b && f.skip(
                        f.len() - p.len(),
                    ) == p
                },
                None => image_source(dest_url, base, workspace) == PreviewImageSpec::Skip,
            }
        }),
{
    let p = decoded_or_raw(dest_url);
    match base {
        Some(b) => {
            let f = join_path(b, p);
            if b.len() == 0 || b.last() == '/' {
                assert(f.take(b.len() as int) =~= b);
                assert(f.skip(f.len() - p.len()) =~= p);
            } else {
                assert(f =~= b + seq!['/'] + p);
                assert(f.take(b.len() as int) =~= b);
                assert(f.skip(f.len() - p.len()) =~= p);
            }
        },
        None => {},
    }
}

/// `PreviewImage` with texts as character sequences.
pub enum PreviewImageSpec {
    Skip,
    Uri(Seq<char>),
    WorkspaceFile(Seq<char>),
    File(Seq<char>),
}

pub open spec fn image_view(i: PreviewImage) -> PreviewImageSpec {
    match i {
        PreviewImage::Skip => PreviewImageSpec::Skip,
        PreviewImage::Uri(s) => PreviewImageSpec::Uri(s@),
        PreviewImage::WorkspaceFile(s) => PreviewImageSpec::WorkspaceFile(s@),
        PreviewImage::File(s) => PreviewImageSpec::File(s@),
    }
}

/// Decides where an image of the preview comes from.
pub fn resolve_preview_image(dest_url: &str, base_directory: Option<&str>, workspace_directory: Option<
    &str,
>) -> (r: PreviewImage)
    ensures
        image_view(r) == image_source(
            dest_url@,
            match base_directory {
                Some(b) => Some(b@),
                None => None,
            },
            match workspace_directory {
                Some(w) => Some(w@),
                None => None,
            },
        ),
{
    let chars = chars_of(dest_url);
    if chars_start_with(chars.as_slice(), chars_of("data:").as_slice()) {
        return PreviewImage::Skip;
    }
    if chars_start_with(chars.as_slice(), chars_of("http://").as_slice()) || chars_start_with(
        chars.as_slice(),
        chars_of("https://").as_slice(),
    ) {
        return PreviewImage::Uri(String::from_str(dest_url));
    }
    let decoded_string = match url_decode(dest_url) {
        Some(d) => d,
        None => String::from_str(dest_url),
    };
    let decoded = chars_of(decoded_string.as_str());
    if decoded.len() > 0 && (decoded[0] == '/' || decoded[0] == '\\') {
        match workspace_directory {
            Some(root) => {
                let stripped = chars_skip(decoded.as_slice(), 1);
                let joined = join_path_chars(&chars_of(root), &stripped);
                return PreviewImage::WorkspaceFile(string_from_chars(joined.as_slice()));
            },
            None => {},
        }
    }
    if decoded.len() > 0 && decoded[0] == '/' {
        return PreviewImage::File(decoded_string);
    }
    match base_directory {
        Some(b) => {
            let joined = join_path_chars(&chars_of(b), &decoded);
            PreviewImage::File(string_from_chars(joined.as_slice()))
        },
        None => PreviewImage::Skip,
    }
}

} // verus!
