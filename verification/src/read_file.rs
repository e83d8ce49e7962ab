//! The decisions of the file-reading agent tool: its title, the refusals
//! that settings impose, where its location points and how its result is
//! tagged.
use vstd::prelude::*;

use crate::text::{append_chars, chars_of, decimal, push_decimal, string_from_chars};

verus! {

/// What the model asks the tool to read.
pub struct ReadFileToolInput {
    /// The path of the file, relative to a root of the project.
    pub path: String,
    /// The first line to read (1-based), if any.
    pub start_line: Option<u32>,
    /// The last line to read (1-based, inclusive), if any.
    pub end_line: Option<u32>,
}

/// The title of a call: with a parsed input and a path that the project
/// shows, the path and the requested lines; otherwise a bare "Read file".
pub open spec fn read_file_title(
    lines: Option<(Option<u32>, Option<u32>)>,
    shown_path: Option<Seq<char>>,
) -> Seq<char> {
    match (lines, shown_path) {
        (Some((start, end)), Some(path)) => {
            let head = "Read file `"@ + path + "`"@;
            match (start, end) {
                (Some(s), Some(e)) => head + " (lines "@ + decimal(s as nat) + "-"@ + decimal(
                    e as nat,
                ) + ")"@,
                (Some(s), None) => head + " (from line "@ + decimal(s as nat) + ")"@,
                _ => head,
            }
        },
        _ => "Read file"@,
    }
}

/// The title of a call. `input` is the parsed input (`None` when it did not
/// parse); `shown_path` is the short path that the project gives for it
/// (`None` when the project does not know the path).
pub fn initial_title(input: Option<&ReadFileToolInput>, shown_path: Option<&str>) -> (r: String)
    ensures
        r@ == read_file_title(
            match input {
                Some(i) => Some((i.start_line, i.end_line)),
                None => None,
            },
            match shown_path {
                Some(p) => Some(p@),
                None => None,
            },
        ),
{
    match (input, shown_path) {
        (Some(input), Some(path)) => {
            let mut out = chars_of("Read file `");
            append_chars(&mut out, &chars_of(path));
            append_chars(&mut out, &chars_of("`"));
            let ghost head = out@;
            match (input.start_line, input.end_line) {
                (Some(s), Some(e)) => {
                    append_chars(&mut out, &chars_of(" (lines "));
                    push_decimal(&mut out, s as u128);
                    append_chars(&mut out, &chars_of("-"));
                    push_decimal(&mut out, e as u128);
                    append_chars(&mut out, &chars_of(")"));
                    proof {
                        assert(out@ =~= head + " (lines "@ + decimal(s as nat) + "-"@ + decimal(
                            e as nat,
                        ) + ")"@);
                    }
                },
                (Some(s), None) => {
                    append_chars(&mut out, &chars_of(" (from line "));
                    push_decimal(&mut out, s as u128);
                    append_chars(&mut out, &chars_of(")"));
                    proof {
                        assert(out@ =~= head + " (from line "@ + decimal(s as nat) + ")"@);
                    }
                },
                _ => {},
            }
            string_from_chars(out.as_slice())
        },
        _ => String::from_str("Read file"),
    }
}

/// The row (0-based) that the tool's location points at: the line before
/// the requested start, never below zero.
pub fn location_row(start_line: Option<u32>) -> (r: Option<u32>)
    ensures
        match start_line {
            Some(s) => r == Some((if s == 0 { 0 } else { s - 1 }) as u32),
            None => r is None,
        },
{
    match start_line {
        Some(s) => Some(s.saturating_sub(1)),
        None => None,
    }
}

/// Which settings keep a path from being read.
#[derive(Clone, Copy)]
pub struct PathSettings {
    /// The global `file_scan_exclusions` match the path.
    pub global_excluded: bool,
    /// The global `private_files` match the path.
    pub global_private: bool,
    /// The worktree's `file_scan_exclusions` match the path.
    pub worktree_excluded: bool,
    /// The worktree's `private_files` match the path.
    pub worktree_private: bool,
}

/// The refusal for a path, if settings keep it from being read: the first
/// that applies of global exclusion, global privacy, worktree exclusion and
/// worktree privacy.
pub open spec fn settings_refusal(path: Seq<char>, settings: PathSettings) -> Option<Seq<char>> {
    let prefix = "Cannot read file because its path matches the "@;
    if settings.global_excluded {
        Some(prefix + "global `file_scan_exclusions` setting: "@ + path)
    } else if settings.global_private {
        Some(prefix + "global `private_files` setting: "@ + path)
    } else if settings.worktree_excluded {
        Some(prefix + "worktree `file_scan_exclusions` setting: "@ + path)
    } else if settings.worktree_private {
        Some(prefix + "worktree `private_files` setting: "@ + path)
    } else {
        None
    }
}

/// Checks a path against the settings: `Err` with the refusal when one
/// applies, `Ok` otherwise.
pub fn check_path_settings(path: &str, settings: PathSettings) -> (r: Result<(), String>)
    ensures
        match settings_refusal(path@, settings) {
            Some(m) => r matches Err(e) && e@ == m,
            None => r is Ok,
        },
{
    let setting = if settings.global_excluded {
        "global `file_scan_exclusions` setting: "
    } else if settings.global_private {
        "global `private_files` setting: "
    } else if settings.worktree_excluded {
        "worktree `file_scan_exclusions` setting: "
    } else if settings.worktree_private {
        "worktree `private_files` setting: "
    } else {
        return Ok(());
    };
    let mut out = chars_of("Cannot read file because its path matches the ");
    append_chars(&mut out, &chars_of(setting));
    append_chars(&mut out, &chars_of(path));
    Err(string_from_chars(out.as_slice()))
}

/// The error for a path that names a directory.
pub fn directory_error(path: &str) -> (r: String)
    ensures
        r@ == path@
            + " is a directory, not a file. Use the list_directory tool to explore directory contents."@,
{
    let mut out = chars_of(path);
    append_chars(
        &mut out,
        &chars_of(
            " is a directory, not a file. Use the list_directory tool to explore directory contents.",
        ),
    );
    string_from_chars(out.as_slice())
}

/// The error for a file that is not on disk.
pub fn not_found_error(path: &str) -> (r: String)
    ensures
        r@ == path@ + " not found"@,
{
    let mut out = chars_of(path);
    append_chars(&mut out, &chars_of(" not found"));
    string_from_chars(out.as_slice())
}

/// The tag of the code block that shows a result: none for an outline (it
/// is not source of the file's language), the path otherwise.
pub fn result_tag(path: &str, is_outline: bool) -> (r: String)
    ensures
        is_outline ==> r@ == Seq::<char>::empty(),
        !is_outline ==> r@ == path@,
{
    if is_outline {
        String::new()
    } else {
        String::from_str(path)
    }
}

/// Whether the call reads a range of lines rather than the whole file.
pub fn reads_line_range(input: &ReadFileToolInput) -> (r: bool)
    ensures
        r == (input.start_line is Some || input.end_line is Some),
{
    input.start_line.is_some() || input.end_line.is_some()
}

} // verus!
