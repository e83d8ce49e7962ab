//! Entries of the debugger's breakpoint list and the breakpoint properties
//! that a debug adapter supports.
use vstd::prelude::*;

use crate::text::{append_chars, chars_of, decimal, push_decimal, string_from_chars};

verus! {

pub const LOG_BIT: u32 = 1;

pub const CONDITION_BIT: u32 = 2;

pub const HIT_CONDITION_BIT: u32 = 4;

/// Conditions for exceptions can be set only when exception filters are supported.
pub const EXCEPTION_FILTER_OPTIONS_BIT: u32 = 8;

/// The breakpoint properties that can be edited, one bit each.
#[derive(Clone, Copy, Debug)]
pub struct SupportedBreakpointProperties {
    pub bits: u32,
}

/// The capabilities of a debug adapter that decide which properties can be
/// edited; an absent capability counts as unsupported.
#[derive(Clone, Copy, Debug)]
pub struct BreakpointCapabilities {
    pub supports_log_points: Option<bool>,
    pub supports_conditional_breakpoints: Option<bool>,
    pub supports_hit_conditional_breakpoints: Option<bool>,
    pub supports_exception_options: Option<bool>,
}

pub open spec fn flag_if(b: Option<bool>, bit: u32) -> u32 {
    if b == Some(true) {
        bit
    } else {
        0
    }
}

fn flag_if_set(b: Option<bool>, bit: u32) -> (r: u32)
    ensures
        r == flag_if(b, bit),
{
    if b == Some(true) {
        bit
    } else {
        0
    }
}

impl SupportedBreakpointProperties {
    pub fn empty() -> (r: Self)
        ensures
            r.bits == 0,
    {
        SupportedBreakpointProperties { bits: 0 }
    }

    /// Whether every property of `other` is supported.
    pub fn contains(&self, other: SupportedBreakpointProperties) -> (r: bool)
        ensures
            r == (self.bits & other.bits == other.bits),
    {
        self.bits & other.bits == other.bits
    }

    /// The properties that the adapter's capabilities allow.
    pub fn from_capabilities(caps: &BreakpointCapabilities) -> (r: Self)
        ensures
            r.bits == flag_if(caps.supports_log_points, LOG_BIT) | flag_if(
                caps.supports_conditional_breakpoints,
                CONDITION_BIT,
            ) | flag_if(caps.supports_hit_conditional_breakpoints, HIT_CONDITION_BIT) | flag_if(
                caps.supports_exception_options,
                EXCEPTION_FILTER_OPTIONS_BIT,
            ),
    {
        let bits = flag_if_set(caps.supports_log_points, LOG_BIT) | flag_if_set(
            caps.supports_conditional_breakpoints,
            CONDITION_BIT,
        ) | flag_if_set(caps.supports_hit_conditional_breakpoints, HIT_CONDITION_BIT)
            | flag_if_set(caps.supports_exception_options, EXCEPTION_FILTER_OPTIONS_BIT);
        SupportedBreakpointProperties { bits }
    }

    /// Exception breakpoints take no conditions yet: nothing is editable.
    pub fn for_exception_breakpoints(self) -> (r: Self)
        ensures
            r.bits == 0,
    {
        Self::empty()
    }

    /// Data breakpoints take no conditions yet: nothing is editable.
    pub fn for_data_breakpoints(self) -> (r: Self)
        ensures
            r.bits == 0,
    {
        Self::empty()
    }
}

/// A source line breakpoint.
pub struct LineBreakpoint {
    pub path: String,
    pub row: u32,
    pub message: Option<String>,
    pub condition: Option<String>,
    pub hit_condition: Option<String>,
}

/// An entry of the breakpoint list.
pub enum BreakpointEntryKind {
    LineBreakpoint(LineBreakpoint),
    ExceptionBreakpoint { id: String },
    DataBreakpoint { data_id: String },
}

pub struct BreakpointEntry {
    pub kind: BreakpointEntryKind,
}

/// How `{:?}` prints a path: quoted, with the characters escaped as the
/// standard library's `Debug` escapes them.
pub uninterp spec fn path_debug_text(path: Seq<char>) -> Seq<char>;

/// `format!("{:?}", Path::new(path))`, the path's `Debug` form. The contract
/// claims only that the text depends on the path alone.
#[verifier::external_body]
fn path_debug(path: &str) -> (r: String)
    ensures
        r@ == path_debug_text(path@),
{
    format!("{:?}", std::path::Path::new(path))
}

pub open spec fn line_id_prefix() -> Seq<char> {
    "source-breakpoint-control-strip-"@
}

pub open spec fn exception_id_prefix() -> Seq<char> {
    "exception-breakpoint-control-strip--"@
}

pub open spec fn data_id_prefix() -> Seq<char> {
    "data-breakpoint-control-strip--"@
}

impl BreakpointEntry {
    /// The element id of the entry's control strip.
    pub fn id(&self) -> (r: String)
        ensures
            r@ == match self.kind {
                BreakpointEntryKind::LineBreakpoint(b) => line_id_prefix() + path_debug_text(b.path@)
                    + seq![':'] + decimal(b.row as nat),
                BreakpointEntryKind::ExceptionBreakpoint { id } => exception_id_prefix() + id@,
                BreakpointEntryKind::DataBreakpoint { data_id } => data_id_prefix() + data_id@,
            },
    {
        match &self.kind {
            BreakpointEntryKind::LineBreakpoint(b) => {
                let mut v = chars_of("source-breakpoint-control-strip-");
                let p = chars_of(path_debug(b.path.as_str()).as_str());
                append_chars(&mut v, &p);
                v.push(':');
                push_decimal(&mut v, b.row as u128);
                proof {
                    assert(v@ =~= line_id_prefix() + path_debug_text(b.path@) + seq![':'] + decimal(
                        b.row as nat,
                    ));
                }
                string_from_chars(v.as_slice())
            },
            BreakpointEntryKind::ExceptionBreakpoint { id } => {
                let mut v = chars_of("exception-breakpoint-control-strip--");
                append_chars(&mut v, &chars_of(id.as_str()));
                string_from_chars(v.as_slice())
            },
            BreakpointEntryKind::DataBreakpoint { data_id } => {
                let mut v = chars_of("data-breakpoint-control-strip--");
                append_chars(&mut v, &chars_of(data_id.as_str()));
                string_from_chars(v.as_slice())
            },
        }
    }

    /// Whether the entry is a line breakpoint with a log message.
    pub fn has_log(&self) -> (r: bool)
        ensures
            r == (self.kind matches BreakpointEntryKind::LineBreakpoint(b) && b.message is Some),
    {
        match &self.kind {
            BreakpointEntryKind::LineBreakpoint(b) => b.message.is_some(),
            _ => false,
        }
    }

    /// Whether the entry is a line breakpoint with a condition; exception and
    /// data breakpoints take none.
    pub fn has_condition(&self) -> (r: bool)
        ensures
            r == (self.kind matches BreakpointEntryKind::LineBreakpoint(b) && b.condition is Some),
    {
        match &self.kind {
            BreakpointEntryKind::LineBreakpoint(b) => b.condition.is_some(),
            _ => false,
        }
    }

    /// Whether the entry is a line breakpoint with a hit condition.
    pub fn has_hit_condition(&self) -> (r: bool)
        ensures
            r == (self.kind matches BreakpointEntryKind::LineBreakpoint(b) && b.hit_condition
                is Some),
    {
        match &self.kind {
            BreakpointEntryKind::LineBreakpoint(b) => b.hit_condition.is_some(),
            _ => false,
        }
    }

    /// The properties that the entry's row offers for editing: all supported
    /// ones for a line breakpoint, none for the other kinds.
    pub fn render(&self, props: SupportedBreakpointProperties) -> (r: SupportedBreakpointProperties)
        ensures
            r.bits == match self.kind {
                BreakpointEntryKind::LineBreakpoint(_) => props.bits,
                _ => 0,
            },
    {
        match &self.kind {
            BreakpointEntryKind::LineBreakpoint(_) => props,
            BreakpointEntryKind::ExceptionBreakpoint { .. } => props.for_exception_breakpoints(),
            BreakpointEntryKind::DataBreakpoint { .. } => props.for_data_breakpoints(),
        }
    }
}

/// The texts of a line breakpoint's row in the breakpoint list.
pub struct LineBreakpointLabels {
    /// The file name and the line, as `name:line`.
    pub label: String,
    /// The directory without its first component, where anything is left.
    pub dir_label: Option<String>,
    /// The tooltip over the directory, where there is one.
    pub dir_tooltip: Option<String>,
    /// The tooltip of the toggle: what a click does.
    pub toggle_tooltip: String,
    /// The toggle shows the enabled-breakpoint icon.
    pub enabled_icon: bool,
}

/// `std::path::Path::components`, each component's text. Nothing is
/// claimed of the split: it differs between platforms.
#[verifier::external_body]
fn path_components(path: &str) -> (r: Vec<String>) {
    std::path::Path::new(path).components().map(|c| c.as_os_str().to_string_lossy().into_owned()).collect()
}

/// `parts` collected into a `std::path::PathBuf`, as text. Nothing is
/// claimed of it: how parts are joined differs between platforms.
#[verifier::external_body]
fn path_from_components(parts: &Vec<String>) -> (r: String) {
    parts.iter().collect::<std::path::PathBuf>().to_string_lossy().into_owned()
}

/// The components after the first.
fn components_after_first(components: &[String]) -> (r: Vec<String>)
    requires
        components@.len() > 0,
    ensures
        r.deep_view() == components.deep_view().skip(1),
{
    let mut rest: Vec<String> = Vec::new();
    let mut i: usize = 1;
    while i < components.len()
        invariant
            1 <= i <= components@.len(),
            rest@.len() == i - 1,
            forall|k: int| 0 <= k < i - 1 ==> #[trigger] rest@[k]@ == components@[k + 1]@,
        decreases components@.len() - i,
    {
        let c = components[i].clone();
        rest.push(c);
        i = i + 1;
    }
    proof {
        let d = rest.deep_view();
        let e = components.deep_view().skip(1);
        assert(d.len() == e.len());
        assert forall|k: int| 0 <= k < d.len() implies d[k] == e[k] by {
            assert(rest@[k]@ == components@[k + 1]@);
        }
        assert(d =~= e);
    }
    rest
}

/// The texts of a line breakpoint's row. `dir_components` are the
/// components of `dir` as the platform splits the path (the root, or else
/// the first name, comes first). The directory label is there exactly when
/// a component follows the first: the rest collected into a path, as the
/// platform writes it.
pub fn line_breakpoint_labels(
    name: &str,
    line: u32,
    dir: Option<&str>,
    dir_components: &[String],
    enabled: bool,
) -> (r: LineBreakpointLabels)
    ensures
        r.label@ == name@ + seq![':'] + decimal(line as nat),
        r.dir_label is Some <==> (dir is Some && dir_components@.len() > 1),
        match dir {
            Some(d) => r.dir_tooltip matches Some(t) && t@ == "Worktree parent path: "@ + d@,
            None => r.dir_tooltip is None,
        },
        r.toggle_tooltip@ == if enabled {
            "Disable Breakpoint"@
        } else {
            "Enable Breakpoint"@
        },
        r.enabled_icon == enabled,
{
    let mut label = chars_of(name);
    label.push(':');
    push_decimal(&mut label, line as u128);
    proof {
        assert(label@ =~= name@ + seq![':'] + decimal(line as nat));
    }
    let (dir_label, dir_tooltip) = match dir {
        Some(d) => {
            let dir_label = if dir_components.len() <= 1 {
                None
            } else {
                let rest = components_after_first(dir_components);
                Some(path_from_components(&rest))
            };
            let mut tip = chars_of("Worktree parent path: ");
            append_chars(&mut tip, &chars_of(d));
            (dir_label, Some(string_from_chars(tip.as_slice())))
        },
        None => (None, None),
    };
    let toggle_tooltip = if enabled {
        String::from_str("Disable Breakpoint")
    } else {
        String::from_str("Enable Breakpoint")
    };
    LineBreakpointLabels {
        label: string_from_chars(label.as_slice()),
        dir_label,
        dir_tooltip,
        toggle_tooltip,
        enabled_icon: enabled,
    }
}

/// The texts of a line breakpoint's row, with the directory split into
/// components by the platform (see `line_breakpoint_labels`, which this
/// calls with that split).
pub fn line_breakpoint_row(name: &str, line: u32, dir: Option<&str>, enabled: bool) -> (r:
    LineBreakpointLabels)
    ensures
        r.label@ == name@ + seq![':'] + decimal(line as nat),
        dir is None ==> r.dir_label is None,
        match dir {
            Some(d) => r.dir_tooltip matches Some(t) && t@ == "Worktree parent path: "@ + d@,
            None => r.dir_tooltip is None,
        },
        r.toggle_tooltip@ == if enabled {
            "Disable Breakpoint"@
        } else {
            "Enable Breakpoint"@
        },
        r.enabled_icon == enabled,
{
    let components = match dir {
        Some(d) => path_components(d),
        None => Vec::new(),
    };
    line_breakpoint_labels(name, line, dir, components.as_slice(), enabled)
}

} // verus!
