//! The options of a text search, as a small bit set, and the helpers shared by
//! the buffer search bar and the project search.
use vstd::prelude::*;

use crate::text::chars_of;

verus! {

/// A set of search options, one bit per option.
#[derive(Clone, Copy, Debug)]
pub struct SearchOptions {
    pub bits: u8,
}

pub const WHOLE_WORD_BIT: u8 = 1;

pub const CASE_SENSITIVE_BIT: u8 = 2;

pub const INCLUDE_IGNORED_BIT: u8 = 4;

pub const REGEX_BIT: u8 = 8;

pub const ONE_MATCH_PER_LINE_BIT: u8 = 16;

/// Reverses the direction when finding the active match (vim search).
pub const BACKWARDS_BIT: u8 = 32;

/// Whether every option of `other` is in `set`.
pub open spec fn contains_bits(set: u8, other: u8) -> bool {
    set & other == other
}

impl SearchOptions {
    pub fn none() -> (r: Self)
        ensures
            r.bits == 0,
    {
        SearchOptions { bits: 0 }
    }

    pub fn whole_word() -> (r: Self)
        ensures
            r.bits == WHOLE_WORD_BIT,
    {
        SearchOptions { bits: WHOLE_WORD_BIT }
    }

    pub fn case_sensitive() -> (r: Self)
        ensures
            r.bits == CASE_SENSITIVE_BIT,
    {
        SearchOptions { bits: CASE_SENSITIVE_BIT }
    }

    pub fn include_ignored() -> (r: Self)
        ensures
            r.bits == INCLUDE_IGNORED_BIT,
    {
        SearchOptions { bits: INCLUDE_IGNORED_BIT }
    }

    pub fn regex() -> (r: Self)
        ensures
            r.bits == REGEX_BIT,
    {
        SearchOptions { bits: REGEX_BIT }
    }

    pub fn one_match_per_line() -> (r: Self)
        ensures
            r.bits == ONE_MATCH_PER_LINE_BIT,
    {
        SearchOptions { bits: ONE_MATCH_PER_LINE_BIT }
    }

    pub fn backwards() -> (r: Self)
        ensures
            r.bits == BACKWARDS_BIT,
    {
        SearchOptions { bits: BACKWARDS_BIT }
    }

    pub fn bits(&self) -> (r: u8)
        ensures
            r == self.bits,
    {
        self.bits
    }

    /// Whether all options of `other` are set.
    pub fn contains(&self, other: SearchOptions) -> (r: bool)
        ensures
            r == contains_bits(self.bits, other.bits),
    {
        self.bits & other.bits == other.bits
    }

    /// Flips the options of `other`.
    pub fn toggle(&mut self, other: SearchOptions)
        ensures
            final(self).bits == old(self).bits ^ other.bits,
    {
        self.bits = self.bits ^ other.bits;
    }

    /// Clears the options of `other`.
    pub fn remove(&mut self, other: SearchOptions)
        ensures
            final(self).bits == old(self).bits & !other.bits,
    {
        self.bits = self.bits & !other.bits;
    }

    /// Sets the options of `other`.
    pub fn insert(&mut self, other: SearchOptions)
        ensures
            final(self).bits == old(self).bits | other.bits,
    {
        self.bits = self.bits | other.bits;
    }

    /// The options that the editor settings enable by default.
    pub fn from_settings(settings: &SearchSettings) -> (r: Self)
        ensures
            contains_bits(r.bits, WHOLE_WORD_BIT) == settings.whole_word,
            contains_bits(r.bits, CASE_SENSITIVE_BIT) == settings.case_sensitive,
            contains_bits(r.bits, INCLUDE_IGNORED_BIT) == settings.include_ignored,
            contains_bits(r.bits, REGEX_BIT) == settings.regex,
            r.bits & 0xf0u8 == 0,
    {
        let w: u8 = if settings.whole_word {
            WHOLE_WORD_BIT
        } else {
            0
        };
        let c: u8 = if settings.case_sensitive {
            CASE_SENSITIVE_BIT
        } else {
            0
        };
        let i: u8 = if settings.include_ignored {
            INCLUDE_IGNORED_BIT
        } else {
            0
        };
        let g: u8 = if settings.regex {
            REGEX_BIT
        } else {
            0
        };
        let bits: u8 = w | c | i | g;
        proof {
            assert((w == 1u8 || w == 0u8) && (c == 2u8 || c == 0u8) && (i == 4u8 || i == 0u8) && (g
                == 8u8 || g == 0u8));
            assert(((w == 1u8 || w == 0u8) && (c == 2u8 || c == 0u8) && (i == 4u8 || i == 0u8) && (g
                == 8u8 || g == 0u8)) ==> ((((w | c | i | g) & 1u8) == 1u8) == (w == 1u8) && (((w
                | c | i | g) & 2u8) == 2u8) == (c == 2u8) && (((w | c | i | g) & 4u8) == 4u8) == (i
                == 4u8) && (((w | c | i | g) & 8u8) == 8u8) == (g == 8u8) && ((w | c | i | g)
                & 0xf0u8) == 0u8)) by (bit_vector);
        }
        SearchOptions { bits }
    }
}

/// The search defaults of the editor settings.
pub struct SearchSettings {
    pub whole_word: bool,
    pub case_sensitive: bool,
    pub include_ignored: bool,
    pub regex: bool,
}

/// Toggling the same options twice restores the set.
pub proof fn lemma_toggle_twice(bits: u8, other: u8)
    ensures
        (bits ^ other) ^ other == bits,
{
    assert((bits ^ other) ^ other == bits) by (bit_vector);
}

/// Toggling a single option flips whether it is set and leaves every other
/// option as it was.
pub proof fn lemma_toggle_single(bits: u8, flag: u8, other_flag: u8)
    requires
        flag == 1u8 || flag == 2u8 || flag == 4u8 || flag == 8u8 || flag == 16u8 || flag == 32u8,
        other_flag == 1u8 || other_flag == 2u8 || other_flag == 4u8 || other_flag == 8u8
            || other_flag == 16u8 || other_flag == 32u8,
        other_flag != flag,
    ensures
        contains_bits(bits ^ flag, flag) == !contains_bits(bits, flag),
        contains_bits(bits ^ flag, other_flag) == contains_bits(bits, other_flag),
{
    assert((flag == 1u8 || flag == 2u8 || flag == 4u8 || flag == 8u8 || flag == 16u8 || flag
        == 32u8) ==> ((((bits ^ flag) & flag) == flag) == !((bits & flag) == flag)))
        by (bit_vector);
    assert((flag == 1u8 || flag == 2u8 || flag == 4u8 || flag == 8u8 || flag == 16u8 || flag
        == 32u8) && (other_flag == 1u8 || other_flag == 2u8 || other_flag == 4u8 || other_flag
        == 8u8 || other_flag == 16u8 || other_flag == 32u8) && other_flag != flag ==> ((((bits
        ^ flag) & other_flag) == other_flag) == ((bits & other_flag) == other_flag)))
        by (bit_vector);
}

/// Whether the character is uppercase, as `char::is_uppercase` decides from
/// the Unicode `Uppercase` property.
pub uninterp spec fn unicode_uppercase(c: char) -> bool;

/// `char::is_uppercase`. The contract claims only that the answer depends on
/// the character alone (named `unicode_uppercase`); which characters are
/// uppercase is left to the Unicode tables of the standard library.
#[verifier::external_body]
fn char_is_uppercase(c: char) -> (r: bool)
    ensures
        r == unicode_uppercase(c),
{
    c.is_uppercase()
}

/// Whether some character of `s` is uppercase.
pub open spec fn has_uppercase(s: Seq<char>) -> bool {
    exists|i: int| 0 <= i < s.len() && unicode_uppercase(s[i])
}

/// Whether the text holds an uppercase character (smart-case searching turns
/// case sensitivity on exactly then).
pub fn contains_uppercase(s: &str) -> (r: bool)
    ensures
        r == has_uppercase(s@),
{
    let chars = chars_of(s);
    let mut i: usize = 0;
    while i < chars.len()
        invariant
            i <= chars@.len(),
            chars@ == s@,
            forall|j: int| 0 <= j < i ==> !unicode_uppercase(#[trigger] chars@[j]),
        decreases chars@.len() - i,
    {
        if char_is_uppercase(chars[i]) {
            return true;
        }
        i = i + 1;
    }
    false
}

/// Whether smart case should toggle case sensitivity: only for a non-empty
/// query, and only when the case-sensitive option disagrees with whether the
/// query holds an uppercase character.
pub open spec fn smartcase_needs_toggle(query: Seq<char>, options: u8) -> bool {
    query.len() > 0 && contains_bits(options, CASE_SENSITIVE_BIT) != has_uppercase(query)
}

/// A search direction.
#[derive(Clone, Copy, Debug, PartialEq, Eq, Structural)]
pub enum Direction {
    Prev,
    Next,
}

impl Direction {
    pub fn opposite(self) -> (r: Direction)
        ensures
            r != self,
    {
        match self {
            Direction::Prev => Direction::Next,
            Direction::Next => Direction::Prev,
        }
    }
}

/// The field reached from position `current` of `count` fields when moving
/// in `direction`, wrapping around at both ends.
pub open spec fn cycled_index(current: nat, count: nat, direction: Direction) -> nat
    recommends
        current < count,
{
    match direction {
        Direction::Next => (current + 1) % (count as int) as nat,
        Direction::Prev => if current == 0 {
            (count - 1) as nat
        } else {
            (current - 1) as nat
        },
    }
}

/// The position that focus moves to when cycling through `count` fields.
pub fn cycle_index(current: usize, count: usize, direction: Direction) -> (r: usize)
    requires
        current < count,
    ensures
        r == cycled_index(current as nat, count as nat, direction),
        r < count,
{
    match direction {
        Direction::Next => (current + 1) % count,
        Direction::Prev => if current == 0 {
            count - 1
        } else {
            proof {
                vstd::arithmetic::div_mod::lemma_small_mod((current - 1) as nat, count as nat);
            }
            (current - 1) % count
        },
    }
}

/// What toggling all folds of a multibuffer does.
#[derive(Clone, Copy, Debug, PartialEq, Eq, Structural)]
pub enum FoldToggle {
    UnfoldAll,
    FoldAll,
}

/// Unfold all when some file is folded, fold all otherwise.
pub open spec fn fold_toggle_for(any_folded: bool) -> FoldToggle {
    if any_folded {
        FoldToggle::UnfoldAll
    } else {
        FoldToggle::FoldAll
    }
}

/// What toggling all folds does, from whether some file is folded.
pub fn fold_toggle(any_folded: bool) -> (r: FoldToggle)
    ensures
        r == fold_toggle_for(any_folded),
{
    if any_folded {
        FoldToggle::UnfoldAll
    } else {
        FoldToggle::FoldAll
    }
}

} // verus!
