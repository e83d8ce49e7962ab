//! Completions of the debugger console's query bar: how adapter completions
//! are sorted, which variables are offered, and which text a completion
//! replaces.
use vstd::prelude::*;

use crate::text::{append_chars, chars_of, decimal, push_decimal, str_equal, string_from_chars};

verus! {

/// The kinds of completion items a debug adapter reports.
#[derive(Clone, Copy, Debug, PartialEq, Eq, Structural)]
pub enum CompletionItemType {
    Method,
    Function,
    Constructor,
    Field,
    Variable,
    Class,
    Interface,
    Module,
    Property,
    Unit,
    Value,
    Enum,
    Keyword,
    Snippet,
    Text,
    Color,
    File,
    Reference,
    CustomColor,
}

/// The rank of a completion kind: fields first, then values, callables,
/// types, everything else.
pub open spec fn type_score(t: CompletionItemType) -> nat {
    match t {
        CompletionItemType::Field | CompletionItemType::Property => 0,
        CompletionItemType::Variable | CompletionItemType::Value => 1,
        CompletionItemType::Method | CompletionItemType::Function
        | CompletionItemType::Constructor => 2,
        CompletionItemType::Class | CompletionItemType::Interface | CompletionItemType::Module => 3,
        _ => 4,
    }
}

pub fn completion_type_score(completion_type: CompletionItemType) -> (r: usize)
    ensures
        r == type_score(completion_type),
{
    match completion_type {
        CompletionItemType::Field | CompletionItemType::Property => 0,
        CompletionItemType::Variable | CompletionItemType::Value => 1,
        CompletionItemType::Method | CompletionItemType::Function
        | CompletionItemType::Constructor => 2,
        CompletionItemType::Class | CompletionItemType::Interface | CompletionItemType::Module => 3,
        _ => 4,
    }
}

/// The rank of every completion kind: fields and properties first (0),
/// then variables and values (1), then methods, functions and constructors
/// (2), then classes, interfaces and modules (3), and every other kind last
/// (4).
pub proof fn lemma_completion_kind_ranks()
    ensures
        type_score(CompletionItemType::Field) == 0,
        type_score(CompletionItemType::Property) == 0,
        type_score(CompletionItemType::Variable) == 1,
        type_score(CompletionItemType::Value) == 1,
        type_score(CompletionItemType::Method) == 2,
        type_score(CompletionItemType::Function) == 2,
        type_score(CompletionItemType::Constructor) == 2,
        type_score(CompletionItemType::Class) == 3,
        type_score(CompletionItemType::Interface) == 3,
        type_score(CompletionItemType::Module) == 3,
        type_score(CompletionItemType::Unit) == 4,
        type_score(CompletionItemType::Enum) == 4,
        type_score(CompletionItemType::Keyword) == 4,
        type_score(CompletionItemType::Snippet) == 4,
        type_score(CompletionItemType::Text) == 4,
        type_score(CompletionItemType::Color) == 4,
        type_score(CompletionItemType::File) == 4,
        type_score(CompletionItemType::Reference) == 4,
        type_score(CompletionItemType::CustomColor) == 4,
{
}

/// An item without its own sort text is keyed by its kind's rank as three
/// digits, an underscore and its label in ASCII lowercase; so a variable
/// `count` sorts as `001_count`, and an item without a kind as a text.
pub proof fn lemma_sort_key_of_unsorted_item(item: CompletionItem)
    requires
        item.sort_text is None,
    ensures
        item.type_ == Some(CompletionItemType::Field) ==> sort_text_of(item) == "000_"@
            + ascii_lowercase(item.label@),
        item.type_ == Some(CompletionItemType::Variable) ==> sort_text_of(item) == "001_"@
            + ascii_lowercase(item.label@),
        item.type_ == Some(CompletionItemType::Function) ==> sort_text_of(item) == "002_"@
            + ascii_lowercase(item.label@),
        item.type_ == Some(CompletionItemType::Module) ==> sort_text_of(item) == "003_"@
            + ascii_lowercase(item.label@),
        item.type_ is None ==> sort_text_of(item) == "004_"@ + ascii_lowercase(item.label@),
{
    reveal_strlit("000_");
    reveal_strlit("001_");
    reveal_strlit("002_");
    reveal_strlit("003_");
    reveal_strlit("004_");
    assert(decimal(0) =~= seq!['0']);
    assert(decimal(1) =~= seq!['1']);
    assert(decimal(2) =~= seq!['2']);
    assert(decimal(3) =~= seq!['3']);
    assert(decimal(4) =~= seq!['4']);
    assert(seq!['0', '0'] + seq!['0'] + seq!['_'] =~= "000_"@);
    assert(seq!['0', '0'] + seq!['1'] + seq!['_'] =~= "001_"@);
    assert(seq!['0', '0'] + seq!['2'] + seq!['_'] =~= "002_"@);
    assert(seq!['0', '0'] + seq!['3'] + seq!['_'] =~= "003_"@);
    assert(seq!['0', '0'] + seq!['4'] + seq!['_'] =~= "004_"@);
}

/// A completion item of a debug adapter.
pub struct CompletionItem {
    pub label: String,
    pub text: Option<String>,
    pub sort_text: Option<String>,
    pub type_: Option<CompletionItemType>,
}

pub open spec fn ascii_lower(c: char) -> char {
    if 'A' <= c && c <= 'Z' {
        ((c as u32) + 32) as char
    } else {
        c
    }
}

/// The text with ASCII capitals made small.
pub open spec fn ascii_lowercase(s: Seq<char>) -> Seq<char> {
    Seq::new(s.len(), |i: int| ascii_lower(s[i]))
}

/// The sort key of an item: its own sort text, or else its kind's rank as
/// three digits, an underscore and its label in ASCII lowercase.
pub open spec fn sort_text_of(item: CompletionItem) -> Seq<char> {
    match item.sort_text {
        Some(t) => t@,
        None => {
            let t = match item.type_ {
                Some(t) => t,
                None => CompletionItemType::Text,
            };
            seq!['0', '0'] + decimal(type_score(t)) + seq!['_'] + ascii_lowercase(item.label@)
        },
    }
}

/// Maps ASCII capitals to small letters.
pub fn to_ascii_lowercase(s: &str) -> (r: String)
    ensures
        r@ == ascii_lowercase(s@),
{
    let chars = chars_of(s);
    let mut out: Vec<char> = Vec::new();
    let mut i: usize = 0;
    while i < chars.len()
        invariant
            i <= chars@.len(),
            out@ == ascii_lowercase(chars@).take(i as int),
        decreases chars@.len() - i,
    {
        let c = chars[i];
        let l = if 'A' <= c && c <= 'Z' {
            let code: u8 = ((c as u32) + 32) as u8;
            code as char
        } else {
            c
        };
        out.push(l);
        proof {
            assert(ascii_lowercase(chars@).take(i + 1) =~= ascii_lowercase(chars@).take(
                i as int,
            ).push(l));
        }
        i = i + 1;
    }
    proof {
        assert(ascii_lowercase(chars@).take(chars@.len() as int) =~= ascii_lowercase(s@));
    }
    string_from_chars(out.as_slice())
}

/// The sort key of an adapter completion.
pub fn completion_item_sort_text(item: &CompletionItem) -> (r: String)
    ensures
        r@ == sort_text_of(*item),
{
    match &item.sort_text {
        Some(t) => t.clone(),
        None => {
            let t = match item.type_ {
                Some(t) => t,
                None => CompletionItemType::Text,
            };
            let score = completion_type_score(t);
            let mut v: Vec<char> = Vec::new();
            v.push('0');
            v.push('0');
            push_decimal(&mut v, score as u128);
            v.push('_');
            let lower = chars_of(to_ascii_lowercase(item.label.as_str()).as_str());
            append_chars(&mut v, &lower);
            proof {
                assert(v@ =~= seq!['0', '0'] + decimal(type_score(t)) + seq!['_'] + ascii_lowercase(
                    item.label@,
                ));
            }
            string_from_chars(v.as_slice())
        },
    }
}

/// The text a completion inserts: its own text, or else its label.
pub fn completion_new_text(item: &CompletionItem) -> (r: String)
    ensures
        r@ == match item.text {
            Some(t) => t@,
            None => item.label@,
        },
{
    match &item.text {
        Some(t) => t.clone(),
        None => item.label.clone(),
    }
}

/// Whether `s` ends with `suffix`.
pub open spec fn ends_with(s: Seq<u8>, suffix: Seq<u8>) -> bool {
    suffix.len() <= s.len() && s.skip(s.len() - suffix.len()) == suffix
}

/// How much of the completion is already typed before the cursor: the
/// longest proper prefix of the completion (shorter than it) that the text
/// before the cursor ends with.
pub open spec fn is_typed_prefix_len(before: Seq<u8>, new_text: Seq<u8>, n: nat) -> bool {
    &&& (n == 0 || n < new_text.len())
    &&& ends_with(before, new_text.take(n as int))
    &&& forall|m: nat| n < m < new_text.len() ==> !ends_with(before, #[trigger] new_text.take(m as int))
}

fn ends_with_bytes(s: &[u8], suffix: &[u8], n: usize) -> (r: bool)
    requires
        n <= suffix@.len(),
    ensures
        r == ends_with(s@, suffix@.take(n as int)),
{
    if n > s.len() {
        return false;
    }
    let len = s.len();
    let off = len - n;
    let mut i: usize = 0;
    while i < n
        invariant
            len == s@.len(),
            n <= suffix@.len(),
            n <= s@.len(),
            off == s@.len() - n,
            off + n == s@.len(),
            i <= n,
            forall|j: int| 0 <= j < i ==> s@[off + j] == suffix@[j],
        decreases n - i,
    {
        if s[off + i] != suffix[i] {
            proof {
                assert(s@.skip(s@.len() - n)[i as int] != suffix@.take(n as int)[i as int]);
            }
            return false;
        }
        i = i + 1;
    }
    proof {
        assert(s@.skip(s@.len() - n) =~= suffix@.take(n as int));
    }
    true
}

/// The length of the typed part of the completion; the completion then
/// replaces the text from that many bytes before the cursor up to it.
pub fn completion_prefix_len(before_cursor: &[u8], new_text: &[u8]) -> (r: usize)
    ensures
        is_typed_prefix_len(before_cursor@, new_text@, r as nat),
        r <= before_cursor@.len(),
{
    let mut i: usize = new_text.len();
    while i > 0
        invariant
            i <= new_text@.len(),
            forall|m: nat| i <= m < new_text@.len() ==> !ends_with(before_cursor@, #[trigger] new_text@.take(m as int)),
        decreases i,
    {
        i = i - 1;
        if ends_with_bytes(before_cursor, new_text, i) {
            return i;
        }
    }
    proof {
        assert(new_text@.take(0) =~= Seq::<u8>::empty());
        assert(before_cursor@.skip(before_cursor@.len() as int) =~= Seq::<u8>::empty());
    }
    0
}

/// Whether `text` is one of the trigger characters.
pub open spec fn is_listed_trigger(triggers: Seq<String>, text: Seq<char>) -> bool {
    exists|k: int| 0 <= k < triggers.len() && triggers[k]@ == text
}

/// Whether typing `text` asks for completions: a word character does when
/// completions trigger inside words; otherwise the adapter's trigger
/// characters decide, and an adapter that names none accepts everything.
pub fn is_completion_trigger(
    text: &str,
    trigger_in_words: bool,
    first_char_is_word: bool,
    trigger_characters: Option<&Vec<String>>,
) -> (r: bool)
    ensures
        r == if text@.len() == 0 {
            false
        } else if trigger_in_words && first_char_is_word {
            true
        } else {
            match trigger_characters {
                Some(ts) => is_listed_trigger(ts@, text@),
                None => true,
            }
        },
{
    if text.unicode_len() == 0 {
        return false;
    }
    if trigger_in_words && first_char_is_word {
        return true;
    }
    match trigger_characters {
        Some(ts) => {
            let mut k: usize = 0;
            while k < ts.len()
                invariant
                    k <= ts@.len(),
                    text@.len() > 0,
                    !(trigger_in_words && first_char_is_word),
                    trigger_characters == Some(ts),
                    forall|j: int| 0 <= j < k ==> ts@[j]@ != text@,
                decreases ts@.len() - k,
            {
                if str_equal(ts[k].as_str(), text) {
                    proof {
                        assert(ts@[k as int]@ == text@);
                        assert(is_listed_trigger(ts@, text@));
                    }
                    return true;
                }
                k = k + 1;
            }
            false
        },
        None => true,
    }
}

/// A variable that the console can complete.
pub struct CompletionVariable {
    pub name: String,
    pub evaluate_name: Option<String>,
    pub value: String,
}

/// The names each variable offers, in order: its evaluate name (if any),
/// then its name.
pub open spec fn offered_names(vars: Seq<CompletionVariable>) -> Seq<Seq<char>>
    decreases vars.len(),
{
    if vars.len() == 0 {
        Seq::empty()
    } else {
        let v = vars.last();
        let init = offered_names(vars.drop_last());
        match v.evaluate_name {
            Some(e) => init.push(e@).push(v.name@),
            None => init.push(v.name@),
        }
    }
}

/// `names` without repeats, each kept where it first occurs.
pub open spec fn first_occurrences(names: Seq<Seq<char>>) -> Seq<Seq<char>>
    decreases names.len(),
{
    if names.len() == 0 {
        Seq::empty()
    } else {
        let init = first_occurrences(names.drop_last());
        if init.contains(names.last()) {
            init
        } else {
            init.push(names.last())
        }
    }
}

proof fn lemma_first_occurrences_members(names: Seq<Seq<char>>, x: Seq<char>)
    ensures
        first_occurrences(names).contains(x) == names.contains(x),
    decreases names.len(),
{
    if names.len() > 0 {
        let init_names = names.drop_last();
        let last = names.last();
        let init = first_occurrences(init_names);
        lemma_first_occurrences_members(init_names, x);
        lemma_first_occurrences_members(init_names, last);
        assert(names.contains(x) == (init_names.contains(x) || x == last)) by {
            if init_names.contains(x) {
                let i = choose|i: int| 0 <= i < init_names.len() && init_names[i] == x;
                assert(names[i] == x);
            }
            if x == last {
                assert(names[names.len() - 1] == x);
            }
            if names.contains(x) && x != last {
                let i = choose|i: int| 0 <= i < names.len() && names[i] == x;
                assert(init_names[i] == x);
            }
        }
        if !init.contains(last) {
            let r = init.push(last);
            assert(r.contains(x) == (init.contains(x) || x == last)) by {
                if init.contains(x) {
                    let i = choose|i: int| 0 <= i < init.len() && init[i] == x;
                    assert(r[i] == x);
                }
                if x == last {
                    assert(r[r.len() - 1] == x);
                }
                if r.contains(x) && x != last {
                    let i = choose|i: int| 0 <= i < r.len() && r[i] == x;
                    assert(init[i] == x);
                }
            }
        }
    }
}

fn contains_string(v: &Vec<String>, s: &str) -> (r: bool)
    ensures
        r == v.deep_view().contains(s@),
{
    let mut i: usize = 0;
    while i < v.len()
        invariant
            i <= v@.len(),
            forall|j: int| 0 <= j < i ==> v@[j]@ != s@,
        decreases v@.len() - i,
    {
        if str_equal(v[i].as_str(), s) {
            proof {
                assert(v.deep_view()[i as int] == s@);
            }
            return true;
        }
        i = i + 1;
    }
    proof {
        if v.deep_view().contains(s@) {
            let j = choose|j: int| 0 <= j < v.deep_view().len() && v.deep_view()[j] == s@;
            assert(v@[j]@ == s@);
        }
    }
    false
}

fn push_if_new(out: &mut Vec<String>, name: &String)
    ensures
        final(out).deep_view() == if old(out).deep_view().contains(name@) {
            old(out).deep_view()
        } else {
            old(out).deep_view().push(name@)
        },
{
    if !contains_string(out, name.as_str()) {
        let ghost before = out.deep_view();
        out.push(name.clone());
        proof {
            assert(out.deep_view() =~= before.push(name@));
        }
    }
}

/// The names offered for completion: every evaluate name and name of the
/// variables, each once, in the order they first come.
pub fn completion_candidates(vars: &[CompletionVariable]) -> (r: Vec<String>)
    ensures
        r.deep_view() == first_occurrences(offered_names(vars@)),
{
    let mut out: Vec<String> = Vec::new();
    let mut i: usize = 0;
    proof {
        assert(vars@.take(0) =~= Seq::<CompletionVariable>::empty());
        assert(out.deep_view() =~= Seq::<Seq<char>>::empty());
    }
    while i < vars.len()
        invariant
            i <= vars@.len(),
            out.deep_view() == first_occurrences(offered_names(vars@.take(i as int))),
        decreases vars@.len() - i,
    {
        let v = &vars[i];
        let ghost prev = offered_names(vars@.take(i as int));
        proof {
            let t = vars@.take(i + 1);
            assert(t.drop_last() =~= vars@.take(i as int));
            assert(t.last() == vars@[i as int]);
        }
        match &v.evaluate_name {
            Some(e) => {
                push_if_new(&mut out, e);
                proof {
                    let s1 = prev.push(e@);
                    assert(s1.drop_last() =~= prev);
                    assert(out.deep_view() == first_occurrences(s1));
                }
                push_if_new(&mut out, &v.name);
                proof {
                    let s2 = prev.push(e@).push(v.name@);
                    assert(s2.drop_last() =~= prev.push(e@));
                    assert(out.deep_view() == first_occurrences(s2));
                    assert(offered_names(vars@.take(i + 1)) == s2);
                }
            },
            None => {
                push_if_new(&mut out, &v.name);
                proof {
                    let s1 = prev.push(v.name@);
                    assert(s1.drop_last() =~= prev);
                    assert(out.deep_view() == first_occurrences(s1));
                    assert(offered_names(vars@.take(i + 1)) == s1);
                }
            },
        }
        i = i + 1;
    }
    proof {
        assert(vars@.take(vars@.len() as int) =~= vars@);
    }
    out
}

/// The offered names hold no name twice, and exactly the names of the
/// variables.
pub proof fn lemma_candidates_unique(vars: Seq<CompletionVariable>)
    ensures
        forall|i: int, j: int|
            0 <= i < j < first_occurrences(offered_names(vars)).len() ==> first_occurrences(
                offered_names(vars),
            )[i] != first_occurrences(offered_names(vars))[j],
        forall|x: Seq<char>|
            first_occurrences(offered_names(vars)).contains(x) == offered_names(vars).contains(x),
{
    lemma_first_occurrences_unique(offered_names(vars));
    assert forall|x: Seq<char>|
        first_occurrences(offered_names(vars)).contains(x) == offered_names(vars).contains(x) by {
        lemma_first_occurrences_members(offered_names(vars), x);
    }
}

proof fn lemma_first_occurrences_unique(names: Seq<Seq<char>>)
    ensures
        forall|i: int, j: int|
            0 <= i < j < first_occurrences(names).len() ==> first_occurrences(names)[i]
                != first_occurrences(names)[j],
    decreases names.len(),
{
    if names.len() > 0 {
        let init = first_occurrences(names.drop_last());
        lemma_first_occurrences_unique(names.drop_last());
        if !init.contains(names.last()) {
            let r = init.push(names.last());
            assert forall|i: int, j: int| 0 <= i < j < r.len() implies r[i] != r[j] by {
                if j == r.len() - 1 {
                    if r[i] == r[j] {
                        assert(init[i] == names.last());
                    }
                }
            }
        }
    }
}

/// Where the console's completions come from.
#[derive(Clone, Copy, Debug, PartialEq, Eq, Structural)]
pub enum CompletionSource {
    /// The debug adapter answers a completions request.
    Adapter,
    /// The variables and scopes the debugger shows.
    VariableList,
}

/// The source of completions: none once the console is gone; the adapter
/// when it supports completion requests; the variable list otherwise.
pub fn completion_source(console_alive: bool, supports_completions_request: Option<bool>) -> (r:
    Option<CompletionSource>)
    ensures
        !console_alive ==> r is None,
        console_alive && supports_completions_request == Some(true) ==> r == Some(
            CompletionSource::Adapter,
        ),
        console_alive && supports_completions_request != Some(true) ==> r == Some(
            CompletionSource::VariableList,
        ),
{
    if !console_alive {
        return None;
    }
    match supports_completions_request {
        Some(true) => Some(CompletionSource::Adapter),
        _ => Some(CompletionSource::VariableList),
    }
}

} // verus!
