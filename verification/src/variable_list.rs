//! Display helpers of the debugger's variable list.
use vstd::prelude::*;

use crate::text::{chars_of, string_from_chars};

verus! {

pub open spec fn ellipsis() -> Seq<char> {
    seq!['.', '.', '.']
}

/// `s` shortened to at most `max(max_chars, 3)` characters by cutting out its
/// middle and putting `...` there; a limit too small for an ellipsis and three
/// characters keeps the first three characters instead.
pub open spec fn center_truncated(s: Seq<char>, max_chars: nat) -> Seq<char> {
    let limit: nat = if max_chars < 3 {
        3
    } else {
        max_chars
    };
    if s.len() <= limit {
        s
    } else if limit < 6 {
        s.take(3)
    } else {
        let available = limit - 3;
        let start = available / 2;
        let end = available - start;
        s.take(start) + ellipsis() + s.skip(s.len() - end)
    }
}

/// Shortens an expression for display, keeping its beginning and its end.
pub fn center_truncate_string(s: &str, max_chars: usize) -> (r: String)
    ensures
        r@ == center_truncated(s@, max_chars as nat),
        r@.len() <= if max_chars < 3 {
            3
        } else {
            max_chars as int
        },
{
    let chars = chars_of(s);
    let limit: usize = if max_chars < 3 {
        3
    } else {
        max_chars
    };
    let n = chars.len();
    if n <= limit {
        return string_from_chars(chars.as_slice());
    }
    let mut out: Vec<char> = Vec::new();
    if limit < 6 {
        let mut i: usize = 0;
        while i < 3
            invariant
                i <= 3,
                n == chars@.len(),
                n > 3,
                out@ == chars@.take(i as int),
            decreases 3 - i,
        {
            out.push(chars[i]);
            proof {
                assert(chars@.take(i + 1) =~= chars@.take(i as int).push(chars@[i as int]));
            }
            i = i + 1;
        }
        return string_from_chars(out.as_slice());
    }
    let available = limit - 3;
    let start = available / 2;
    let end = available - start;
    let mut i: usize = 0;
    while i < start
        invariant
            i <= start,
            start < n,
            n == chars@.len(),
            out@ == chars@.take(i as int),
        decreases start - i,
    {
        out.push(chars[i]);
        proof {
            assert(chars@.take(i + 1) =~= chars@.take(i as int).push(chars@[i as int]));
        }
        i = i + 1;
    }
    out.push('.');
    out.push('.');
    out.push('.');
    let ghost head = out@;
    proof {
        assert(head =~= chars@.take(start as int) + ellipsis());
    }
    let mut j: usize = n - end;
    while j < n
        invariant
            end <= n,
            n - end <= j <= n,
            n == chars@.len(),
            out@ == head + chars@.subrange(n - end, j as int),
        decreases n - j,
    {
        out.push(chars[j]);
        proof {
            assert(chars@.subrange(n - end, j + 1) =~= chars@.subrange(n - end, j as int).push(
                chars@[j as int],
            ));
        }
        j = j + 1;
    }
    proof {
        assert(chars@.subrange(n - end, n as int) =~= chars@.skip(n - end));
    }
    string_from_chars(out.as_slice())
}

} // verus!
