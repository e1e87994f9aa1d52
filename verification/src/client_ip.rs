//! The client's address as a reverse proxy reports it: the right-most entry
//! of a comma separated header value (the one the proxy itself appended).
use vstd::prelude::*;

use crate::user::string_bytes;

verus! {

/// The whitespace `str::trim` removes, among ASCII bytes.
pub open spec fn is_ascii_whitespace(b: u8) -> bool {
    b == 9 || b == 10 || b == 11 || b == 12 || b == 13 || b == 32
}

/// Where the last entry of a comma separated list starts: after the last
/// comma, or at the start when there is none.
pub open spec fn last_entry_start(s: Seq<u8>) -> int
    decreases s.len(),
{
    if s.len() == 0 {
        0
    } else if s.last() == 44 {
        s.len() as int
    } else {
        last_entry_start(s.drop_last())
    }
}

/// `s` without leading and trailing whitespace.
pub open spec fn trimmed(s: Seq<u8>) -> Seq<u8>
    decreases s.len(),
{
    if s.len() > 0 && is_ascii_whitespace(s[0]) {
        trimmed(s.subrange(1, s.len() as int))
    } else if s.len() > 0 && is_ascii_whitespace(s.last()) {
        trimmed(s.drop_last())
    } else {
        s
    }
}

proof fn lemma_last_entry_start_bounds(s: Seq<u8>)
    ensures
        0 <= last_entry_start(s) <= s.len(),
        forall|i: int| last_entry_start(s) <= i < s.len() ==> s[i] != 44,
        last_entry_start(s) > 0 ==> s[last_entry_start(s) - 1] == 44,
    decreases s.len(),
{
    if s.len() > 0 && s.last() != 44 {
        let d = s.drop_last();
        lemma_last_entry_start_bounds(d);
        assert forall|i: int| last_entry_start(s) <= i < s.len() implies s[i] != 44 by {
            if i < s.len() - 1 {
                assert(d[i] == s[i]);
            }
        }
        if last_entry_start(s) > 0 {
            assert(d[last_entry_start(s) - 1] == s[last_entry_start(s) - 1]);
        }
    }
}

/// The right-most entry of a comma separated header value, trimmed.
pub fn rightmost_entry(value: &[u8]) -> (r: Vec<u8>)
    ensures
        r@ == trimmed(value@.subrange(last_entry_start(value@), value@.len() as int)),
{
    proof {
        lemma_last_entry_start_bounds(value@);
    }
    // Find the start of the last entry.
    let mut start: usize = value.len();
    assert(value@.subrange(0, value@.len() as int) =~= value@);
    while start > 0 && value[start - 1] != 44
        invariant
            0 <= start <= value@.len(),
            last_entry_start(value@.subrange(0, start as int)) == last_entry_start(value@),
        decreases start,
    {
        assert(value@.subrange(0, start as int).drop_last() =~= value@.subrange(0, start - 1));
        start = start - 1;
    }
    proof {
        if start > 0 {
            assert(value@.subrange(0, start as int).last() == 44);
        } else {
            assert(value@.subrange(0, 0) =~= Seq::<u8>::empty());
        }
    }
    // Trim whitespace on both sides.
    let mut lo: usize = start;
    let mut hi: usize = value.len();
    while lo < hi && (value[lo] == 9 || value[lo] == 10 || value[lo] == 11 || value[lo] == 12 || value[lo] == 13 || value[lo] == 32)
        invariant
            start <= lo <= hi,
            hi == value@.len(),
            trimmed(value@.subrange(lo as int, hi as int)) == trimmed(value@.subrange(start as int, value@.len() as int)),
        decreases hi - lo,
    {
        assert(value@.subrange(lo as int, hi as int).subrange(1, (hi - lo) as int) =~= value@.subrange(lo + 1, hi as int));
        lo = lo + 1;
    }
    while lo < hi && (value[hi - 1] == 9 || value[hi - 1] == 10 || value[hi - 1] == 11 || value[hi - 1] == 12 || value[hi
        - 1] == 13 || value[hi - 1] == 32)
        invariant
            start <= lo <= hi <= value@.len(),
            lo == hi || !is_ascii_whitespace(value@[lo as int]),
            trimmed(value@.subrange(lo as int, hi as int)) == trimmed(value@.subrange(start as int, value@.len() as int)),
        decreases hi - lo,
    {
        let ghost s = value@.subrange(lo as int, hi as int);
        assert(s.drop_last() =~= value@.subrange(lo as int, hi - 1));
        if hi - 1 > lo {
            assert(s[0] == value@[lo as int]);
        } else {
            assert(s.len() == 1);
            assert(s[0] == s.last());
        }
        hi = hi - 1;
    }
    let mut out: Vec<u8> = Vec::new();
    let mut i: usize = lo;
    while i < hi
        invariant
            lo <= i <= hi <= value@.len(),
            out@ == value@.subrange(lo as int, i as int),
        decreases hi - i,
    {
        out.push(value[i]);
        assert(out@ =~= value@.subrange(lo as int, i + 1));
        i = i + 1;
    }
    proof {
        let s = value@.subrange(lo as int, hi as int);
        if s.len() > 0 {
            assert(s[0] == value@[lo as int]);
            assert(s.last() == value@[hi - 1]);
        }
    }
    out
}

/// A byte that a header value may hold to be read as text: visible ASCII or
/// a tab, as `http::HeaderValue::to_str` accepts.
pub open spec fn is_visible_ascii(b: u8) -> bool {
    (32 <= b && b < 127) || b == 9
}

/// The text the client's address is read from, given every value of the
/// reverse proxy's header in order: the right-most entry of the last value,
/// trimmed. `None` when the header has no value, or its last value holds a
/// byte that is not visible ASCII.
pub fn forwarded_address_text(values: &Vec<Vec<u8>>) -> (r: Option<Vec<u8>>)
    ensures
        values@.len() == 0 ==> r is None,
        values@.len() > 0 ==> {
            let v = values@.last()@;
            if forall|i: int| 0 <= i < v.len() ==> is_visible_ascii(#[trigger] v[i]) {
                r matches Some(t) && t@ == trimmed(v.subrange(last_entry_start(v), v.len() as int))
            } else {
                r is None
            }
        },
{
    if values.len() == 0 {
        return None;
    }
    let v = &values[values.len() - 1];
    assert(v@ == values@.last()@);
    let mut i: usize = 0;
    while i < v.len()
        invariant
            0 <= i <= v@.len(),
            values@.len() > 0,
            v@ == values@.last()@,
            forall|j: int| 0 <= j < i ==> is_visible_ascii(#[trigger] v@[j]),
        decreases v@.len() - i,
    {
        let b = v[i];
        if !((32 <= b && b < 127) || b == 9) {
            assert(!is_visible_ascii(v@[i as int]));
            assert(!(forall|j: int| 0 <= j < v@.len() ==> is_visible_ascii(#[trigger] v@[j])));
            return None;
        }
        i = i + 1;
    }
    Some(rightmost_entry(v.as_slice()))
}

/// The header that names the client's address, as configured: a name that
/// is not set, or set empty, means that no reverse proxy is used and the
/// connecting address counts.
pub fn proxy_header_name(setting: Option<String>) -> (r: Option<String>)
    ensures
        match setting {
            Some(s) => if string_bytes(s).len() == 0 {
                r is None
            } else {
                r == Some(s)
            },
            None => r is None,
        },
{
    match setting {
        Some(s) => {
            if s.as_str().as_bytes().len() == 0 {
                None
            } else {
                Some(s)
            }
        },
        None => None,
    }
}

} // verus!
