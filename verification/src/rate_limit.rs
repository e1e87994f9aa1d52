//! The text form of a collection of rate limits,
//! `window1=max_amount1;window2=max_amount2`: the library splits it into the
//! text of each window and amount, which the application reads as numbers.
use vstd::prelude::*;

use crate::bytes::extend_bytes;
use crate::number::slice_range;

verus! {

/// The pieces of `s` between the separators `sep`, as `str::split` gives
/// them: one more than there are separators, empty pieces included.
pub open spec fn split_by(s: Seq<u8>, sep: u8) -> Seq<Seq<u8>>
    decreases s.len(),
{
    if s.len() == 0 {
        seq![Seq::<u8>::empty()]
    } else {
        let p = split_by(s.drop_last(), sep);
        if s.last() == sep {
            p.push(Seq::<u8>::empty())
        } else {
            p.update(p.len() - 1, p.last().push(s.last()))
        }
    }
}

/// `i` is where the first `=` of `p` stands.
pub open spec fn is_first_equals(p: Seq<u8>, i: int) -> bool {
    &&& 0 <= i < p.len()
    &&& p[i] == 61
    &&& forall|j: int| 0 <= j < i ==> p[j] != 61
}

/// A piece split at its first `=`, as `str::splitn(2, '=')` splits it:
/// `None` when it has no `=`.
pub open spec fn split_at_equals(p: Seq<u8>) -> Option<(Seq<u8>, Seq<u8>)> {
    if exists|i: int| is_first_equals(p, i) {
        let i = choose|i: int| is_first_equals(p, i);
        Some((p.take(i), p.skip(i + 1)))
    } else {
        None
    }
}

/// The window and amount texts of each limit, in order; `None` when a limit
/// has no `=`.
pub open spec fn spec_rate_limit_texts(s: Seq<u8>) -> Option<Seq<(Seq<u8>, Seq<u8>)>> {
    let pieces = split_by(s, 59);
    if forall|i: int| 0 <= i < pieces.len() ==> (#[trigger] split_at_equals(pieces[i])) is Some {
        Some(pieces.map_values(|p: Seq<u8>| split_at_equals(p)->Some_0))
    } else {
        None
    }
}

proof fn lemma_split_by_nonempty(s: Seq<u8>, sep: u8)
    ensures
        split_by(s, sep).len() >= 1,
    decreases s.len(),
{
    if s.len() > 0 {
        lemma_split_by_nonempty(s.drop_last(), sep);
    }
}

/// The views of a vector of byte vectors.
pub open spec fn views(v: Seq<Vec<u8>>) -> Seq<Seq<u8>> {
    v.map_values(|x: Vec<u8>| x@)
}

/// Splits `s` at every `sep`.
fn split_bytes(s: &[u8], sep: u8) -> (r: Vec<Vec<u8>>)
    ensures
        views(r@) == split_by(s@, sep),
{
    let mut pieces: Vec<Vec<u8>> = Vec::new();
    let mut current: Vec<u8> = Vec::new();
    let mut i: usize = 0;
    assert(s@.take(0) =~= Seq::<u8>::empty());
    assert(views(pieces@).push(current@) =~= split_by(s@.take(0), sep));
    while i < s.len()
        invariant
            0 <= i <= s@.len(),
            views(pieces@).push(current@) == split_by(s@.take(i as int), sep),
        decreases s@.len() - i,
    {
        let c = s[i];
        let ghost before = s@.take(i as int);
        assert(s@.take(i + 1).drop_last() =~= before);
        assert(s@.take(i + 1).last() == c);
        proof {
            lemma_split_by_nonempty(before, sep);
        }
        if c == sep {
            let ghost old_pieces = views(pieces@);
            let ghost old_current = current@;
            pieces.push(current);
            current = Vec::new();
            assert(views(pieces@) =~= old_pieces.push(old_current));
            assert(views(pieces@).push(current@) =~= split_by(before, sep).push(Seq::<u8>::empty()));
        } else {
            let ghost old_pieces = views(pieces@);
            current.push(c);
            assert(views(pieces@).push(current@) =~= split_by(before, sep).update(
                split_by(before, sep).len() - 1,
                split_by(before, sep).last().push(c),
            ));
        }
        i = i + 1;
    }
    assert(s@.take(s@.len() as int) =~= s@);
    let ghost old_pieces = views(pieces@);
    let ghost last = current@;
    pieces.push(current);
    assert(views(pieces@) =~= old_pieces.push(last));
    pieces
}

/// Copies `s[start..end]` into a new vector.
fn copy_range(s: &[u8], start: usize, end: usize) -> (r: Vec<u8>)
    requires
        start <= end <= s@.len(),
    ensures
        r@ == s@.subrange(start as int, end as int),
{
    let mut out: Vec<u8> = Vec::new();
    extend_bytes(&mut out, slice_range(s, start, end));
    assert(out@ =~= s@.subrange(start as int, end as int));
    out
}

/// Splits a piece at its first `=`.
fn split_piece(p: &[u8]) -> (r: Option<(Vec<u8>, Vec<u8>)>)
    ensures
        match r {
            Some(pair) => split_at_equals(p@) == Some((pair.0@, pair.1@)),
            None => split_at_equals(p@) is None,
        },
{
    let mut i: usize = 0;
    while i < p.len() && p[i] != 61
        invariant
            0 <= i <= p@.len(),
            forall|j: int| 0 <= j < i ==> p@[j] != 61,
        decreases p@.len() - i,
    {
        i = i + 1;
    }
    if i == p.len() {
        assert(!exists|k: int| is_first_equals(p@, k));
        None
    } else {
        assert(is_first_equals(p@, i as int));
        let ghost k = choose|k: int| is_first_equals(p@, k);
        assert(k == i) by {
            if k < i {
                assert(p@[k] != 61);
            } else if k > i {
                assert(p@[i as int] != 61);
            }
        }
        let before = copy_range(p, 0, i);
        let after = copy_range(p, i + 1, p.len());
        assert(before@ =~= p@.take(i as int));
        assert(after@ =~= p@.skip(i + 1));
        Some((before, after))
    }
}

/// Splits a collection of rate limits into the text of each window and
/// amount, in order. `None` when a limit has no `=`.
pub fn rate_limit_texts(s: &[u8]) -> (r: Option<Vec<(Vec<u8>, Vec<u8>)>>)
    ensures
        match r {
            Some(v) => spec_rate_limit_texts(s@) == Some(v@.map_values(|t: (Vec<u8>, Vec<u8>)| (t.0@, t.1@))),
            None => spec_rate_limit_texts(s@) is None,
        },
{
    let pieces = split_bytes(s, 59);
    let ghost spec_pieces = split_by(s@, 59);
    let mut out: Vec<(Vec<u8>, Vec<u8>)> = Vec::new();
    let mut i: usize = 0;
    while i < pieces.len()
        invariant
            0 <= i <= pieces@.len(),
            views(pieces@) == spec_pieces,
            spec_pieces == split_by(s@, 59),
            out@.len() == i,
            forall|j: int| 0 <= j < i ==> (#[trigger] split_at_equals(spec_pieces[j])) == Some((out@[j].0@, out@[j].1@)),
        decreases pieces@.len() - i,
    {
        assert(spec_pieces[i as int] == pieces@[i as int]@);
        match split_piece(pieces[i].as_slice()) {
            Some(pair) => {
                out.push(pair);
            },
            None => {
                assert(!(split_at_equals(spec_pieces[i as int]) is Some));
                return None;
            },
        }
        i = i + 1;
    }
    assert(forall|j: int| 0 <= j < spec_pieces.len() ==> (#[trigger] split_at_equals(spec_pieces[j])) is Some);
    assert(spec_pieces.map_values(|p: Seq<u8>| split_at_equals(p)->Some_0) =~= out@.map_values(
        |t: (Vec<u8>, Vec<u8>)| (t.0@, t.1@),
    ));
    Some(out)
}

} // verus!
