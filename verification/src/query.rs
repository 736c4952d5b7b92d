//! Parsing of URL query strings and fragments into key/value pairs, with
//! percent-decoding of both keys and values, and lookup by key.

use vstd::prelude::*;
use vstd::slice::slice_to_vec;
use crate::bytes::{
    find_byte, split_on, lemma_find_byte, scan_byte, take_bytes,
    skip_bytes, split_bytes, bytes_eq,
};
use crate::urlenc::{pct_decoded, pct_decode};

verus! {

/// A `key=value` piece, both sides percent-decoded. A piece without `=` or
/// with a side that does not decode yields nothing.
pub open spec fn pair_of(piece: Seq<u8>) -> Option<(Seq<u8>, Seq<u8>)> {
    match find_byte(piece, 61u8) {
        None => None,
        Some(i) => match (pct_decoded(piece.take(i)), pct_decoded(piece.skip(i + 1))) {
            (Some(k), Some(v)) => Some((k, v)),
            _ => None,
        },
    }
}

/// The pairs contributed by a list of pieces, in order, pieces that form no
/// pair dropped.
pub open spec fn pairs_of(pieces: Seq<Seq<u8>>) -> Seq<(Seq<u8>, Seq<u8>)>
    decreases pieces.len(),
{
    if pieces.len() == 0 {
        Seq::<(Seq<u8>, Seq<u8>)>::empty()
    } else {
        match pair_of(pieces[0]) {
            Some(p) => seq![p] + pairs_of(pieces.drop_first()),
            None => pairs_of(pieces.drop_first()),
        }
    }
}

pub proof fn lemma_pairs_of_push(pieces: Seq<Seq<u8>>, x: Seq<u8>)
    ensures
        pairs_of(pieces.push(x)) =~~= pairs_of(pieces) + (match pair_of(x) {
            Some(p) => seq![p],
            None => Seq::<(Seq<u8>, Seq<u8>)>::empty(),
        }),
    decreases pieces.len(),
{
    let t = pieces.push(x);
    let added = (match pair_of(x) {
        Some(p) => seq![p],
        None => Seq::<(Seq<u8>, Seq<u8>)>::empty(),
    });
    assert(t.len() == pieces.len() + 1);
    if pieces.len() == 0 {
        assert(t[0] == x);
        assert(t.drop_first() =~= Seq::<Seq<u8>>::empty());
        assert(pairs_of(t.drop_first()) == Seq::<(Seq<u8>, Seq<u8>)>::empty());
        assert(pairs_of(t) =~~= added);
    } else {
        lemma_pairs_of_push(pieces.drop_first(), x);
        assert(t.drop_first() =~= pieces.drop_first().push(x));
        assert(t[0] == pieces[0]);
        assert(pairs_of(t.drop_first()) =~~= pairs_of(pieces.drop_first()) + added);
        match pair_of(pieces[0]) {
            Some(p) => {
                assert(pairs_of(t) == seq![p] + pairs_of(t.drop_first()));
                assert(pairs_of(pieces) == seq![p] + pairs_of(pieces.drop_first()));
                assert(seq![p] + (pairs_of(pieces.drop_first()) + added) =~~= (seq![p]
                    + pairs_of(pieces.drop_first())) + added);
            },
            None => {
                assert(pairs_of(t) == pairs_of(t.drop_first()));
                assert(pairs_of(pieces) == pairs_of(pieces.drop_first()));
            },
        }
    }
}

/// The decoded key/value pairs of a query or fragment string: pieces between
/// `&`, each split at its first `=`.
pub open spec fn params_of(q: Seq<u8>) -> Seq<(Seq<u8>, Seq<u8>)> {
    pairs_of(split_on(q, 38u8))
}

/// The first value bound to `key`, if any. When a key occurs twice, the
/// first binding wins — the one deliberate rule for every lookup here,
/// query and fragment alike; a well-behaved provider never duplicates a
/// key.
pub open spec fn lookup_param(ps: Seq<(Seq<u8>, Seq<u8>)>, key: Seq<u8>) -> Option<Seq<u8>>
    decreases ps.len(),
{
    if ps.len() == 0 {
        None
    } else if ps[0].0 == key {
        Some(ps[0].1)
    } else {
        lookup_param(ps.drop_first(), key)
    }
}

/// The part of a URL before its fragment: everything up to the first `#`.
pub open spec fn before_fragment(url: Seq<u8>) -> Seq<u8> {
    match find_byte(url, 35u8) {
        None => url,
        Some(h) => url.take(h),
    }
}

/// The query part of a URL: after the first `?` that precedes the
/// fragment; empty when the URL has no query. A `?` inside the fragment is
/// fragment text, not a query.
pub open spec fn query_of(url: Seq<u8>) -> Seq<u8> {
    match find_byte(before_fragment(url), 63u8) {
        None => Seq::<u8>::empty(),
        Some(i) => before_fragment(url).skip(i + 1),
    }
}

/// The fragment part of a URL: everything after the first `#`; empty when
/// the URL has no fragment.
pub open spec fn fragment_of(url: Seq<u8>) -> Seq<u8> {
    match find_byte(url, 35u8) {
        None => Seq::<u8>::empty(),
        Some(i) => url.skip(i + 1),
    }
}

/// The view of an owned pair list.
pub open spec fn pairs_view(v: Seq<(Vec<u8>, Vec<u8>)>) -> Seq<(Seq<u8>, Seq<u8>)> {
    v.map_values(|p: (Vec<u8>, Vec<u8>)| (p.0@, p.1@))
}

fn parse_pair(piece: &Vec<u8>) -> (r: Option<(Vec<u8>, Vec<u8>)>)
    ensures
        match r {
            Some(p) => pair_of(piece@) == Some((p.0@, p.1@)),
            None => pair_of(piece@) is None,
        },
{
    let plen: usize = piece.len();
    match scan_byte(piece.as_slice(), 61u8) {
        None => None,
        Some(i) => {
            proof {
                lemma_find_byte(piece@, 61u8);
                assert(i < plen);
            }
            let k = take_bytes(piece.as_slice(), i);
            let v = skip_bytes(piece.as_slice(), i + 1);
            match pct_decode(k.as_slice()) {
                None => None,
                Some(dk) => match pct_decode(v.as_slice()) {
                    None => None,
                    Some(dv) => Some((dk, dv)),
                },
            }
        },
    }
}

/// Parses a query or fragment string into its decoded key/value pairs.
pub fn parse_params(q: &[u8]) -> (r: Vec<(Vec<u8>, Vec<u8>)>)
    ensures
        pairs_view(r@) == params_of(q@),
{
    let pieces = split_bytes(q, 38u8);
    let mut out: Vec<(Vec<u8>, Vec<u8>)> = Vec::new();
    let n = pieces.len();
    proof {
        assert(pieces.deep_view().take(0int) =~= Seq::<Seq<u8>>::empty());
    }
    for idx in 0..n
        invariant
            n == pieces@.len(),
            pieces.deep_view() == split_on(q@, 38u8),
            pairs_view(out@) =~~= pairs_of(pieces.deep_view().take(idx as int)),
    {
        proof {
            lemma_pairs_of_push(pieces.deep_view().take(idx as int), pieces@[idx as int]@);
            assert(pieces.deep_view()[idx as int] =~= pieces@[idx as int]@);
            assert(pieces.deep_view().take(idx + 1) =~~= pieces.deep_view().take(
                idx as int,
            ).push(pieces@[idx as int]@));
        }
        match parse_pair(&pieces[idx]) {
            Some(p) => {
                out.push(p);
            },
            None => {},
        }
    }
    proof {
        assert(pieces.deep_view().take(n as int) =~~= pieces.deep_view());
        assert(pairs_view(out@) =~~= params_of(q@));
    }
    out
}

/// Looks up the first value bound to `key` in a parsed pair list.
pub fn find_param(ps: &Vec<(Vec<u8>, Vec<u8>)>, key: &[u8]) -> (r: Option<Vec<u8>>)
    ensures
        match r {
            Some(v) => lookup_param(pairs_view(ps@), key@) == Some(v@),
            None => lookup_param(pairs_view(ps@), key@) is None,
        },
{
    let n = ps.len();
    proof {
        assert(pairs_view(ps@).skip(0int) =~= pairs_view(ps@));
    }
    for i in 0..n
        invariant
            n == ps@.len(),
            lookup_param(pairs_view(ps@), key@) == lookup_param(
                pairs_view(ps@).skip(i as int),
                key@,
            ),
    {
        proof {
            assert(pairs_view(ps@).skip(i as int)[0] == (ps@[i as int].0@, ps@[i as int].1@));
        }
        if bytes_eq(ps[i].0.as_slice(), key) {
            return Some(slice_to_vec(ps[i].1.as_slice()));
        }
        proof {
            assert(pairs_view(ps@).skip(i as int).drop_first() =~= pairs_view(ps@).skip(i + 1));
        }
    }
    None
}

/// Extracts the query part of a URL, executable form.
pub fn url_query(url: &[u8]) -> (r: Vec<u8>)
    ensures
        r@ == query_of(url@),
{
    let ulen: usize = url.len();
    let head: Vec<u8> = match scan_byte(url, 35u8) {
        None => slice_to_vec(url),
        Some(h) => {
            proof {
                lemma_find_byte(url@, 35u8);
                assert(h < ulen);
            }
            take_bytes(url, h)
        },
    };
    let hlen: usize = head.len();
    match scan_byte(head.as_slice(), 63u8) {
        None => Vec::new(),
        Some(i) => {
            proof {
                lemma_find_byte(head@, 63u8);
                assert(i < hlen);
            }
            skip_bytes(head.as_slice(), i + 1)
        },
    }
}

/// Extracts the fragment part of a URL, executable form.
pub fn url_fragment(url: &[u8]) -> (r: Vec<u8>)
    ensures
        r@ == fragment_of(url@),
{
    let ulen: usize = url.len();
    match scan_byte(url, 35u8) {
        None => Vec::new(),
        Some(i) => {
            proof {
                lemma_find_byte(url@, 35u8);
                assert(i < ulen);
            }
            skip_bytes(url, i + 1)
        },
    }
}

} // verus!
