//! Byte-sequence primitives shared by the URL and query parsers: first
//! occurrence of a byte, splitting on a separator, sub-slices, equality and
//! ASCII case-insensitive prefix matching.

use vstd::prelude::*;
use vstd::slice::slice_to_vec;
use vstd::string::StringSliceAdditionalSpecFns;

verus! {

/// The UTF-8 bytes of a string literal, as an owned vector.
pub fn str_bytes(s: &str) -> (r: Vec<u8>)
    ensures
        r@ == s.spec_bytes(),
{
    slice_to_vec(s.as_bytes())
}

/// Index of the first occurrence of `b` in `s`, if any.
pub open spec fn find_byte(s: Seq<u8>, b: u8) -> Option<int>
    decreases s.len(),
{
    if s.len() == 0 {
        None
    } else if s[0] == b {
        Some(0int)
    } else {
        match find_byte(s.drop_first(), b) {
            Some(i) => Some(i + 1),
            None => None,
        }
    }
}

/// `find_byte` returns the least index holding `b`, or `None` when `b` does
/// not occur.
pub proof fn lemma_find_byte(s: Seq<u8>, b: u8)
    ensures
        match find_byte(s, b) {
            Some(i) => 0 <= i < s.len() && s[i] == b && (forall|j: int|
                0 <= j < i ==> s[j] != b),
            None => forall|j: int| 0 <= j < s.len() ==> s[j] != b,
        },
    decreases s.len(),
{
    if s.len() != 0 && s[0] != b {
        lemma_find_byte(s.drop_first(), b);
        assert(forall|j: int| 1 <= j < s.len() ==> s[j] == s.drop_first()[j - 1]);
    }
}

/// Pieces of `s` between occurrences of `sep`; always at least one piece,
/// and an empty input yields one empty piece.
pub open spec fn split_on(s: Seq<u8>, sep: u8) -> Seq<Seq<u8>>
    decreases s.len(),
{
    if s.len() == 0 {
        seq![Seq::<u8>::empty()]
    } else if s[0] == sep {
        seq![Seq::<u8>::empty()] + split_on(s.drop_first(), sep)
    } else {
        let rest = split_on(s.drop_first(), sep);
        seq![seq![s[0]] + rest[0]] + rest.drop_first()
    }
}

pub proof fn lemma_split_on_nonempty(s: Seq<u8>, sep: u8)
    ensures
        split_on(s, sep).len() >= 1,
    decreases s.len(),
{
    if s.len() != 0 {
        lemma_split_on_nonempty(s.drop_first(), sep);
    }
}

/// Appending a non-separator byte extends the last piece; appending the
/// separator opens a new empty piece.
pub proof fn lemma_split_on_push(s: Seq<u8>, sep: u8, c: u8)
    ensures
        split_on(s, sep).len() >= 1,
        c != sep ==> split_on(s.push(c), sep) =~~= split_on(s, sep).update(
            split_on(s, sep).len() - 1,
            split_on(s, sep).last().push(c),
        ),
        c == sep ==> split_on(s.push(c), sep) =~~= split_on(s, sep) + seq![Seq::<u8>::empty()],
    decreases s.len(),
{
    lemma_split_on_nonempty(s, sep);
    let t = s.push(c);
    assert(t.len() == s.len() + 1);
    if s.len() == 0 {
        assert(t[0] == c);
        assert(t.drop_first() =~= Seq::<u8>::empty());
        assert(split_on(Seq::<u8>::empty(), sep) == seq![Seq::<u8>::empty()]);
        if c == sep {
            assert(split_on(t, sep) == seq![Seq::<u8>::empty()] + split_on(t.drop_first(), sep));
        } else {
            let rest = split_on(t.drop_first(), sep);
            assert(split_on(t, sep) == seq![seq![t[0]] + rest[0]] + rest.drop_first());
            assert(split_on(t, sep) =~~= seq![seq![c]]);
            assert(split_on(s, sep).last() =~= Seq::<u8>::empty());
        }
    } else {
        lemma_split_on_push(s.drop_first(), sep, c);
        lemma_split_on_nonempty(s.drop_first(), sep);
        assert(t.drop_first() =~= s.drop_first().push(c));
        assert(t[0] == s[0]);
        let rest = split_on(s.drop_first(), sep);
        let restp = split_on(t.drop_first(), sep);
        if s[0] == sep {
            assert(split_on(t, sep) == seq![Seq::<u8>::empty()] + restp);
            assert(split_on(s, sep) == seq![Seq::<u8>::empty()] + rest);
        } else {
            assert(split_on(t, sep) == seq![seq![t[0]] + restp[0]] + restp.drop_first());
            assert(split_on(s, sep) == seq![seq![s[0]] + rest[0]] + rest.drop_first());
            if c != sep {
                if rest.len() == 1 {
                    assert(restp[0] == rest[0].push(c));
                } else {
                    assert(restp[0] == rest[0]);
                }
            }
        }
    }
}

/// First occurrence of `b` in `s`, executable form.
pub fn scan_byte(s: &[u8], b: u8) -> (r: Option<usize>)
    ensures
        match r {
            Some(i) => find_byte(s@, b) == Some(i as int),
            None => find_byte(s@, b) is None,
        },
{
    proof {
        lemma_find_byte(s@, b);
    }
    let n = s.len();
    for i in 0..n
        invariant
            n == s@.len(),
            forall|j: int| 0 <= j < i ==> s@[j] != b,
    {
        if s[i] == b {
            proof {
                lemma_find_byte(s@, b);
            }
            return Some(i);
        }
    }
    None
}

/// The first `n` bytes of `v` as a fresh vector.
pub fn take_bytes(v: &[u8], n: usize) -> (r: Vec<u8>)
    requires
        n <= v@.len(),
    ensures
        r@ == v@.take(n as int),
{
    let mut r: Vec<u8> = Vec::new();
    for i in 0..n
        invariant
            n <= v@.len(),
            r@ =~= v@.take(i as int),
    {
        r.push(v[i]);
        assert(r@ =~= v@.take(i + 1));
    }
    r
}

/// All bytes of `v` from position `n` on, as a fresh vector.
pub fn skip_bytes(v: &[u8], n: usize) -> (r: Vec<u8>)
    requires
        n <= v@.len(),
    ensures
        r@ == v@.skip(n as int),
{
    let mut r: Vec<u8> = Vec::new();
    let len = v.len();
    for i in n..len
        invariant
            n <= len,
            len == v@.len(),
            r@ =~= v@.subrange(n as int, i as int),
    {
        r.push(v[i]);
        assert(r@ =~= v@.subrange(n as int, i + 1));
    }
    assert(r@ =~= v@.skip(n as int));
    r
}

/// Splits `s` at every occurrence of `sep`.
pub fn split_bytes(s: &[u8], sep: u8) -> (r: Vec<Vec<u8>>)
    ensures
        r.deep_view() == split_on(s@, sep),
{
    let mut out: Vec<Vec<u8>> = Vec::new();
    let mut cur: Vec<u8> = Vec::new();
    let n = s.len();
    for i in 0..n
        invariant
            n == s@.len(),
            out.deep_view() + seq![cur@] =~~= split_on(s@.take(i as int), sep),
    {
        proof {
            lemma_split_on_push(s@.take(i as int), sep, s@[i as int]);
            assert(s@.take(i + 1) =~= s@.take(i as int).push(s@[i as int]));
        }
        if s[i] == sep {
            out.push(cur);
            cur = Vec::new();
        } else {
            cur.push(s[i]);
            proof {
                let pre = split_on(s@.take(i as int), sep);
                assert((out.deep_view() + seq![cur@]) =~~= pre.update(
                    pre.len() - 1,
                    pre.last().push(s@[i as int]),
                ));
            }
        }
    }
    assert(s@.take(n as int) =~= s@);
    out.push(cur);
    assert(out.deep_view() =~~= split_on(s@, sep));
    out
}

/// Bytewise equality of two slices.
pub fn bytes_eq(a: &[u8], b: &[u8]) -> (r: bool)
    ensures
        r <==> a@ == b@,
{
    if a.len() != b.len() {
        return false;
    }
    let n = a.len();
    for i in 0..n
        invariant
            n == a@.len() == b@.len(),
            forall|j: int| 0 <= j < i ==> a@[j] == b@[j],
    {
        if a[i] != b[i] {
            return false;
        }
    }
    assert(a@ =~= b@);
    true
}

/// ASCII lower-casing of one byte.
pub open spec fn lower_byte(b: u8) -> u8 {
    if 65 <= b <= 90 {
        (b + 32) as u8
    } else {
        b
    }
}

/// ASCII lower-casing of a byte sequence.
pub open spec fn lower_bytes(s: Seq<u8>) -> Seq<u8> {
    s.map_values(|b: u8| lower_byte(b))
}

/// `p` is a prefix of `s` up to ASCII case.
pub open spec fn is_prefix_nocase(p: Seq<u8>, s: Seq<u8>) -> bool {
    p.len() <= s.len() && lower_bytes(s.take(p.len() as int)) == lower_bytes(p)
}

/// Executable ASCII case-insensitive prefix test.
pub fn starts_with_nocase(s: &[u8], p: &[u8]) -> (r: bool)
    ensures
        r <==> is_prefix_nocase(p@, s@),
{
    if p.len() > s.len() {
        return false;
    }
    let n = p.len();
    for i in 0..n
        invariant
            n == p@.len(),
            n <= s@.len(),
            forall|j: int| 0 <= j < i ==> lower_byte(s@[j]) == lower_byte(p@[j]),
    {
        let sc = s[i];
        let pc = p[i];
        let sl = if 65 <= sc && sc <= 90 {
            sc + 32
        } else {
            sc
        };
        let pl = if 65 <= pc && pc <= 90 {
            pc + 32
        } else {
            pc
        };
        if sl != pl {
            proof {
                assert(lower_bytes(s@.take(p@.len() as int))[i as int] == lower_byte(s@[i as int]));
                assert(lower_bytes(p@)[i as int] == lower_byte(p@[i as int]));
            }
            return false;
        }
    }
    assert(lower_bytes(s@.take(p@.len() as int)) =~= lower_bytes(p@));
    true
}

} // verus!
