//! Percent-encoding of URL query components, and percent-decoding through
//! the `urlencoding` crate.

use vstd::prelude::*;

verus! {

/// Bytes that a query component carries unencoded (RFC 3986 unreserved set).
pub open spec fn is_unreserved(b: u8) -> bool {
    (48 <= b <= 57) || (65 <= b <= 90) || (97 <= b <= 122) || b == 45 || b == 46 || b == 95 || b
        == 126
}

/// Upper-case ASCII hex digit for a value below 16.
pub open spec fn hex_digit(n: u8) -> u8 {
    if n < 10 {
        (48 + n) as u8
    } else {
        (55 + n) as u8
    }
}

/// The percent-encoding of one byte.
pub open spec fn pct_encoded_byte(b: u8) -> Seq<u8> {
    if is_unreserved(b) {
        seq![b]
    } else {
        seq![37u8, hex_digit(b / 16), hex_digit(b % 16)]
    }
}

/// The percent-encoding of a byte sequence: unreserved bytes stand as they
/// are, every other byte becomes `%XX` with upper-case hex digits.
pub open spec fn pct_encoded(s: Seq<u8>) -> Seq<u8>
    decreases s.len(),
{
    if s.len() == 0 {
        Seq::<u8>::empty()
    } else {
        pct_encoded_byte(s[0]) + pct_encoded(s.drop_first())
    }
}

pub proof fn lemma_pct_encoded_push(s: Seq<u8>, c: u8)
    ensures
        pct_encoded(s.push(c)) =~= pct_encoded(s) + pct_encoded_byte(c),
    decreases s.len(),
{
    let t = s.push(c);
    assert(t.len() == s.len() + 1);
    if s.len() == 0 {
        assert(t[0] == c);
        assert(t.drop_first() =~= Seq::<u8>::empty());
        assert(pct_encoded(t) == pct_encoded_byte(c) + pct_encoded(t.drop_first()));
        assert(pct_encoded(Seq::<u8>::empty()) == Seq::<u8>::empty());
    } else {
        lemma_pct_encoded_push(s.drop_first(), c);
        assert(t.drop_first() =~= s.drop_first().push(c));
        assert(t[0] == s[0]);
    }
}

/// Executable percent-encoder.
pub fn pct_encode(s: &[u8]) -> (r: Vec<u8>)
    ensures
        r@ == pct_encoded(s@),
{
    let mut r: Vec<u8> = Vec::new();
    let n = s.len();
    for i in 0..n
        invariant
            n == s@.len(),
            r@ =~= pct_encoded(s@.take(i as int)),
    {
        proof {
            lemma_pct_encoded_push(s@.take(i as int), s@[i as int]);
            assert(s@.take(i + 1) =~= s@.take(i as int).push(s@[i as int]));
        }
        let b = s[i];
        if (48 <= b && b <= 57) || (65 <= b && b <= 90) || (97 <= b && b <= 122) || b == 45 || b
            == 46 || b == 95 || b == 126 {
            r.push(b);
        } else {
            r.push(37);
            let hi = b / 16;
            let lo = b % 16;
            r.push(if hi < 10 {
                48 + hi
            } else {
                55 + hi
            });
            r.push(if lo < 10 {
                48 + lo
            } else {
                55 + lo
            });
        }
    }
    assert(s@.take(n as int) =~= s@);
    r
}

/// What `urlencoding::decode` returns on a given input, when it succeeds:
/// the input with every well-formed `%XX` escape replaced by its byte.
pub uninterp spec fn pct_decoded(s: Seq<u8>) -> Option<Seq<u8>>;

/// Relies on `urlencoding::decode`: percent-decodes a UTF-8 string, failing
/// only when the input or the decoded output is not valid UTF-8. The result
/// depends on the input bytes alone.
#[verifier::external_body]
pub fn pct_decode(s: &[u8]) -> (r: Option<Vec<u8>>)
    ensures
        match r {
            Some(v) => pct_decoded(s@) == Some(v@),
            None => pct_decoded(s@) is None,
        },
{
    match core::str::from_utf8(s) {
        Ok(t) => match urlencoding::decode(t) {
            Ok(d) => Some(d.into_owned().into_bytes()),
            Err(_) => None,
        },
        Err(_) => None,
    }
}

} // verus!
