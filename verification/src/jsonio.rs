//! JSON field extraction through `serde_json`. The provider's responses are
//! flat JSON objects (or one array of them); the library reads single
//! fields through these trusted accessors and does all decision logic on
//! the returned plain values.

use vstd::prelude::*;

verus! {

/// What extracting the string field `key` from the JSON object `body`
/// yields: the field's string value as UTF-8 bytes, or nothing when the
/// body does not parse, the field is absent, or it is not a string.
pub uninterp spec fn json_str_field_of(body: Seq<u8>, key: Seq<char>) -> Option<Seq<u8>>;

/// What extracting the unsigned-integer field `key` from the JSON object
/// `body` yields.
pub uninterp spec fn json_u64_field_of(body: Seq<u8>, key: Seq<char>) -> Option<u64>;

/// What extracting three string fields from every element of the JSON
/// array `body` yields: one row per element, in array order, or nothing
/// when the body is not an array of objects each carrying all three
/// string fields.
pub uninterp spec fn json_rows_of(body: Seq<u8>, k1: Seq<char>, k2: Seq<char>, k3: Seq<char>) -> Option<
    Seq<(Seq<u8>, Seq<u8>, Seq<u8>)>,
>;

/// The view of an owned row list.
pub open spec fn rows_view(v: Seq<(Vec<u8>, Vec<u8>, Vec<u8>)>) -> Seq<(Seq<u8>, Seq<u8>, Seq<u8>)> {
    v.map_values(|r: (Vec<u8>, Vec<u8>, Vec<u8>)| (r.0@, r.1@, r.2@))
}

/// Relies on `serde_json::from_slice` and `Value::get`/`as_str`: parses
/// `body` as JSON and returns the string value at `key` of the top-level
/// object. Deterministic in `body` and `key`.
#[verifier::external_body]
pub fn json_str_field(body: &[u8], key: &str) -> (r: Option<Vec<u8>>)
    ensures
        match r {
            Some(v) => json_str_field_of(body@, key@) == Some(v@),
            None => json_str_field_of(body@, key@) is None,
        },
{
    match serde_json::from_slice::<serde_json::Value>(body) {
        Ok(j) => match j.get(key) {
            Some(f) => f.as_str().map(|s| s.as_bytes().to_vec()),
            None => None,
        },
        Err(_) => None,
    }
}

/// Relies on `serde_json::from_slice` and `Value::get`/`as_u64`: parses
/// `body` as JSON and returns the unsigned-integer value at `key` of the
/// top-level object. Deterministic in `body` and `key`.
#[verifier::external_body]
pub fn json_u64_field(body: &[u8], key: &str) -> (r: Option<u64>)
    ensures
        match r {
            Some(v) => json_u64_field_of(body@, key@) == Some(v),
            None => json_u64_field_of(body@, key@) is None,
        },
{
    match serde_json::from_slice::<serde_json::Value>(body) {
        Ok(j) => match j.get(key) {
            Some(f) => f.as_u64(),
            None => None,
        },
        Err(_) => None,
    }
}

/// Relies on `serde_json::from_slice`, `Value::as_array` and
/// `Value::get`/`as_str`: parses `body` as a JSON array of objects and
/// returns the three named string fields of every element, in order.
/// Deterministic in `body` and the keys.
#[verifier::external_body]
pub fn json_str_rows(body: &[u8], k1: &str, k2: &str, k3: &str) -> (r: Option<
    Vec<(Vec<u8>, Vec<u8>, Vec<u8>)>,
>)
    ensures
        match r {
            Some(v) => json_rows_of(body@, k1@, k2@, k3@) == Some(rows_view(v@)),
            None => json_rows_of(body@, k1@, k2@, k3@) is None,
        },
{
    let j = serde_json::from_slice::<serde_json::Value>(body).ok()?;
    let arr = j.as_array()?;
    let mut out = Vec::new();
    for e in arr {
        let a = e.get(k1)?.as_str()?.as_bytes().to_vec();
        let b = e.get(k2)?.as_str()?.as_bytes().to_vec();
        let c = e.get(k3)?.as_str()?.as_bytes().to_vec();
        out.push((a, b, c));
    }
    Some(out)
}

} // verus!
