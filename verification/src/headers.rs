//! Reading the credential header out of a request's header map.
//!
//! The header map itself belongs to the `http` crate; its contents are
//! modelled as a map from lowercase header names to value bytes, and the
//! two calls the pipeline makes are trusted against `http`'s source.

use vstd::prelude::*;

use http::{HeaderMap, HeaderValue};

verus! {

#[verifier::external_type_specification]
#[verifier::external_body]
#[verifier::reject_recursive_types(T)]
pub struct ExHeaderMap<T>(HeaderMap<T>);

#[verifier::external_type_specification]
#[verifier::external_body]
pub struct ExHeaderValue(HeaderValue);

/// What a header map holds: value bytes keyed by lowercase header name
/// (the first value, where a name repeats).
pub uninterp spec fn header_entries(m: HeaderMap) -> Map<Seq<char>, Seq<u8>>;

/// The bytes a header value holds.
pub uninterp spec fn header_value_bytes(v: HeaderValue) -> Seq<u8>;

/// Whether every byte is visible ASCII or horizontal tab: exactly the
/// values `http` renders as a string.
pub open spec fn header_text(b: Seq<u8>) -> bool {
    forall|i: int| 0 <= i < b.len() ==> (32 <= b[i] < 127 || b[i] == 9)
}

/// Those bytes read as characters.
pub open spec fn bytes_as_chars(b: Seq<u8>) -> Seq<char> {
    b.map_values(|x: u8| x as char)
}

/// The string a header map carries under `name`: present and renderable,
/// or nothing.
pub open spec fn header_str(m: HeaderMap, name: Seq<char>) -> Option<Seq<char>> {
    if header_entries(m).dom().contains(name) && header_text(header_entries(m)[name]) {
        Some(bytes_as_chars(header_entries(m)[name]))
    } else {
        None
    }
}

/// Relies on http's `HeaderMap::get`: the first value stored under the
/// given name, or nothing. The name is passed in lowercase, the form under
/// which the map stores every name.
#[verifier::external_body]
fn get_header<'a>(headers: &'a HeaderMap, name: &str) -> (r: Option<&'a HeaderValue>)
    ensures
        match r {
            Some(v) => header_entries(*headers).dom().contains(name@) && header_value_bytes(*v)
                == header_entries(*headers)[name@],
            None => !header_entries(*headers).dom().contains(name@),
        },
{
    headers.get(name)
}

/// Relies on http's `HeaderValue::to_str`, which renders the value exactly
/// when every byte is visible ASCII or horizontal tab.
#[verifier::external_body]
fn header_value_str(v: &HeaderValue) -> (r: Option<String>)
    ensures
        match r {
            Some(s) => header_text(header_value_bytes(*v)) && s@ == bytes_as_chars(
                header_value_bytes(*v),
            ),
            None => !header_text(header_value_bytes(*v)),
        },
{
    match v.to_str() {
        Ok(s) => Some(s.to_string()),
        Err(_) => None,
    }
}

/// The value of the header named `key`, when the header is present and its
/// value renders as a string; nothing when it is absent or unrenderable.
pub fn extract_header(key: &str, headers: &HeaderMap) -> (r: Option<String>)
    ensures
        match r {
            Some(s) => header_str(*headers, key@) == Some(s@),
            None => header_str(*headers, key@) is None,
        },
{
    match get_header(headers, key) {
        Some(v) => header_value_str(v),
        None => None,
    }
}

} // verus!
