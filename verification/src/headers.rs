//! The `http` crate's header map, seen by the library as a map from lower-case
//! header names to the byte strings of their values, in insertion order.

use vstd::prelude::*;
use http::header::InvalidHeaderName;
use http::{HeaderMap, HeaderName, HeaderValue};

verus! {

/// `http::HeaderValue`, opaque: the values a `HeaderMap` holds by default, seen
/// through `header_map_contents` only.
#[verifier::external_type_specification]
#[verifier::external_body]
pub struct ExHeaderValue(HeaderValue);

/// `http::header::InvalidHeaderName`, opaque: the error of parsing a header name.
#[verifier::external_type_specification]
#[verifier::external_body]
pub struct ExInvalidHeaderName(InvalidHeaderName);

/// `http::HeaderMap`, opaque: what it holds is `header_map_contents`.
#[verifier::external_type_specification]
#[verifier::external_body]
#[verifier::reject_recursive_types(T)]
pub struct ExHeaderMap<T>(HeaderMap<T>);

/// What a header map holds: for each header name (lower case, as
/// `HeaderName::as_str` gives it) the bytes of its values, first value first.
pub uninterp spec fn header_map_contents(headers: HeaderMap) -> Map<Seq<char>, Seq<Seq<u8>>>;

/// A character allowed in the lower-case header names this library spells out.
pub open spec fn is_lower_name_char(c: char) -> bool {
    ('a' <= c && c <= 'z') || ('0' <= c && c <= '9') || c == '-'
}

/// A short lower-case header name made of letters, digits and `-`: one that
/// `HeaderName::from_static` accepts and that a `&str` key finds unchanged.
pub open spec fn is_lower_header_name(name: Seq<char>) -> bool {
    &&& 0 < name.len() <= 64
    &&& forall|i: int| 0 <= i < name.len() ==> is_lower_name_char(#[trigger] name[i])
}

/// A byte that a header value may hold when built from a static string:
/// visible ASCII or a horizontal tab.
pub open spec fn is_visible_ascii(b: u8) -> bool {
    (32 <= b && b < 127) || b == 9
}

/// The bytes of an ASCII text.
pub open spec fn ascii_bytes(text: Seq<char>) -> Seq<u8> {
    text.map_values(|c: char| c as u8)
}

/// A text that `HeaderValue::from_static` accepts.
pub open spec fn is_static_header_value(text: Seq<char>) -> bool {
    forall|i: int|
        0 <= i < text.len() ==> (#[trigger] text[i] == '\t' || (' ' <= text[i] && text[i] <= '~'))
}

/// The header maps this library grows stay far below the capacity at which
/// `HeaderMap` panics while growing.
pub open spec fn header_map_has_room(headers: HeaderMap) -> bool {
    header_map_contents(headers).dom().finite() && header_map_contents(headers).dom().len() < 6554
}

/// The names of the headers in `headers`, each once, in the map's own
/// (unspecified) order: `HeaderMap::keys`, each name taken by `as_str`.
/// The order in which they come is not stated, as the crate leaves it open.
#[verifier::external_body]
pub(crate) fn header_map_keys(headers: &HeaderMap) -> (names: Vec<String>)
    ensures
        names@.map_values(|n: String| n@).no_duplicates(),
        names@.map_values(|n: String| n@).to_set() == header_map_contents(*headers).dom(),
{
    headers.keys().map(|name| name.as_str().to_string()).collect()
}

/// The first value of the header `name` (`HeaderMap::get` with a `&str` key),
/// as bytes.
#[verifier::external_body]
pub(crate) fn header_map_first(headers: &HeaderMap, name: &str) -> (value: Option<Vec<u8>>)
    requires
        is_lower_header_name(name@),
    ensures
        value is Some <==> header_map_contents(*headers).contains_key(name@),
        value matches Some(v) ==> v@ == header_map_contents(*headers)[name@][0],
{
    headers.get(name).map(|v| v.as_bytes().to_vec())
}

/// Removes the header `name` with all its values (`HeaderMap::remove` with a
/// `&str` key naming a header of the map).
#[verifier::external_body]
pub(crate) fn header_map_remove(headers: &mut HeaderMap, name: &str)
    requires
        header_map_contents(*old(headers)).contains_key(name@),
    ensures
        header_map_contents(*final(headers)) == header_map_contents(*old(headers)).remove(name@),
{
    headers.remove(name);
}

/// `headers` with each header reduced to its first value: what a request built
/// by appending the named items of `HeaderMap::into_iter` receives (the items
/// without a name, which carry the further values, are skipped).
pub open spec fn first_values(headers: Map<Seq<char>, Seq<Seq<u8>>>) -> Map<Seq<char>, Seq<Seq<u8>>> {
    headers.map_values(|values: Seq<Seq<u8>>| seq![values[0]])
}

/// What a header value holds: its bytes, as `HeaderValue::as_bytes` gives them.
pub uninterp spec fn header_value_bytes(value: HeaderValue) -> Seq<u8>;

/// A copy of the first value of the header `name`, which the map holds
/// (`HeaderMap::get` with a `&str` key, the value then cloned).
#[verifier::external_body]
pub(crate) fn header_map_get_value(headers: &HeaderMap, name: &str) -> (value: Option<HeaderValue>)
    requires
        header_map_contents(*headers).contains_key(name@),
    ensures
        value is Some,
        value matches Some(v) ==> header_value_bytes(v) == header_map_contents(*headers)[name@][0],
{
    headers.get(name).cloned()
}

/// Sets the header `name`, which the map holds, to the single value `value`,
/// dropping its other values (`HeaderMap::insert`, with the key made by
/// `HeaderName::from_bytes` from the name's text). The text of a name the map
/// holds always parses, so the result is `Ok`.
#[verifier::external_body]
pub(crate) fn header_map_set_value(headers: &mut HeaderMap, name: &str, value: HeaderValue) -> (r: Result<(), InvalidHeaderName>)
    requires
        header_map_contents(*old(headers)).contains_key(name@),
        header_map_has_room(*old(headers)),
    ensures
        r is Ok,
        header_map_contents(*final(headers)) == header_map_contents(*old(headers)).insert(
            name@,
            seq![header_value_bytes(value)],
        ),
{
    let key = HeaderName::from_bytes(name.as_bytes())?;
    headers.insert(key, value);
    Ok(())
}

/// Sets the header `name` to the single value `value`, dropping the values it
/// had (`HeaderMap::insert` of `HeaderName::from_static(name)` and
/// `HeaderValue::from_static(value)`).
#[verifier::external_body]
pub(crate) fn header_map_insert_static(headers: &mut HeaderMap, name: &'static str, value: &'static str)
    requires
        is_lower_header_name(name@),
        is_static_header_value(value@),
        header_map_has_room(*old(headers)),
    ensures
        header_map_contents(*final(headers)) == header_map_contents(*old(headers)).insert(
            name@,
            seq![ascii_bytes(value@)],
        ),
{
    headers.insert(HeaderName::from_static(name), HeaderValue::from_static(value));
}

} // verus!
