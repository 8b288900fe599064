//! The header map of a request or response.
//!
//! Header maps and header values are the `http` crate's own. This module
//! states what the routing code relies on when it reads and writes them; none
//! of the items marked `external_body` here is proved.

use http::header::{HeaderMap, HeaderValue};
use vstd::prelude::*;
use vstd::string::*;

verus! {

/// `http::header::HeaderMap`, whose inside is not looked into.
#[verifier::external_type_specification]
#[verifier::external_body]
#[verifier::reject_recursive_types(T)]
pub struct ExHeaderMap<T>(HeaderMap<T>);

/// `http::header::HeaderValue`, whose inside is not looked into.
#[verifier::external_type_specification]
#[verifier::external_body]
pub struct ExHeaderValue(HeaderValue);

/// The bytes that a header value holds, as `HeaderValue::as_bytes` gives them.
pub uninterp spec fn header_value_bytes(value: HeaderValue) -> Seq<u8>;

/// What a header map holds: for each header name that is present, written in
/// lower case, the values stored under it, in the order `get_all` yields them.
pub uninterp spec fn header_entries(map: HeaderMap<HeaderValue>) -> Map<Seq<char>, Seq<Seq<u8>>>;

/// The entries of a header map that holds nothing.
pub open spec fn no_headers() -> Map<Seq<char>, Seq<Seq<u8>>> {
    Map::empty()
}

/// The number of names from which on a header map may refuse another one.
pub const FULL_FROM: usize = 6554;

/// The map can take `more` further names without fail: it holds finitely many
/// names, and with `more` added no more than 6554.
pub open spec fn has_room(entries: Map<Seq<char>, Seq<Seq<u8>>>, more: nat) -> bool {
    entries.dom().finite() && entries.dom().len() + more <= FULL_FROM
}

/// A byte that may stand in a header value made from a string: anything but a
/// control character, except that a tab is allowed.
pub open spec fn is_value_byte(b: u8) -> bool {
    (b >= 32 && b != 127) || b == 9
}

/// A byte of a header value that can be read back as text: printable ASCII or
/// a tab.
pub open spec fn is_visible_byte(b: u8) -> bool {
    (32 <= b < 127) || b == 9
}

/// Every byte can stand in a header value.
pub open spec fn is_header_value(bytes: Seq<u8>) -> bool {
    forall|i: int| 0 <= i < bytes.len() ==> is_value_byte(#[trigger] bytes[i])
}

/// Every byte is printable ASCII or a tab.
pub open spec fn is_visible_ascii(bytes: Seq<u8>) -> bool {
    forall|i: int| 0 <= i < bytes.len() ==> is_visible_byte(#[trigger] bytes[i])
}

/// The text that a sequence of ASCII bytes spells.
pub open spec fn ascii_text(bytes: Seq<u8>) -> Seq<char> {
    Seq::new(bytes.len(), |i: int| bytes[i] as char)
}

/// A character of the header names this crate uses: a lower-case letter, a
/// digit or a hyphen.
pub open spec fn is_name_char(c: char) -> bool {
    ('a' <= c <= 'z') || ('0' <= c <= '9') || c == '-'
}

/// A header name in the form the map stores it: not empty, at most 64
/// characters, each a lower-case letter, a digit or a hyphen.
pub open spec fn is_header_name(name: Seq<char>) -> bool {
    &&& 0 < name.len() <= 64
    &&& forall|i: int| 0 <= i < name.len() ==> is_name_char(#[trigger] name[i])
}

/// `HeaderValue::from_str`: accepts the text when each of its bytes is 32 or
/// above and not 127, or a tab, and then holds exactly those bytes. The error
/// is handed back as the text it displays.
#[verifier::external_body]
pub(crate) fn header_value_from_str(text: &str) -> (r: Result<HeaderValue, String>)
    ensures
        r is Ok <==> is_header_value(text.spec_bytes()),
        r matches Ok(v) ==> header_value_bytes(v) == text.spec_bytes(),
        r matches Err(m) ==> m@ == "failed to parse header value"@,
{
    match HeaderValue::from_str(text) {
        Ok(value) => Ok(value),
        Err(e) => Err(e.to_string()),
    }
}

/// `HeaderValue::from_static`: holds the bytes of the text. It panics on a
/// byte that is neither printable ASCII nor a tab, which `requires` rules out.
#[verifier::external_body]
pub(crate) fn header_value_from_static(text: &'static str) -> (v: HeaderValue)
    requires
        is_visible_ascii(text.spec_bytes()),
    ensures
        header_value_bytes(v) == text.spec_bytes(),
{
    HeaderValue::from_static(text)
}

/// `HeaderValue::to_str`: succeeds when every byte is printable ASCII or a
/// tab, and then gives the bytes as text. The error is handed back as the text
/// it displays.
#[verifier::external_body]
pub(crate) fn header_value_to_str(value: &HeaderValue) -> (r: Result<String, String>)
    ensures
        r is Ok <==> is_visible_ascii(header_value_bytes(*value)),
        r matches Ok(s) ==> s@ == ascii_text(header_value_bytes(*value)),
        r matches Err(m) ==> m@ == "failed to convert header to a str"@,
{
    match value.to_str() {
        Ok(s) => Ok(s.to_string()),
        Err(e) => Err(e.to_string()),
    }
}

/// `HeaderMap::new`: a map that holds nothing.
#[verifier::external_body]
pub(crate) fn header_map_new() -> (fresh: HeaderMap<HeaderValue>)
    ensures
        header_entries(fresh) == no_headers(),
{
    HeaderMap::new()
}

/// `HeaderMap::clone`: a map that holds what the given one holds.
#[verifier::external_body]
pub(crate) fn header_map_clone(map: &HeaderMap<HeaderValue>) -> (copy: HeaderMap<HeaderValue>)
    ensures
        header_entries(copy) == header_entries(*map),
{
    map.clone()
}

/// `HeaderMap::get`: the first value stored under the name, if there is one.
#[verifier::external_body]
pub(crate) fn header_map_get<'a>(map: &'a HeaderMap<HeaderValue>, name: &str) -> (r: Option<
    &'a HeaderValue,
>)
    requires
        is_header_name(name@),
    ensures
        r is Some <==> header_entries(*map).contains_key(name@),
        r matches Some(v) ==> header_entries(*map)[name@].len() > 0 && header_value_bytes(*v)
            == header_entries(*map)[name@][0],
{
    map.get(name)
}

/// `HeaderMap::try_insert`: on success the name holds the one value given and
/// every other name is untouched. It fails only when the map cannot grow, and
/// then holds what it held before; the error is handed back as the text it
/// displays. A map that has room for one more name does not fail: growing is
/// refused only at the largest index table, of 32768 slots, and not before a
/// fifth of those slots is taken.
#[verifier::external_body]
pub(crate) fn header_map_insert(
    map: &mut HeaderMap<HeaderValue>,
    name: &'static str,
    value: HeaderValue,
) -> (r: Result<(), String>)
    requires
        is_header_name(name@),
    ensures
        r is Ok ==> header_entries(*final(map)) == header_entries(*old(map)).insert(
            name@,
            seq![header_value_bytes(value)],
        ),
        r matches Err(m) ==> header_entries(*final(map)) == header_entries(*old(map)) && m@
            == "max size reached"@,
        has_room(header_entries(*old(map)), 1) ==> r is Ok,
{
    match map.try_insert(name, value) {
        Ok(_) => Ok(()),
        Err(e) => Err(e.to_string()),
    }
}

} // verus!
