//! The parts of `reqwest::header` that the library builds request headers
//! with.
//!
//! A header map, a header name and a header value are opaque to the
//! verifier. Every function here makes one call into `reqwest::header`
//! (which hands on the types of the `http` crate), and nothing is proved of
//! it: its contract says of the call what that crate's source shows.

use reqwest::header::{HeaderMap, HeaderName, HeaderValue};
use vstd::prelude::*;

verus! {

/// `reqwest::header::HeaderMap`, carried through as it is.
#[verifier::external_type_specification]
#[verifier::external_body]
#[verifier::reject_recursive_types(T)]
pub struct ExHeaderMap<T>(HeaderMap<T>);

/// `reqwest::header::HeaderName`, carried through as it is.
#[verifier::external_type_specification]
#[verifier::external_body]
pub struct ExHeaderName(HeaderName);

/// `reqwest::header::HeaderValue`, carried through as it is.
#[verifier::external_type_specification]
#[verifier::external_body]
pub struct ExHeaderValue(HeaderValue);

/// The text of a header name: what `HeaderName::as_str` gives.
pub uninterp spec fn header_name_text(name: HeaderName) -> Seq<char>;

/// The text of a header value: its bytes, read as UTF-8.
pub uninterp spec fn header_value_text(value: HeaderValue) -> Seq<char>;

/// What a header map holds: under each name's text, the text of the value
/// that `HeaderMap::get` finds for the name.
pub uninterp spec fn header_entries(map: HeaderMap<HeaderValue>) -> Map<Seq<char>, Seq<char>>;

/// How many values a header map holds: what `HeaderMap::len` gives.
pub uninterp spec fn header_count(map: HeaderMap<HeaderValue>) -> nat;

/// A header name of small letters, digits and hyphens, at most 64 long.
/// Every such text is a name that `HeaderName::from_static` takes.
pub open spec fn plain_header_name(name: Seq<char>) -> bool {
    &&& 0 < name.len() <= 64
    &&& forall|i: int|
        0 <= i < name.len() ==> {
            let c = #[trigger] name[i];
            ('a' <= c && c <= 'z') || ('0' <= c && c <= '9') || c == '-'
        }
}

/// Whether a character may stand in a header value: a tab, or anything
/// from the space on but the delete character.
pub open spec fn header_value_char(c: char) -> bool {
    c == '\t' || (' ' <= c && c != '\u{7f}')
}

/// Whether a text may be a header value: every character may stand in one.
pub open spec fn header_value_ok(text: Seq<char>) -> bool {
    forall|i: int| 0 <= i < text.len() ==> header_value_char(#[trigger] text[i])
}

/// What an empty header map holds.
pub open spec fn no_headers() -> Map<Seq<char>, Seq<char>> {
    Map::empty()
}

/// How many values a header map may hold for [`put`] to be called on it.
pub const HEADER_ROOM: usize = 16;

/// Calls `HeaderMap::new`: the map holds nothing.
#[verifier::external_body]
pub(crate) fn new_headers() -> (r: HeaderMap)
    ensures
        header_entries(r) == no_headers(),
        header_count(r) == 0,
{
    HeaderMap::new()
}

/// Calls `HeaderName::from_static`, which panics on a text that is no
/// lower-case header name; a plain name is one. The name's text is the
/// text given.
#[verifier::external_body]
pub(crate) fn static_name(name: &'static str) -> (r: HeaderName)
    requires
        plain_header_name(name@),
    ensures
        header_name_text(r) == name@,
{
    HeaderName::from_static(name)
}

/// Calls `HeaderValue::from_str`, which takes a text exactly if each of
/// its bytes is a tab or at least 32 and not 127: that is, if each of its
/// characters may stand in a header value. The value's text is the text
/// given.
#[verifier::external_body]
pub(crate) fn value_from(text: &str) -> (r: Option<HeaderValue>)
    ensures
        r.is_some() == header_value_ok(text@),
        r.is_some() ==> header_value_text(r.unwrap()) == text@,
{
    HeaderValue::from_str(text).ok()
}

/// Calls `HeaderMap::insert`, which panics on a map that is full (at some
/// thousands of values): the map is to hold fewer than [`HEADER_ROOM`].
/// Afterwards the name has this value and no other; the other names have
/// what they had; and the map holds at most one value more, exactly one
/// more where it did not hold the name.
#[verifier::external_body]
pub(crate) fn put(map: &mut HeaderMap, name: HeaderName, value: HeaderValue)
    requires
        header_count(*old(map)) < HEADER_ROOM,
    ensures
        header_entries(*final(map)) == header_entries(*old(map)).insert(
            header_name_text(name),
            header_value_text(value),
        ),
        header_count(*final(map)) <= header_count(*old(map)) + 1,
        !header_entries(*old(map)).dom().contains(header_name_text(name)) ==> header_count(
            *final(map),
        ) == header_count(*old(map)) + 1,
{
    map.insert(name, value);
}

} // verus!
