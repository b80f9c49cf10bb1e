//! The HTTP header map of the `http` crate, as `axum` exports it: what it holds,
//! and the calls the library makes on it.

use vstd::prelude::*;
use vstd::string::*;

verus! {

/// [`axum::http::HeaderMap`], whose contents are [`header_values`].
#[verifier::external_type_specification]
#[verifier::external_body]
#[verifier::reject_recursive_types(T)]
pub struct ExHeaderMap<T>(axum::http::HeaderMap<T>);

/// [`axum::http::HeaderValue`], whose contents are [`value_bytes`].
#[verifier::external_type_specification]
#[verifier::external_body]
pub struct ExHeaderValue(axum::http::HeaderValue);

/// What a header map holds: the first value under each name, the name in lower case.
pub uninterp spec fn header_values(headers: axum::http::HeaderMap) -> Map<Seq<char>, Seq<u8>>;

/// How many names a header map holds.
pub uninterp spec fn header_count(headers: axum::http::HeaderMap) -> nat;

/// The bytes a header value holds.
pub uninterp spec fn value_bytes(value: axum::http::HeaderValue) -> Seq<u8>;

/// A header name as the map keeps it: lower-case letters, digits and hyphens.
pub open spec fn is_plain_name(name: Seq<char>) -> bool {
    &&& 0 < name.len() <= 64
    &&& forall|i: int|
        0 <= i < name.len() ==> ('a' <= #[trigger] name[i] <= 'z' || '0' <= name[i] <= '9' || name[i]
            == '-')
}

/// A byte that `HeaderValue::to_str` lets through.
pub open spec fn is_visible(b: u8) -> bool {
    32 <= b < 127 || b == 9
}

/// The text of a run of visible bytes.
pub open spec fn ascii_text(bytes: Seq<u8>) -> Seq<char> {
    Seq::new(bytes.len(), |i: int| bytes[i] as char)
}

/// Calls `HeaderMap::get`: the first value under the name, where there is one.
#[verifier::external_body]
fn get_value<'a>(headers: &'a axum::http::HeaderMap, name: &str) -> (value: Option<
    &'a axum::http::HeaderValue,
>)
    requires
        is_plain_name(name@),
    ensures
        value is Some <==> header_values(*headers).dom().contains(name@),
        value matches Some(v) ==> value_bytes(*v) == header_values(*headers)[name@],
{
    headers.get(name)
}

/// Calls `HeaderValue::to_str`: the value's text where every byte is visible, and
/// nothing otherwise.
#[verifier::external_body]
fn value_text(value: &axum::http::HeaderValue) -> (text: Option<&str>)
    ensures
        text is Some <==> (forall|i: int|
            0 <= i < value_bytes(*value).len() ==> is_visible(#[trigger] value_bytes(*value)[i])),
        text matches Some(t) ==> t@ == ascii_text(value_bytes(*value)),
{
    value.to_str().ok()
}

/// Calls `HeaderValue::from_str`: a value of the text's bytes, where each is a
/// visible byte or one past ASCII.
#[verifier::external_body]
fn value_from_text(text: &str) -> (value: Option<axum::http::HeaderValue>)
    ensures
        value is Some <==> (forall|i: int|
            0 <= i < text.spec_bytes().len() ==> (is_visible(#[trigger] text.spec_bytes()[i])
                || text.spec_bytes()[i] >= 128)),
        value matches Some(v) ==> value_bytes(v) == text.spec_bytes(),
{
    axum::http::HeaderValue::from_str(text).ok()
}

/// The most names a map may hold for another to be taken whatever the names are.
pub const MAX_NAMES: usize = 6553;

/// Calls `HeaderMap::try_insert`: where the map takes the value, the name holds that
/// value and no other, and every other name what it held; where it does not, every name
/// holds what it held. It takes the value wherever it holds no more than [`MAX_NAMES`]
/// names. Beyond that it rests on how full the map's table is and on how the names
/// collide in it, of which nothing is said.
#[verifier::external_body]
fn insert_value(
    headers: &mut axum::http::HeaderMap,
    name: &'static str,
    value: axum::http::HeaderValue,
) -> (taken: bool)
    requires
        is_plain_name(name@),
    ensures
        header_count(*old(headers)) <= MAX_NAMES ==> taken,
        header_values(*final(headers)) == if taken {
            header_values(*old(headers)).insert(name@, value_bytes(value))
        } else {
            header_values(*old(headers))
        },
        header_count(*final(headers)) <= header_count(*old(headers)) + 1,
{
    headers.try_insert(name, value).is_ok()
}

/// The text under a name: the first value, where it is visible text.
pub open spec fn header_text(headers: axum::http::HeaderMap, name: Seq<char>) -> Option<Seq<char>> {
    if header_values(headers).dom().contains(name) && (forall|i: int|
        0 <= i < header_values(headers)[name].len() ==> is_visible(
            #[trigger] header_values(headers)[name][i],
        )) {
        Some(ascii_text(header_values(headers)[name]))
    } else {
        None
    }
}

/// Reads the text under a name.
pub fn text_of<'a>(headers: &'a axum::http::HeaderMap, name: &str) -> (text: Option<&'a str>)
    requires
        is_plain_name(name@),
    ensures
        text is Some <==> header_text(*headers, name@) is Some,
        text matches Some(t) ==> Some(t@) == header_text(*headers, name@),
{
    match get_value(headers, name) {
        Some(value) => value_text(value),
        None => None,
    }
}

/// Whether every byte of a text can stand in a header value.
pub open spec fn fits_value(bytes: Seq<u8>) -> bool {
    forall|i: int| 0 <= i < bytes.len() ==> (is_visible(#[trigger] bytes[i]) || bytes[i] >= 128)
}

/// Puts a text under a name, where every byte of it can stand in a value and the map
/// takes it; otherwise every name holds what it held.
pub fn set_text(headers: &mut axum::http::HeaderMap, name: &'static str, text: &str) -> (stored: bool)
    requires
        is_plain_name(name@),
    ensures
        stored ==> fits_value(text.spec_bytes()),
        fits_value(text.spec_bytes()) && header_count(*old(headers)) <= MAX_NAMES ==> stored,
        header_values(*final(headers)) == if stored {
            header_values(*old(headers)).insert(name@, text.spec_bytes())
        } else {
            header_values(*old(headers))
        },
        header_count(*final(headers)) <= header_count(*old(headers)) + 1,
{
    match value_from_text(text) {
        Some(value) => insert_value(headers, name, value),
        None => false,
    }
}

/// The text under a name is there exactly where the name is and every byte of its value is
/// visible, and is then those bytes as characters.
pub proof fn law_a_header_reads_as_its_bytes(headers: axum::http::HeaderMap, name: Seq<char>, i: int)
    ensures
        ({
            let held = header_values(headers);
            let text = header_text(headers, name);
            &&& text is Some ==> held.dom().contains(name) && text->0.len() == held[name].len()
            &&& text is Some && 0 <= i < held[name].len() ==> text->0[i] == held[name][i] as char && (32
                <= held[name][i] < 127 || held[name][i] == 9)
            &&& held.dom().contains(name) && (forall|j: int|
                0 <= j < held[name].len() ==> 32 <= #[trigger] held[name][j] < 127) ==> text is Some
        }),
{
}

/// A text can stand in a header exactly where it has no control character but the tab.
pub proof fn law_a_value_has_no_control_character(bytes: Seq<u8>, b: u8)
    ensures
        fits_value(bytes) <==> (forall|i: int|
            0 <= i < bytes.len() ==> (#[trigger] bytes[i] >= 32 && bytes[i] != 127 || bytes[i] == 9)),
        is_visible(b) <==> 32 <= b <= 126 || b == 9,
{
    if fits_value(bytes) {
        assert forall|i: int| 0 <= i < bytes.len() implies (#[trigger] bytes[i] >= 32 && bytes[i] != 127
            || bytes[i] == 9) by {}
    }
    if forall|i: int| 0 <= i < bytes.len() ==> (#[trigger] bytes[i] >= 32 && bytes[i] != 127
        || bytes[i] == 9) {
        assert forall|i: int| 0 <= i < bytes.len() implies (is_visible(#[trigger] bytes[i]) || bytes[i]
            >= 128) by {}
    }
}

} // verus!
