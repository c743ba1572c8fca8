//! Header values and changes to headers.

use crate::text::lowercase;
use vstd::prelude::*;

verus! {

/// Whether every byte is a visible ASCII character, a space or a tab.
pub open spec fn is_visible(bytes: Seq<u8>) -> bool {
    forall|i: int| 0 <= i < bytes.len() ==> 32 <= #[trigger] bytes[i] < 127 || bytes[i] == 9
}

/// The text of a header value; `None` where a byte of it is not text.
pub open spec fn header_value(bytes: Seq<u8>) -> Option<Seq<char>> {
    if is_visible(bytes) {
        Some(Seq::new(bytes.len(), |i: int| bytes[i] as char))
    } else {
        None
    }
}

/// The header values that a request or a response comes with.
#[verifier::external_type_specification]
#[verifier::external_body]
#[verifier::reject_recursive_types(T)]
pub struct ExHeaderMap<T>(http::HeaderMap<T>);

/// One header value.
#[verifier::external_type_specification]
#[verifier::external_body]
pub struct ExHeaderValue(http::HeaderValue);

/// The headers that an `http::HeaderMap` holds: each name, in lower case, with the bytes of its
/// first value.
pub uninterp spec fn first_values(headers: http::HeaderMap<http::HeaderValue>) -> Map<
    Seq<char>,
    Seq<u8>,
>;

/// The text of the first value of a header; `None` where the header is absent or not text.
pub open spec fn header_text(
    headers: http::HeaderMap<http::HeaderValue>,
    name: Seq<char>,
) -> Option<Seq<char>> {
    if first_values(headers).contains_key(lowercase(name)) {
        header_value(first_values(headers)[lowercase(name)])
    } else {
        None
    }
}

/// Looks a header up with `http::HeaderMap::get`, which compares names without regard to case and
/// gives the first of several values, and copies the bytes of that value.
#[verifier::external_body]
fn first_value(headers: &http::HeaderMap<http::HeaderValue>, name: &str) -> (value: Option<Vec<u8>>)
    ensures
        match value {
            Some(value) => {
                &&& first_values(*headers).contains_key(lowercase(name@))
                &&& value@ == first_values(*headers)[lowercase(name@)]
            },
            None => !first_values(*headers).contains_key(lowercase(name@)),
        },
{
    headers.get(name).map(|value| value.as_bytes().to_vec())
}

/// Makes a header value of some bytes with `http::HeaderValue::from_bytes` and reads it with
/// `http::HeaderValue::to_str`. The first refuses control characters other than the tab, and the
/// second every byte that is not visible ASCII, a space or a tab; the text has one character for
/// each byte.
#[verifier::external_body]
fn value_to_str(bytes: &[u8]) -> (text: Option<String>)
    ensures
        text.deep_view() == header_value(bytes@),
{
    let value = http::HeaderValue::from_bytes(bytes).ok()?;
    Some(value.to_str().ok()?.to_owned())
}

/// Reads the text of a header.
pub fn read_header(headers: &http::HeaderMap<http::HeaderValue>, name: &str) -> (text: Option<
    String,
>)
    ensures
        text.deep_view() == header_text(*headers, name@),
{
    match first_value(headers, name) {
        Some(bytes) => value_to_str(bytes.as_slice()),
        None => None,
    }
}

/// A change to the header `name`: it gets the value in place of all that it had, or is removed.
#[derive(Debug)]
pub struct HeaderEdit {
    pub name: &'static str,
    pub value: Option<String>,
}

/// A header's name, and the value that it gets; `None` where it is removed.
pub type Edit = (Seq<char>, Option<Seq<char>>);

impl View for HeaderEdit {
    type V = Edit;

    open spec fn view(&self) -> Edit {
        (self.name@, self.value.deep_view())
    }
}

/// The changes that a vector holds, in order.
pub open spec fn edits(changes: Vec<HeaderEdit>) -> Seq<Edit> {
    Seq::new(changes@.len(), |i: int| changes@[i]@)
}

/// The headers, each name with its values, after some changes to them.
pub open spec fn applied(edits: Seq<Edit>, headers: Map<Seq<char>, Seq<Seq<char>>>) -> Map<
    Seq<char>,
    Seq<Seq<char>>,
>
    decreases edits.len(),
{
    if edits.len() == 0 {
        headers
    } else {
        let earlier = applied(edits.drop_last(), headers);
        match edits.last().1 {
            Some(value) => earlier.insert(edits.last().0, seq![value]),
            None => earlier.remove(edits.last().0),
        }
    }
}

/// Gives a header a value.
pub fn set_header(changes: &mut Vec<HeaderEdit>, name: &'static str, value: String)
    ensures
        edits(*final(changes)) == edits(*old(changes)).push((name@, Some(value@))),
{
    changes.push(HeaderEdit { name, value: Some(value) });
    assert(edits(*changes) =~= edits(*old(changes)).push((name@, Some(value@))));
}

/// Removes a header.
pub fn remove_header(changes: &mut Vec<HeaderEdit>, name: &'static str)
    ensures
        edits(*final(changes)) == edits(*old(changes)).push((name@, None)),
{
    changes.push(HeaderEdit { name, value: None });
    assert(edits(*changes) =~= edits(*old(changes)).push((name@, None)));
}

} // verus!
