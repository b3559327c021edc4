//! Reading the `Content-Disposition` header out of a response's header map.

use crate::filename::{derive_filename, derived_filename, NOTHING_TO_DOWNLOAD};
use reqwest::header::{HeaderMap, HeaderValue, ToStrError};
use vstd::prelude::*;

verus! {

#[verifier::external_type_specification]
#[verifier::external_body]
#[verifier::reject_recursive_types(T)]
pub struct ExHeaderMap<T>(HeaderMap<T>);

#[verifier::external_type_specification]
#[verifier::external_body]
pub struct ExHeaderValue(HeaderValue);

#[verifier::external_type_specification]
#[verifier::external_body]
pub struct ExToStrError(ToStrError);

/// The bytes that a header value holds.
pub uninterp spec fn value_bytes(value: HeaderValue) -> Seq<u8>;

/// The bytes of the value that a header map yields for a header name: the
/// first value stored under the name, whatever the case of its letters, and
/// `None` where the map holds no such header.
pub uninterp spec fn first_value(headers: HeaderMap, name: Seq<char>) -> Option<Seq<u8>>;

/// Whether `b` is a visible ASCII character, a space or a tab.
pub open spec fn is_visible(b: u8) -> bool {
    32 <= b < 127 || b == 9
}

/// Whether every byte of a header value can be shown as text.
pub open spec fn reads_as_text(bytes: Seq<u8>) -> bool {
    forall|i: int| 0 <= i < bytes.len() ==> is_visible(#[trigger] bytes[i])
}

/// ASCII bytes as characters.
pub open spec fn text_of(bytes: Seq<u8>) -> Seq<char> {
    Seq::new(bytes.len(), |i: int| bytes[i] as char)
}

/// The name of the header that carries the file name.
pub const CONTENT_DISPOSITION: &'static str = "Content-Disposition";

/// The text of the `Content-Disposition` header of `headers`: that of the first
/// such header, where there is one and it reads as text.
pub open spec fn disposition_text(headers: HeaderMap) -> Option<Seq<char>> {
    match first_value(headers, CONTENT_DISPOSITION@) {
        Some(bytes) => if reads_as_text(bytes) {
            Some(text_of(bytes))
        } else {
            None
        },
        None => None,
    }
}

/// A response without a `Content-Disposition` header, or with one that does
/// not read as text, names no file: its derived name is `NOTHING_TO_DOWNLOAD`.
pub proof fn lemma_no_disposition_names_nothing(headers: HeaderMap)
    requires
        match first_value(headers, CONTENT_DISPOSITION@) {
            Some(bytes) => !reads_as_text(bytes),
            None => true,
        },
    ensures
        derived_filename(disposition_text(headers)) == NOTHING_TO_DOWNLOAD@,
{
}

/// `HeaderMap::get` with a text key. Trusted: the value handed back is the one
/// that `first_value` names for this map and this header name, and there is
/// none exactly where `first_value` is `None`.
#[verifier::external_body]
fn lookup<'a>(headers: &'a HeaderMap, name: &str) -> (value: Option<&'a HeaderValue>)
    ensures
        match value {
            Some(found) => first_value(*headers, name@) == Some(value_bytes(*found)),
            None => first_value(*headers, name@) is None,
        },
{
    headers.get(name)
}

/// `HeaderValue::to_str`. Trusted: it succeeds exactly where every byte of the
/// value is visible ASCII, a space or a tab, and the text is then those bytes
/// read as characters.
#[verifier::external_body]
fn as_text<'a>(value: &'a HeaderValue) -> (text: Result<&'a str, ToStrError>)
    ensures
        text is Ok <==> reads_as_text(value_bytes(*value)),
        text is Ok ==> text->Ok_0@ == text_of(value_bytes(*value)),
{
    value.to_str()
}

/// The text of the `Content-Disposition` header, if the response has one that
/// reads as text.
pub fn content_disposition<'a>(headers: &'a HeaderMap) -> (text: Option<&'a str>)
    ensures
        match text {
            Some(value) => disposition_text(*headers) == Some(value@),
            None => disposition_text(*headers) is None,
        },
{
    match lookup(headers, CONTENT_DISPOSITION) {
        Some(value) => match as_text(value) {
            Ok(text) => Some(text),
            Err(_) => None,
        },
        None => None,
    }
}

/// The name under which the response with these headers is saved.
pub fn filename_from_headers(headers: &HeaderMap) -> (name: String)
    ensures
        name@ == derived_filename(disposition_text(*headers)),
{
    derive_filename(content_disposition(headers))
}

} // verus!
