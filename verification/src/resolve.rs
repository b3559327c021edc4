//! Resolving a link against the address of the page that holds it.

use url::{ParseError, Url};
use vstd::prelude::*;

verus! {

#[verifier::external_type_specification]
#[verifier::external_body]
pub struct ExUrl(Url);

#[verifier::external_type_specification]
#[verifier::external_body]
pub struct ExParseError(ParseError);

/// The serialization of a URL: the text by which URLs are written and compared.
pub uninterp spec fn url_text(url: Url) -> Seq<char>;

/// The serialization of the absolute URL that `text` reads as; `None` where it
/// reads as none.
pub uninterp spec fn parsed(text: Seq<char>) -> Option<Seq<char>>;

/// The serialization of the URL that `link` reads as on a page whose URL has
/// the serialization `base`; `None` where it reads as none.
pub uninterp spec fn joined(base: Seq<char>, link: Seq<char>) -> Option<Seq<char>>;

/// Why a link could not be resolved.
#[derive(Debug, Clone, Copy, PartialEq, Eq, Structural)]
pub enum ResolveError {
    /// The address of the page is no absolute URL.
    Base,
    /// The link is no URL on that page.
    Link,
}

/// The absolute URL that `link` points to from the page at `base`.
pub open spec fn resolved(base: Seq<char>, link: Seq<char>) -> Result<Seq<char>, ResolveError> {
    match parsed(base) {
        Some(page) => match joined(page, link) {
            Some(target) => Ok(target),
            None => Err(ResolveError::Link),
        },
        None => Err(ResolveError::Base),
    }
}

/// `Url::parse`. Trusted: whether it succeeds, and the serialization of the URL
/// it gives, depend on the text alone, so they are what `parsed` names.
#[verifier::external_body]
fn parse_absolute(text: &str) -> (url: Result<Url, ParseError>)
    ensures
        match url {
            Ok(found) => parsed(text@) == Some(url_text(found)),
            Err(_) => parsed(text@) is None,
        },
{
    Url::parse(text)
}

/// `Url::join`. Trusted: whether it succeeds, and the serialization of the URL
/// it gives, depend on the serialization of the base and on the link alone, so
/// they are what `joined` names.
#[verifier::external_body]
fn join(base: &Url, link: &str) -> (url: Result<Url, ParseError>)
    ensures
        match url {
            Ok(found) => joined(url_text(*base), link@) == Some(url_text(found)),
            Err(_) => joined(url_text(*base), link@) is None,
        },
{
    base.join(link)
}

/// The `to_string` of a `Url`. Trusted: it writes the serialization.
#[verifier::external_body]
fn serialize(url: &Url) -> (text: String)
    ensures
        text@ == url_text(*url),
{
    url.to_string()
}

/// Resolves `link`, as found on the page at `base`, to an absolute URL. The
/// link may be relative or absolute; a page address or a link that does not
/// read as a URL is reported, each as its own error.
pub fn resolve(base: &str, link: &str) -> (url: Result<String, ResolveError>)
    ensures
        match url {
            Ok(text) => resolved(base@, link@) == Ok::<Seq<char>, ResolveError>(text@),
            Err(error) => resolved(base@, link@) == Err::<Seq<char>, ResolveError>(error),
        },
{
    match parse_absolute(base) {
        Ok(page) => match join(&page, link) {
            Ok(target) => Ok(serialize(&target)),
            Err(_) => Err(ResolveError::Link),
        },
        Err(_) => Err(ResolveError::Base),
    }
}

} // verus!
