//! One branch of the crawl: a link of the seed page is followed to its page,
//! and the first link of that page is what the branch downloads.

use crate::links::{extract_links, links_of};
use crate::resolve::{resolve, resolved, ResolveError};
use vstd::prelude::*;

verus! {

/// Why a branch ended without a download.
#[derive(Debug, Clone, Copy, PartialEq, Eq, Structural)]
pub enum BranchError {
    /// The link of the seed page could not be resolved.
    TopLink(ResolveError),
    /// The links of the followed page could not be read.
    Selector,
    /// The first link of the followed page could not be resolved.
    FirstLink(ResolveError),
}

/// What is said of a branch that ended on `error`.
pub open spec fn message_of(error: BranchError) -> Seq<char> {
    match error {
        BranchError::TopLink(ResolveError::Base) => "Failed to parse base URL"@,
        BranchError::TopLink(ResolveError::Link) => "Failed to join URL"@,
        BranchError::Selector => "Failed to create selector"@,
        BranchError::FirstLink(ResolveError::Base) => "Failed to parse full link"@,
        BranchError::FirstLink(ResolveError::Link) => "Failed to join URL"@,
    }
}

impl BranchError {
    /// The message that tells a reader what went wrong.
    pub fn message(&self) -> (text: String)
        ensures
            text@ == message_of(*self),
    {
        match self {
            BranchError::TopLink(ResolveError::Base) => "Failed to parse base URL".to_owned(),
            BranchError::TopLink(ResolveError::Link) => "Failed to join URL".to_owned(),
            BranchError::Selector => "Failed to create selector".to_owned(),
            BranchError::FirstLink(ResolveError::Base) => "Failed to parse full link".to_owned(),
            BranchError::FirstLink(ResolveError::Link) => "Failed to join URL".to_owned(),
        }
    }
}

/// The address of the page that a branch follows `link` to.
pub open spec fn followed_page(base: Seq<char>, link: Seq<char>) -> Result<
    Seq<char>,
    BranchError,
> {
    match resolved(base, link) {
        Ok(page) => Ok(page),
        Err(error) => Err(BranchError::TopLink(error)),
    }
}

/// What a branch downloads, given the links of the page it followed: what the
/// first of them points to, and nothing where the page has no link.
pub open spec fn target_among(page: Seq<char>, links: Seq<Seq<char>>) -> Result<
    Option<Seq<char>>,
    BranchError,
> {
    if links.len() == 0 {
        Ok(None)
    } else {
        match resolved(page, links[0]) {
            Ok(target) => Ok(Some(target)),
            Err(error) => Err(BranchError::FirstLink(error)),
        }
    }
}

/// What a branch downloads, given the body of the page it followed.
pub open spec fn target_on(page: Seq<char>, body: Seq<char>) -> Result<
    Option<Seq<char>>,
    BranchError,
> {
    match links_of(body) {
        Some(links) => target_among(page, links),
        None => Err(BranchError::Selector),
    }
}

/// The first step of a branch: resolves a link of the seed page against the
/// seed's address, which gives the address of the page to fetch next.
pub fn first_hop(base: &str, link: &str) -> (page: Result<String, BranchError>)
    ensures
        match page {
            Ok(address) => followed_page(base@, link@) == Ok::<Seq<char>, BranchError>(address@),
            Err(error) => followed_page(base@, link@) == Err::<Seq<char>, BranchError>(error),
        },
{
    match resolve(base, link) {
        Ok(address) => Ok(address),
        Err(error) => Err(BranchError::TopLink(error)),
    }
}

/// Picks the download of a branch out of the links of its page: the first
/// link, resolved against the page's address; the others are not looked at. A
/// page without links gives `None`, and the branch ends without a download.
pub fn choose_target(page: &str, links: &Vec<String>) -> (target: Result<
    Option<String>,
    BranchError,
>)
    ensures
        match target {
            Ok(Some(address)) => target_among(page@, links.deep_view()) == Ok::<
                Option<Seq<char>>,
                BranchError,
            >(Some(address@)),
            Ok(None) => target_among(page@, links.deep_view()) == Ok::<
                Option<Seq<char>>,
                BranchError,
            >(None),
            Err(error) => target_among(page@, links.deep_view()) == Err::<
                Option<Seq<char>>,
                BranchError,
            >(error),
        },
{
    if links.len() == 0 {
        return Ok(None);
    }
    assert(links.deep_view()[0] == links@[0]@);
    match resolve(page, links[0].as_str()) {
        Ok(address) => Ok(Some(address)),
        Err(error) => Err(BranchError::FirstLink(error)),
    }
}

/// The second step of a branch: reads the links of the fetched page and picks
/// the download among them.
pub fn second_hop(page: &str, body: &str) -> (target: Result<Option<String>, BranchError>)
    ensures
        match target {
            Ok(Some(address)) => target_on(page@, body@) == Ok::<Option<Seq<char>>, BranchError>(
                Some(address@),
            ),
            Ok(None) => target_on(page@, body@) == Ok::<Option<Seq<char>>, BranchError>(None),
            Err(error) => target_on(page@, body@) == Err::<Option<Seq<char>>, BranchError>(error),
        },
{
    match extract_links(body) {
        Ok(links) => choose_target(page, &links),
        Err(_) => Err(BranchError::Selector),
    }
}

} // verus!
