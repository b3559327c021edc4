//! The links of a page: the `href` values of its anchors, in document order.

use scraper::error::SelectorErrorKind;
use scraper::{Html, Selector};
use vstd::prelude::*;

verus! {

#[verifier::external_type_specification]
#[verifier::external_body]
pub struct ExSelectorErrorKind(SelectorErrorKind);

/// What selecting from a parsed page yields: for each element of the document
/// `body` that the CSS selector `css` matches, in document order, the value of
/// its attribute `attribute`, if it has that attribute. `None` where `css` is
/// no selector.
pub uninterp spec fn selected_values(
    body: Seq<char>,
    css: Seq<char>,
    attribute: Seq<char>,
) -> Option<Seq<Option<Seq<char>>>>;

/// The selector for anchors that carry an `href`.
pub const ANCHOR_WITH_HREF: &'static str = "a[href]";

/// The attribute that holds an anchor's link.
pub const HREF: &'static str = "href";

/// The `href` of each anchor-with-`href` of the page `body`, as the page parser
/// finds it; `None` only where the selector for such anchors is refused.
pub open spec fn anchor_hrefs(body: Seq<char>) -> Option<Seq<Option<Seq<char>>>> {
    selected_values(body, ANCHOR_WITH_HREF@, HREF@)
}

/// The values that are there, in their order.
pub open spec fn present(values: Seq<Option<Seq<char>>>) -> Seq<Seq<char>> {
    values.filter_map(|value: Option<Seq<char>>| value)
}

/// The links of the page `body`.
pub open spec fn links_of(body: Seq<char>) -> Option<Seq<Seq<char>>> {
    match anchor_hrefs(body) {
        Some(values) => Some(present(values)),
        None => None,
    }
}

/// Order and count are kept: where the page has `n` anchors with an `href`,
/// its links are `n`, and the link at each place is the `href` of the anchor at
/// that place, as written.
pub proof fn lemma_every_href_is_a_link(body: Seq<char>, hrefs: Seq<Seq<char>>)
    requires
        anchor_hrefs(body) == Some(hrefs.map_values(|href: Seq<char>| Some(href))),
    ensures
        links_of(body) == Some(hrefs),
{
    let values = hrefs.map_values(|href: Seq<char>| Some(href));
    lemma_present_of_all(values);
    assert(present(values) =~= hrefs);
}

/// A page without anchors has no links, which is no failure.
pub proof fn lemma_no_anchor_no_link(body: Seq<char>)
    requires
        anchor_hrefs(body) == Some(Seq::<Option<Seq<char>>>::empty()),
    ensures
        links_of(body) == Some(Seq::<Seq<char>>::empty()),
{
}

proof fn lemma_present_of_all(values: Seq<Option<Seq<char>>>)
    requires
        forall|i: int| 0 <= i < values.len() ==> (#[trigger] values[i]) is Some,
    ensures
        present(values).len() == values.len(),
        forall|i: int| 0 <= i < values.len() ==> present(values)[i] == values[i]->Some_0,
    decreases values.len(),
{
    if values.len() > 0 {
        lemma_present_of_all(values.drop_last());
    }
}

/// Links keep their order across a page: those of the first part come first.
pub proof fn lemma_present_of_parts(first: Seq<Option<Seq<char>>>, second: Seq<Option<Seq<char>>>)
    ensures
        present(first + second) == present(first) + present(second),
    decreases second.len(),
{
    if second.len() == 0 {
        assert(first + second =~= first);
        assert(present(first) + present(second) =~= present(first));
    } else {
        lemma_present_of_parts(first, second.drop_last());
        assert((first + second).drop_last() =~= first + second.drop_last());
        assert((first + second).last() == second.last());
        match second.last() {
            Some(value) => {
                assert(present(first + second) =~= present(first) + present(second));
            },
            None => {},
        }
    }
}

/// The selector for the anchors of a page was refused.
#[derive(Debug, Clone, Copy, PartialEq, Eq, Structural)]
pub struct SelectorRefused;

/// `Selector::parse`, `Html::parse_document`, `Html::select` and
/// `Element::attr`, in one pass over a page. Trusted: the outcome depends on
/// the three texts alone, so it is the one that `selected_values` names; the
/// error is that of `Selector::parse`, which alone can fail.
#[verifier::external_body]
fn select_attribute(body: &str, css: &str, attribute: &str) -> (found: Result<
    Vec<Option<String>>,
    SelectorErrorKind,
>)
    ensures
        match found {
            Ok(values) => selected_values(body@, css@, attribute@) == Some(values.deep_view()),
            Err(_) => selected_values(body@, css@, attribute@) is None,
        },
{
    let selector = Selector::parse(css)?;
    let document = Html::parse_document(body);
    Ok(
        document.select(&selector).map(
            |element| element.value().attr(attribute).map(|value| value.to_string()),
        ).collect(),
    )
}

/// Keeps the values that are there, in their order.
pub fn collect_present(values: &Vec<Option<String>>) -> (links: Vec<String>)
    ensures
        links.deep_view() == present(values.deep_view()),
{
    let ghost all = values.deep_view();
    let ghost keep = |value: Option<Seq<char>>| value;
    let mut links: Vec<String> = Vec::new();
    let n = values.len();
    let mut i: usize = 0;
    assert(links.deep_view() =~= all.take(0).filter_map(keep));
    while i < n
        invariant
            i <= n,
            n == values.len(),
            all == values.deep_view(),
            keep == |value: Option<Seq<char>>| value,
            links.deep_view() == all.take(i as int).filter_map(keep),
        decreases n - i,
    {
        let ghost before = links.deep_view();
        proof {
            all.lemma_filter_map_take_succ(keep, i as int);
        }
        match &values[i] {
            Some(link) => {
                links.push(link.clone());
                assert(links.deep_view() =~= before + seq![link@]);
            },
            None => {},
        }
        i += 1;
    }
    assert(all.take(n as int) =~= all);
    links
}

/// Extracts the links of a page: the `href` value of every anchor that has
/// one, as written, in document order. A page without such anchors has no
/// links, which is no error.
pub fn extract_links(body: &str) -> (links: Result<Vec<String>, SelectorRefused>)
    ensures
        match links {
            Ok(found) => links_of(body@) == Some(found.deep_view()),
            Err(_) => links_of(body@) is None,
        },
{
    match select_attribute(body, ANCHOR_WITH_HREF, HREF) {
        Ok(values) => Ok(collect_present(&values)),
        Err(_) => Err(SelectorRefused),
    }
}

} // verus!
