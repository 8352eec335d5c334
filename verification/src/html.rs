//! Querying an HTML document with a CSS selector, done by the `scraper` crate.

use vstd::prelude::*;

verus! {

/// What a selector query finds in a document, as `scraper` computes it:
/// `None` when the selector is not valid CSS or the query yields no element;
/// otherwise `Some(value)`, where `value` is the named attribute of the
/// first element that the query yields, or `None` when that element does
/// not carry the attribute.
pub uninterp spec fn first_match_attr(
    document: Seq<char>,
    selector: Seq<char>,
    attribute: Seq<char>,
) -> Option<Option<Seq<char>>>;

/// The text of a query result.
pub open spec fn match_view(found: Option<Option<String>>) -> Option<Option<Seq<char>>> {
    match found {
        None => None,
        Some(None) => Some(None),
        Some(Some(value)) => Some(Some(value@)),
    }
}

/// Parses `document` with `scraper::Html::parse_document` and `selector` with
/// `scraper::Selector::parse`, takes the first element that
/// `scraper::Html::select` yields and reads `attribute` from it with
/// `scraper::node::Element::attr`.
///
/// Trusted: the result is a function of the three texts alone, named
/// [`first_match_attr`]. Nothing is claimed about which elements match.
#[verifier::external_body]
pub(crate) fn select_first_attr(document: &str, selector: &str, attribute: &str) -> (found: Option<
    Option<String>,
>)
    ensures
        match_view(found) == first_match_attr(document@, selector@, attribute@),
{
    let page = scraper::Html::parse_document(document);
    let rule = scraper::Selector::parse(selector).ok()?;
    let element = page.select(&rule).next()?;
    Some(element.value().attr(attribute).map(|value| value.to_string()))
}

} // verus!
