use vstd::prelude::*;

use crate::player::text_view;

verus! {

/// What scraper gives for `page` parsed as an HTML document: the value of
/// `attribute` on the first element that the CSS `selector` matches, taking
/// the nodes in the order `Html::select` walks them (the order in which the
/// parser created them); `None` when the selector does not parse, nothing
/// matches, or the first match lacks the attribute.
pub uninterp spec fn first_selected_attribute(
    page: Seq<char>,
    selector: Seq<char>,
    attribute: Seq<char>,
) -> Option<Seq<char>>;

/// Runs scraper on `page`: `Html::parse_document`, `Selector::parse` on
/// `selector`, `Html::select` and the first match's `Element::attr` for
/// `attribute`. The contract claims only that the result is the value that
/// `first_selected_attribute` names: a function of the three texts.
#[verifier::external_body]
fn select_first_attribute(page: &str, selector: &str, attribute: &str) -> (value: Option<String>)
    ensures
        text_view(value) == first_selected_attribute(page@, selector@, attribute@),
{
    let document = scraper::Html::parse_document(page);
    let selector = scraper::Selector::parse(selector).ok()?;
    let element = document.select(&selector).next()?;
    element.value().attr(attribute).map(str::to_string)
}

/// The page title that a link preview shows: the `content` of the first
/// `<meta property="og:title">` of the page.
pub fn title_from_page(page: &str) -> (title: Option<String>)
    ensures
        text_view(title) == first_selected_attribute(
            page@,
            "meta[property=\"og:title\"]"@,
            "content"@,
        ),
{
    select_first_attribute(page, "meta[property=\"og:title\"]", "content")
}

} // verus!
