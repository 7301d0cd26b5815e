//! Link extraction: the attribute values of the elements a selector picks
//! from a document, in the order in which the parser hands them out.

use scraper::{Html, Selector};
use vstd::prelude::*;

verus! {

/// Whether `scraper::Selector::parse` accepts `selector` as a selector group.
pub uninterp spec fn selector_parses(selector: Seq<char>) -> bool;

/// What `scraper::Html::select` finds: for a document parsed by
/// `Html::parse_document` and a selector parsed by `Selector::parse`, one
/// entry per selected element, in the order of the iterator, holding what
/// `Element::attr` returns for `attribute`.
pub uninterp spec fn selected_attributes(
    document: Seq<char>,
    selector: Seq<char>,
    attribute: Seq<char>,
) -> Seq<Option<Seq<char>>>;

/// The values that are there, in their order: entries without a value are
/// passed over.
pub open spec fn present(found: Seq<Option<Seq<char>>>) -> Seq<Seq<char>>
    decreases found.len(),
{
    if found.len() == 0 {
        Seq::empty()
    } else {
        match found.last() {
            Some(value) => present(found.drop_last()).push(value),
            None => present(found.drop_last()),
        }
    }
}

/// What list extraction yields. An empty document holds nothing to select,
/// and text that is no selector selects nothing.
pub open spec fn extracted(
    document: Seq<char>,
    selector: Seq<char>,
    attribute: Seq<char>,
) -> Seq<Seq<char>> {
    if document.len() == 0 || !selector_parses(selector) {
        Seq::empty()
    } else {
        present(selected_attributes(document, selector, attribute))
    }
}

/// What single-match extraction yields: the first extracted value, if any.
pub open spec fn first_extracted(
    document: Seq<char>,
    selector: Seq<char>,
    attribute: Seq<char>,
) -> Option<Seq<char>> {
    let all = extracted(document, selector, attribute);
    if all.len() == 0 {
        None
    } else {
        Some(all[0])
    }
}

/// The failure of single-match extraction.
#[derive(Clone, Copy, Debug, PartialEq, Eq, Structural)]
pub enum ExtractError {
    /// No selected element carries the attribute.
    NotFound,
}

/// Calls `scraper::Selector::parse`, `scraper::Html::parse_document`,
/// `Html::select` and, on each selected element, `Element::attr`.
///
/// Trusted: the result is `None` exactly when the selector text is refused;
/// otherwise it holds, per selected element and in the iterator's order, the
/// attribute's value or `None` where the element lacks the attribute. Both
/// are functions of the three texts alone.
#[verifier::external_body]
fn select_attributes(document: &str, selector: &str, attribute: &str) -> (found: Option<
    Vec<Option<String>>,
>)
    ensures
        found.is_some() == selector_parses(selector@),
        found matches Some(values) ==> values.deep_view() == selected_attributes(
            document@,
            selector@,
            attribute@,
        ),
{
    let selector = Selector::parse(selector).ok()?;
    let document = Html::parse_document(document);
    Some(
        document.select(&selector).map(
            |element| element.value().attr(attribute).map(|value| value.to_string()),
        ).collect(),
    )
}

/// Keeps the values that are there, in their order.
pub fn present_values(found: &Vec<Option<String>>) -> (values: Vec<String>)
    ensures
        values.deep_view() == present(found.deep_view()),
{
    let mut values: Vec<String> = Vec::new();
    let mut i: usize = 0;
    while i < found.len()
        invariant
            i <= found.len(),
            values.deep_view() == present(found.deep_view().take(i as int)),
        decreases found.len() - i,
    {
        let ghost before = values.deep_view();
        let ghost prefix = found.deep_view().take(i as int + 1);
        assert(prefix.drop_last() == found.deep_view().take(i as int));
        assert(prefix.last() == found[i as int].deep_view());
        match &found[i] {
            Some(value) => {
                values.push(value.clone());
                assert(values.deep_view() == before.push(value@));
            },
            None => {},
        }
        i = i + 1;
    }
    assert(found.deep_view().take(i as int) == found.deep_view());
    values
}

/// List extraction: the value of `attribute` on each element of `document`
/// that `selector` picks, passing over elements that lack it.
pub fn extract(document: &str, selector: &str, attribute: &str) -> (links: Vec<String>)
    ensures
        links.deep_view() == extracted(document@, selector@, attribute@),
        document@.len() == 0 ==> links@.len() == 0,
{
    if document.is_empty() {
        return Vec::new();
    }
    match select_attributes(document, selector, attribute) {
        Some(found) => present_values(&found),
        None => Vec::new(),
    }
}

/// Single-match extraction: the first value that list extraction yields.
pub fn extract_first(document: &str, selector: &str, attribute: &str) -> (link: Result<
    String,
    ExtractError,
>)
    ensures
        match first_extracted(document@, selector@, attribute@) {
            Some(value) => link matches Ok(text) && text@ == value,
            None => link == Err::<String, ExtractError>(ExtractError::NotFound),
        },
{
    let links = extract(document, selector, attribute);
    if links.len() == 0 {
        Err(ExtractError::NotFound)
    } else {
        Ok(links[0].clone())
    }
}

/// An empty document yields no link under any selector and any attribute:
/// list extraction is empty, single-match extraction finds nothing.
pub proof fn lemma_empty_document_yields_nothing(selector: Seq<char>, attribute: Seq<char>)
    ensures
        extracted(Seq::empty(), selector, attribute) == Seq::<Seq<char>>::empty(),
        first_extracted(Seq::empty(), selector, attribute) == None::<Seq<char>>,
{
}

} // verus!
