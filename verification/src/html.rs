//! The HTML engine behind the harvester: parsing a page and asking it for
//! elements, texts and attributes. All of it is the work of `scraper`; what
//! it finds is named here and not restated.

use scraper::{ElementRef, Html, Selector};
use vstd::prelude::*;

verus! {

/// `scraper::Html`, a parsed page.
#[verifier::external_type_specification]
#[verifier::external_body]
pub struct ExHtml(scraper::Html);

/// `scraper::ElementRef`, an element of a parsed page.
#[verifier::external_type_specification]
#[verifier::external_body]
pub struct ExElementRef<'a>(scraper::ElementRef<'a>);

/// The page that `scraper` parses from the text `html`.
pub uninterp spec fn html_document(html: Seq<char>) -> Html;

/// The elements of `document` that match the selector `css`, in the order
/// in which `scraper` hands them out; nothing where `css` is no selector.
pub uninterp spec fn document_matches(document: Html, css: Seq<char>) -> Option<
    Seq<ElementRef<'static>>,
>;

/// The element below `element` that `scraper` hands out first for the
/// selector `css`; nothing where there is none or `css` is no selector.
pub uninterp spec fn first_match(element: ElementRef, css: Seq<char>) -> Option<ElementRef>;

/// The texts at and below `element`, joined in the order in which
/// `scraper` hands them out.
pub uninterp spec fn element_text(element: ElementRef) -> Seq<char>;

/// The text at or below `element` that `scraper` hands out first.
pub uninterp spec fn element_first_text(element: ElementRef) -> Option<Seq<char>>;

/// The value of the attribute `name` of `element`.
pub uninterp spec fn element_attribute(element: ElementRef, name: Seq<char>) -> Option<Seq<char>>;

/// Calls `scraper::Html::parse_document`, which parses any text.
#[verifier::external_body]
pub(crate) fn parse_document(html: &str) -> (document: Html)
    ensures
        document == html_document(html@),
{
    Html::parse_document(html)
}

/// Parses `css` with `scraper::Selector::parse` and collects what
/// `scraper::Html::select` yields for it.
#[verifier::external_body]
pub(crate) fn select_all<'a>(document: &'a Html, css: &str) -> (found: Option<Vec<ElementRef<'a>>>)
    ensures
        found matches Some(v) ==> document_matches(*document, css@) == Some(v@),
        found is None ==> document_matches(*document, css@) is None,
{
    Selector::parse(css).ok().map(|selector| document.select(&selector).collect())
}

/// Parses `css` with `scraper::Selector::parse` and takes the first element
/// that `scraper::ElementRef::select` yields for it.
#[verifier::external_body]
pub(crate) fn select_first<'a>(element: &ElementRef<'a>, css: &str) -> (found: Option<ElementRef<'a>>)
    ensures
        found == first_match(*element, css@),
{
    Selector::parse(css).ok().and_then(|selector| element.select(&selector).next())
}

/// Joins what `scraper::ElementRef::text` yields.
#[verifier::external_body]
pub(crate) fn text_of(element: &ElementRef) -> (text: String)
    ensures
        text@ == element_text(*element),
{
    element.text().collect::<String>()
}

/// Takes the first item that `scraper::ElementRef::text` yields.
#[verifier::external_body]
pub(crate) fn first_text_of(element: &ElementRef) -> (text: Option<String>)
    ensures
        text matches Some(t) ==> element_first_text(*element) == Some(t@),
        text is None ==> element_first_text(*element) is None,
{
    element.text().next().map(|t| t.to_string())
}

/// Calls `scraper::ElementRef::attr`.
#[verifier::external_body]
pub(crate) fn attribute_of(element: &ElementRef, name: &str) -> (value: Option<String>)
    ensures
        value matches Some(v) ==> element_attribute(*element, name@) == Some(v@),
        value is None ==> element_attribute(*element, name@) is None,
{
    element.attr(name).map(|v| v.to_string())
}

} // verus!
