//! The minimal document-query capability the response parser rests on:
//! select elements of an HTML document by a CSS selector and read their inner
//! HTML, their text, or one attribute.
//!
//! Each query is a pure function of the document text and the selector text;
//! the querying itself is done by the `scraper` crate behind trusted
//! wrappers, and the results are given names that the parser's contracts
//! speak of.

use vstd::prelude::*;

use scraper::Element;

verus! {

/// The inner HTML of each element of `doc` matching `sel`, in document
/// order; empty when the selector text is not valid CSS.
pub uninterp spec fn inner_htmls_of(doc: Seq<char>, sel: Seq<char>) -> Seq<Seq<char>>;

/// Relies on scraper's `Html::parse_document`, `Selector::parse` and
/// `ElementRef::inner_html`: parsing and matching are deterministic in the
/// document and selector texts, and matches come in document order.
#[verifier::external_body]
pub(crate) fn select_inner_htmls(html: &str, sel: &str) -> (r: Vec<String>)
    ensures
        r.deep_view() == inner_htmls_of(html@, sel@),
{
    let doc = scraper::Html::parse_document(html);
    match scraper::Selector::parse(sel) {
        Ok(s) => doc.select(&s).map(|e| e.inner_html()).collect(),
        Err(_) => Vec::new(),
    }
}

/// The value of attribute `attr` on each element of `doc` matching `sel`, in
/// document order; `None` where a matched element lacks the attribute; empty
/// when the selector text is not valid CSS.
pub uninterp spec fn attr_values_of(doc: Seq<char>, sel: Seq<char>, attr: Seq<char>) -> Seq<
    Option<Seq<char>>,
>;

/// Relies on scraper's `Html::parse_document`, `Selector::parse` and
/// `ElementRef::attr`: deterministic in the three texts, matches in document
/// order, `None` exactly where the attribute is absent.
#[verifier::external_body]
pub(crate) fn select_attr_values(html: &str, sel: &str, attr: &str) -> (r: Vec<Option<String>>)
    ensures
        r.deep_view() == attr_values_of(html@, sel@, attr@),
{
    let doc = scraper::Html::parse_document(html);
    match scraper::Selector::parse(sel) {
        Ok(s) => doc.select(&s).map(|e| e.attr(attr).map(|v| v.to_string())).collect(),
        Err(_) => Vec::new(),
    }
}

/// The first text node of each element of `doc` matching `sel`, in document
/// order; `None` where a matched element holds no text; empty when the
/// selector text is not valid CSS.
pub uninterp spec fn first_texts_of(doc: Seq<char>, sel: Seq<char>) -> Seq<Option<Seq<char>>>;

/// Relies on scraper's `Html::parse_document`, `Selector::parse` and
/// `ElementRef::text`: deterministic in the two texts, matches in document
/// order, `None` exactly where the element holds no text node.
#[verifier::external_body]
pub(crate) fn select_first_texts(html: &str, sel: &str) -> (r: Vec<Option<String>>)
    ensures
        r.deep_view() == first_texts_of(html@, sel@),
{
    let doc = scraper::Html::parse_document(html);
    match scraper::Selector::parse(sel) {
        Ok(s) => doc.select(&s).map(|e| e.text().next().map(|t| t.to_string())).collect(),
        Err(_) => Vec::new(),
    }
}

/// For each element of `doc` matching `sel`, in document order: its inner
/// HTML, paired with the inner HTML of the first `span` inside its next
/// sibling element, if there is one; empty when the selector text is not
/// valid CSS.
pub uninterp spec fn sibling_span_htmls_of(doc: Seq<char>, sel: Seq<char>) -> Seq<
    (Seq<char>, Option<Seq<char>>),
>;

/// Relies on scraper's `Html::parse_document`, `Selector::parse`,
/// `ElementRef::inner_html` and the `Element` impl's `next_sibling_element`:
/// deterministic in the two texts, matches in document order.
#[verifier::external_body]
pub(crate) fn select_sibling_span_htmls(html: &str, sel: &str) -> (r: Vec<
    (String, Option<String>),
>)
    ensures
        r.deep_view() == sibling_span_htmls_of(html@, sel@),
{
    let doc = scraper::Html::parse_document(html);
    let span = scraper::Selector::parse("span").unwrap();
    match scraper::Selector::parse(sel) {
        Ok(s) => doc.select(&s).map(
            |e|
                (
                    e.inner_html(),
                    e.next_sibling_element().and_then(|sib| sib.select(&span).next()).map(
                        |x| x.inner_html(),
                    ),
                ),
        ).collect(),
        Err(_) => Vec::new(),
    }
}

} // verus!
