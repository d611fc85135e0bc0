//! The parsed page: the document tree of the `scraper` crate, its elements
//! and CSS selectors, and the few questions this library asks of them.
//!
//! The tree and the selector engine are not verified here. Each question is
//! one call into `scraper`, and its answer has a name under which the
//! contracts of this library speak of it.

use scraper::{CaseSensitivity, Element, ElementRef, Html, Selector};
use vstd::prelude::*;

verus! {

/// `scraper::Html`, the parsed document. Nothing inside it is visible here.
#[verifier::external_type_specification]
#[verifier::external_body]
pub struct ExHtml(Html);

/// `scraper::Selector`, a parsed CSS selector. Nothing inside it is visible
/// here.
#[verifier::external_type_specification]
#[verifier::external_body]
pub struct ExSelector(Selector);

/// `scraper::ElementRef`, one element of a document together with the
/// document it stands in. Nothing inside it is visible here.
#[verifier::external_type_specification]
#[verifier::external_body]
pub struct ExElementRef<'a>(ElementRef<'a>);

/// The document that `Html::parse_document` builds from `html`.
pub uninterp spec fn parsed_document(html: Seq<char>) -> Html;

/// The selector that `Selector::parse` reads from `css`; `None` where it
/// reports an error.
pub uninterp spec fn parsed_selector(css: Seq<char>) -> Option<Selector>;

/// The elements of `doc` that `selector` matches, in the order in which
/// `Html::select` yields them.
pub uninterp spec fn document_matches(doc: &Html, selector: Selector) -> Seq<ElementRef>;

/// The elements below `scope` that `selector` matches, in the order in which
/// `ElementRef::select` yields them.
pub uninterp spec fn element_matches(scope: ElementRef, selector: Selector) -> Seq<ElementRef>;

/// Whether `selector` matches `e` itself, as `Selector::matches` decides it.
pub uninterp spec fn selector_accepts(selector: Selector, e: ElementRef) -> bool;

/// The text nodes below `e`, written one after another, as `ElementRef::text`
/// yields them.
pub uninterp spec fn text_of(e: ElementRef) -> Seq<char>;

/// The value of the attribute `name` of `e`, as `ElementRef::attr` returns it.
pub uninterp spec fn attr_of(e: ElementRef, name: Seq<char>) -> Option<Seq<char>>;

/// The markup inside `e`, as `ElementRef::inner_html` writes it.
pub uninterp spec fn inner_html_of(e: ElementRef) -> Seq<char>;

/// Whether `e` has the class `class`, letters compared without regard to
/// ASCII case, as `Element::has_class` of `scraper::node` decides it.
pub uninterp spec fn has_class(e: ElementRef, class: Seq<char>) -> bool;

/// The next sibling of `e` that is an element, as
/// `Element::next_sibling_element` returns it.
pub uninterp spec fn next_element_of(e: ElementRef) -> Option<ElementRef>;

/// The ancestors of `e` from its parent up to the root, each as the element
/// it is, or `None` where the node is no element.
pub uninterp spec fn ancestors_of(e: ElementRef) -> Seq<Option<ElementRef>>;

/// The children of `e` in order, each as the text it holds, or `None` where
/// the child is no text node.
pub uninterp spec fn child_texts_of(e: ElementRef) -> Seq<Option<Seq<char>>>;

/// Calls `Html::parse_document`. Parsing never fails; the tree depends on
/// the text alone.
#[verifier::external_body]
pub(crate) fn parse_document(html: &str) -> (doc: Html)
    ensures
        doc == parsed_document(html@),
{
    Html::parse_document(html)
}

/// Calls `Selector::parse`. The result depends on the text alone.
#[verifier::external_body]
pub(crate) fn parse_selector(css: &str) -> (selector: Option<Selector>)
    ensures
        selector == parsed_selector(css@),
{
    match Selector::parse(css) {
        Ok(selector) => Some(selector),
        Err(_) => None,
    }
}

/// Calls `Html::select` and collects what it yields.
#[verifier::external_body]
pub(crate) fn document_select<'a>(doc: &'a Html, selector: &Selector) -> (found: Vec<
    ElementRef<'a>,
>)
    ensures
        found@ == document_matches(doc, *selector),
{
    doc.select(selector).collect()
}

/// Calls `ElementRef::select` and collects what it yields.
#[verifier::external_body]
pub(crate) fn element_select<'a>(scope: ElementRef<'a>, selector: &Selector) -> (found: Vec<
    ElementRef<'a>,
>)
    ensures
        found@ == element_matches(scope, *selector),
{
    scope.select(selector).collect()
}

/// Calls `Selector::matches`.
#[verifier::external_body]
pub(crate) fn selector_matches(selector: &Selector, e: ElementRef) -> (accepted: bool)
    ensures
        accepted == selector_accepts(*selector, e),
{
    selector.matches(&e)
}

/// Calls `ElementRef::text` and writes the pieces one after another.
#[verifier::external_body]
pub(crate) fn element_text(e: ElementRef) -> (text: String)
    ensures
        text@ == text_of(e),
{
    e.text().collect()
}

/// Calls `ElementRef::attr`.
#[verifier::external_body]
pub(crate) fn element_attr(e: ElementRef, name: &str) -> (value: Option<String>)
    ensures
        value.deep_view() == attr_of(e, name@),
{
    e.attr(name).map(String::from)
}

/// Calls `ElementRef::inner_html`.
#[verifier::external_body]
pub(crate) fn element_inner_html(e: ElementRef) -> (markup: String)
    ensures
        markup@ == inner_html_of(e),
{
    e.inner_html()
}

/// Calls `has_class` of the element's node, asking for a comparison without
/// regard to ASCII case.
#[verifier::external_body]
pub(crate) fn element_has_class(e: ElementRef, class: &str) -> (found: bool)
    ensures
        found == has_class(e, class@),
{
    e.value().has_class(class, CaseSensitivity::AsciiCaseInsensitive)
}

/// Calls `Element::next_sibling_element`.
#[verifier::external_body]
pub(crate) fn next_sibling_element<'a>(e: ElementRef<'a>) -> (next: Option<ElementRef<'a>>)
    ensures
        next == next_element_of(e),
{
    e.next_sibling_element()
}

/// Calls `ancestors` of the element's node and wraps each node that is an
/// element.
#[verifier::external_body]
pub(crate) fn ancestor_nodes<'a>(e: ElementRef<'a>) -> (nodes: Vec<Option<ElementRef<'a>>>)
    ensures
        nodes@ == ancestors_of(e),
{
    e.ancestors().map(ElementRef::wrap).collect()
}

/// Calls `children` of the element's node and copies the text of each child
/// that is a text node.
#[verifier::external_body]
pub(crate) fn child_texts(e: ElementRef) -> (texts: Vec<Option<String>>)
    ensures
        texts.deep_view() == child_texts_of(e),
{
    e.children().map(|node| node.value().as_text().map(|t| t.to_string())).collect()
}

/// The elements below `scope` that the selector written as `css` matches;
/// none where `css` is no selector.
pub open spec fn matches_in(scope: ElementRef, css: Seq<char>) -> Seq<ElementRef> {
    match parsed_selector(css) {
        Some(selector) => element_matches(scope, selector),
        None => Seq::empty(),
    }
}

/// The elements of `doc` that the selector written as `css` matches; none
/// where `css` is no selector.
pub open spec fn matches_in_document(doc: &Html, css: Seq<char>) -> Seq<ElementRef> {
    match parsed_selector(css) {
        Some(selector) => document_matches(doc, selector),
        None => Seq::empty(),
    }
}

/// The first element below `scope` that `css` matches.
pub open spec fn first_match_in(scope: ElementRef, css: Seq<char>) -> Option<ElementRef> {
    if matches_in(scope, css).len() > 0 {
        Some(matches_in(scope, css)[0])
    } else {
        None
    }
}

/// The first element of `doc` that `css` matches.
pub open spec fn first_match_in_document(doc: &Html, css: Seq<char>) -> Option<ElementRef> {
    if matches_in_document(doc, css).len() > 0 {
        Some(matches_in_document(doc, css)[0])
    } else {
        None
    }
}

/// All elements below `scope` that `css` matches.
pub fn select_all<'a>(scope: ElementRef<'a>, css: &str) -> (found: Vec<ElementRef<'a>>)
    ensures
        found@ == matches_in(scope, css@),
{
    match parse_selector(css) {
        Some(selector) => element_select(scope, &selector),
        None => Vec::new(),
    }
}

/// All elements of `doc` that `css` matches.
pub fn select_all_in_document<'a>(doc: &'a Html, css: &str) -> (found: Vec<ElementRef<'a>>)
    ensures
        found@ == matches_in_document(doc, css@),
{
    match parse_selector(css) {
        Some(selector) => document_select(doc, &selector),
        None => Vec::new(),
    }
}

/// The first element below `scope` that `css` matches.
pub fn select_first<'a>(scope: ElementRef<'a>, css: &str) -> (found: Option<ElementRef<'a>>)
    ensures
        found == first_match_in(scope, css@),
{
    let all = select_all(scope, css);
    if all.len() > 0 {
        Some(all[0])
    } else {
        None
    }
}

/// The first element of `doc` that `css` matches.
pub fn select_first_in_document<'a>(doc: &'a Html, css: &str) -> (found: Option<ElementRef<'a>>)
    ensures
        found == first_match_in_document(doc, css@),
{
    let all = select_all_in_document(doc, css);
    if all.len() > 0 {
        Some(all[0])
    } else {
        None
    }
}

/// The value of the attribute `name` of the first element below `scope`
/// that `css` matches.
pub open spec fn first_attr_in(scope: ElementRef, css: Seq<char>, name: Seq<char>) -> Option<
    Seq<char>,
> {
    match first_match_in(scope, css) {
        Some(e) => attr_of(e, name),
        None => None,
    }
}

/// The value of the attribute `name` of the first element below `scope`
/// that `css` matches; `None` where nothing matches or the first match lacks
/// the attribute.
pub fn select_first_attr(scope: ElementRef, css: &str, name: &str) -> (value: Option<String>)
    ensures
        value.deep_view() == first_attr_in(scope, css@, name@),
{
    match select_first(scope, css) {
        Some(e) => element_attr(e, name),
        None => None,
    }
}

} // verus!
