//! Reading HTML documents: the parsed document stays with the parser, and the
//! library speaks of its elements by the numbers of their nodes.
//!
//! Parsing and matching are the work of the `scraper` crate. What it returns
//! is not proved here: each call stands behind a function whose contract
//! gives the result a name, and everything built on those results is proved
//! against the names.

use crate::text::{text_view, texts_view};
use scraper::{ElementRef, Html, Selector};
use vstd::prelude::*;

verus! {

/// A parsed HTML document of `scraper`, which the library carries and never
/// looks into.
#[verifier::external_type_specification]
#[verifier::external_body]
pub struct ExHtml(Html);

/// The text that a document was parsed from.
pub uninterp spec fn document_markup(doc: Html) -> Seq<char>;

/// The elements of the document parsed from `markup` that match `selector`,
/// by the numbers of their nodes, in the order in which the document yields
/// them; none where `selector` is no selector.
pub uninterp spec fn document_matches(markup: Seq<char>, selector: Seq<char>) -> Seq<usize>;

/// The elements below the element `node` that match `selector` with `node`
/// as their scope, in the order of the document; none where `selector` is no
/// selector or `node` is no element.
pub uninterp spec fn element_matches(markup: Seq<char>, node: usize, selector: Seq<char>) -> Seq<
    usize,
>;

/// The children of the element `node` that are elements, in their order;
/// none where `node` is no element.
pub uninterp spec fn element_children(markup: Seq<char>, node: usize) -> Seq<usize>;

/// The content of the element `node`, written out as HTML; empty where
/// `node` is no element.
pub uninterp spec fn element_inner_html(markup: Seq<char>, node: usize) -> Seq<char>;

/// The value of the attribute `name` of the element `node`, if `node` is an
/// element and has one.
pub uninterp spec fn element_attribute(markup: Seq<char>, node: usize, name: Seq<char>) -> Option<
    Seq<char>,
>;

/// The first child of the element `node`: nothing where `node` is no
/// element or has no child, else the text of that child where it is a text,
/// and nothing where it is something else.
pub uninterp spec fn element_first_text(markup: Seq<char>, node: usize) -> Option<
    Option<Seq<char>>,
>;

/// Calls `Html::parse_document`, which takes any text and makes the best
/// document of it. Believed: the document is the one parsed from `markup`.
#[verifier::external_body]
pub(crate) fn parse_document(markup: &str) -> (doc: Html)
    ensures
        document_markup(doc) == markup@,
{
    Html::parse_document(markup)
}

/// Calls `Html::select` with the selector that `Selector::parse` makes of
/// `selector`. Believed: the elements come as `document_matches` names them,
/// each as the number of its node, which is the count of the nodes before it
/// in the tree; and a text that is no selector gives none.
#[verifier::external_body]
pub(crate) fn select(doc: &Html, selector: &str) -> (found: Vec<usize>)
    ensures
        found@ == document_matches(document_markup(*doc), selector@),
{
    match Selector::parse(selector) {
        Ok(parsed) => doc.select(&parsed).map(
            |e| doc.tree.nodes().take_while(|n| n.id() != e.id()).count(),
        ).collect(),
        Err(_) => Vec::new(),
    }
}

/// Calls `ElementRef::select` on the element `node`, which is the scope of
/// the match. Believed: the elements come as `element_matches` names them,
/// and a text that is no selector, or a node that is no element, gives none.
#[verifier::external_body]
pub(crate) fn select_within(doc: &Html, node: usize, selector: &str) -> (found: Vec<usize>)
    ensures
        found@ == element_matches(document_markup(*doc), node, selector@),
{
    match (doc.tree.nodes().nth(node).and_then(ElementRef::wrap), Selector::parse(selector)) {
        (Some(scope), Ok(parsed)) => scope.select(&parsed).map(
            |e| doc.tree.nodes().take_while(|n| n.id() != e.id()).count(),
        ).collect(),
        _ => Vec::new(),
    }
}

/// Calls `ElementRef::child_elements` on the element `node`. Believed: the
/// children come as `element_children` names them, and a node that is no
/// element gives none.
#[verifier::external_body]
pub(crate) fn child_elements(doc: &Html, node: usize) -> (found: Vec<usize>)
    ensures
        found@ == element_children(document_markup(*doc), node),
{
    match doc.tree.nodes().nth(node).and_then(ElementRef::wrap) {
        Some(parent) => parent.child_elements().map(
            |e| doc.tree.nodes().take_while(|n| n.id() != e.id()).count(),
        ).collect(),
        None => Vec::new(),
    }
}

/// Calls `ElementRef::inner_html` on the element `node`, which writes its
/// content out as HTML. Believed: the text is the one that
/// `element_inner_html` names, empty for a node that is no element.
#[verifier::external_body]
pub(crate) fn inner_html(doc: &Html, node: usize) -> (text: String)
    ensures
        text@ == element_inner_html(document_markup(*doc), node),
{
    match doc.tree.nodes().nth(node).and_then(ElementRef::wrap) {
        Some(element) => element.inner_html(),
        None => String::new(),
    }
}

/// Calls `ElementRef::attr` on the element `node`. Believed: the value is
/// the one that `element_attribute` names, and there is none where the
/// element has no such attribute.
#[verifier::external_body]
pub(crate) fn attribute(doc: &Html, node: usize, name: &str) -> (value: Option<String>)
    ensures
        text_view(value) == element_attribute(document_markup(*doc), node, name@),
{
    match doc.tree.nodes().nth(node).and_then(ElementRef::wrap) {
        Some(element) => element.attr(name).map(|v| v.to_string()),
        None => None,
    }
}

/// Calls `NodeRef::first_child` on the element `node` and `Node::as_text` on
/// the child. Believed: what comes is what `element_first_text` names:
/// nothing for an element without child, and for a child that is no text
/// nothing inside.
#[verifier::external_body]
pub(crate) fn first_text(doc: &Html, node: usize) -> (text: Option<Option<String>>)
    ensures
        match text {
            Some(inner) => element_first_text(document_markup(*doc), node) == Some(
                text_view(inner),
            ),
            None => element_first_text(document_markup(*doc), node) is None,
        },
{
    match doc.tree.nodes().nth(node).and_then(ElementRef::wrap) {
        Some(element) => element.first_child().map(
            |child| child.value().as_text().map(|t| t.to_string()),
        ),
        None => None,
    }
}


/// The first of `nodes`, if there is one.
pub open spec fn first_of(nodes: Seq<usize>) -> Option<usize> {
    if nodes.len() > 0 {
        Some(nodes[0])
    } else {
        None
    }
}

/// The first element of the document that matches `selector`.
pub open spec fn document_first(markup: Seq<char>, selector: Seq<char>) -> Option<usize> {
    first_of(document_matches(markup, selector))
}

/// The content of the first element of the document that matches `selector`.
pub open spec fn document_first_html(markup: Seq<char>, selector: Seq<char>) -> Option<Seq<char>> {
    match document_first(markup, selector) {
        Some(node) => Some(element_inner_html(markup, node)),
        None => None,
    }
}

/// The first element below `node` that matches `selector`.
pub open spec fn element_first(markup: Seq<char>, node: usize, selector: Seq<char>) -> Option<
    usize,
> {
    first_of(element_matches(markup, node, selector))
}

/// The content of the first element below `node` that matches `selector`.
pub open spec fn element_first_html(markup: Seq<char>, node: usize, selector: Seq<char>) -> Option<
    Seq<char>,
> {
    match element_first(markup, node, selector) {
        Some(found) => Some(element_inner_html(markup, found)),
        None => None,
    }
}

/// The attribute `name` of the first element below `node` that matches
/// `selector`: nothing where there is no such element, else what the element
/// has under that name.
pub open spec fn element_first_attribute(
    markup: Seq<char>,
    node: usize,
    selector: Seq<char>,
    name: Seq<char>,
) -> Option<Option<Seq<char>>> {
    match element_first(markup, node, selector) {
        Some(found) => Some(element_attribute(markup, found, name)),
        None => None,
    }
}

/// The attribute `name` of the first element of the document that matches
/// `selector`.
pub open spec fn document_first_attribute(markup: Seq<char>, selector: Seq<char>, name: Seq<char>)
    -> Option<Option<Seq<char>>> {
    match document_first(markup, selector) {
        Some(found) => Some(element_attribute(markup, found, name)),
        None => None,
    }
}

/// An attribute that was looked for, as sequences of characters.
pub open spec fn attribute_view(found: Option<Option<String>>) -> Option<Option<Seq<char>>> {
    match found {
        Some(value) => Some(text_view(value)),
        None => None,
    }
}

/// The first element of the document that matches `selector`.
pub(crate) fn first_match(doc: &Html, selector: &str) -> (found: Option<usize>)
    ensures
        found == document_first(document_markup(*doc), selector@),
{
    let nodes = select(doc, selector);
    if nodes.len() > 0 {
        Some(nodes[0])
    } else {
        None
    }
}

/// The first element below `node` that matches `selector`.
pub(crate) fn first_match_within(doc: &Html, node: usize, selector: &str) -> (found: Option<usize>)
    ensures
        found == element_first(document_markup(*doc), node, selector@),
{
    let nodes = select_within(doc, node, selector);
    if nodes.len() > 0 {
        Some(nodes[0])
    } else {
        None
    }
}

/// The content of the first element of the document that matches `selector`.
pub(crate) fn first_inner_html(doc: &Html, selector: &str) -> (text: Option<String>)
    ensures
        text_view(text) == document_first_html(document_markup(*doc), selector@),
{
    match first_match(doc, selector) {
        Some(node) => Some(inner_html(doc, node)),
        None => None,
    }
}

/// The content of the first element below `node` that matches `selector`.
pub(crate) fn first_inner_html_within(doc: &Html, node: usize, selector: &str) -> (text: Option<
    String,
>)
    ensures
        text_view(text) == element_first_html(document_markup(*doc), node, selector@),
{
    match first_match_within(doc, node, selector) {
        Some(found) => Some(inner_html(doc, found)),
        None => None,
    }
}

/// The attribute `name` of the first element below `node` that matches
/// `selector`.
pub(crate) fn first_attribute_within(doc: &Html, node: usize, selector: &str, name: &str) -> (found:
    Option<Option<String>>)
    ensures
        attribute_view(found) == element_first_attribute(
            document_markup(*doc),
            node,
            selector@,
            name@,
        ),
{
    match first_match_within(doc, node, selector) {
        Some(inner) => Some(attribute(doc, inner, name)),
        None => None,
    }
}

/// The attribute `name` of the first element of the document that matches
/// `selector`.
pub(crate) fn first_attribute(doc: &Html, selector: &str, name: &str) -> (found: Option<
    Option<String>,
>)
    ensures
        attribute_view(found) == document_first_attribute(document_markup(*doc), selector@, name@),
{
    match first_match(doc, selector) {
        Some(inner) => Some(attribute(doc, inner, name)),
        None => None,
    }
}


/// The contents of the elements `nodes`, in their order.
pub open spec fn inner_htmls(markup: Seq<char>, nodes: Seq<usize>) -> Seq<Seq<char>> {
    Seq::new(nodes.len(), |i: int| element_inner_html(markup, nodes[i]))
}

/// The contents of the elements below `node` that match `selector`.
pub open spec fn element_all_html(markup: Seq<char>, node: usize, selector: Seq<char>) -> Seq<
    Seq<char>,
> {
    inner_htmls(markup, element_matches(markup, node, selector))
}

/// The contents of the elements below `node` that match `selector`.
pub(crate) fn all_inner_html_within(doc: &Html, node: usize, selector: &str) -> (texts: Vec<String>)
    ensures
        texts_view(texts@) == element_all_html(document_markup(*doc), node, selector@),
{
    let nodes = select_within(doc, node, selector);
    let mut texts: Vec<String> = Vec::new();
    let mut i: usize = 0;
    while i < nodes.len()
        invariant
            i <= nodes.len(),
            texts@.len() == i,
            forall|j: int|
                0 <= j < i ==> texts@[j]@ == element_inner_html(document_markup(*doc), nodes@[j]),
        decreases nodes.len() - i,
    {
        texts.push(inner_html(doc, nodes[i]));
        i = i + 1;
    }
    assert(texts_view(texts@) =~= inner_htmls(document_markup(*doc), nodes@));
    texts
}


/// The contents of the children of `node` that are elements.
pub open spec fn element_children_html(markup: Seq<char>, node: usize) -> Seq<Seq<char>> {
    inner_htmls(markup, element_children(markup, node))
}

/// The contents of the children of `node` that are elements.
pub(crate) fn children_inner_html(doc: &Html, node: usize) -> (texts: Vec<String>)
    ensures
        texts_view(texts@) == element_children_html(document_markup(*doc), node),
{
    let nodes = child_elements(doc, node);
    let mut texts: Vec<String> = Vec::new();
    let mut i: usize = 0;
    while i < nodes.len()
        invariant
            i <= nodes.len(),
            texts@.len() == i,
            forall|j: int|
                0 <= j < i ==> texts@[j]@ == element_inner_html(document_markup(*doc), nodes@[j]),
        decreases nodes.len() - i,
    {
        texts.push(inner_html(doc, nodes[i]));
        i = i + 1;
    }
    assert(texts_view(texts@) =~= inner_htmls(document_markup(*doc), nodes@));
    texts
}


/// The last of `nodes`, if there is one.
pub open spec fn last_of(nodes: Seq<usize>) -> Option<usize> {
    if nodes.len() > 0 {
        Some(nodes.last())
    } else {
        None
    }
}

/// The last element of the document that matches `selector`.
pub open spec fn document_last(markup: Seq<char>, selector: Seq<char>) -> Option<usize> {
    last_of(document_matches(markup, selector))
}

/// The last element of the document that matches `selector`.
pub(crate) fn last_match(doc: &Html, selector: &str) -> (found: Option<usize>)
    ensures
        found == document_last(document_markup(*doc), selector@),
{
    let nodes = select(doc, selector);
    if nodes.len() > 0 {
        Some(nodes[nodes.len() - 1])
    } else {
        None
    }
}

} // verus!
