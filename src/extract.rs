//! Structural queries over HTML documents.
use vstd::prelude::*;

verus! {

/// One element matched by a structural query: the value of the requested
/// attribute, when the element has it, and the element's text content.
#[derive(Clone, Debug, PartialEq, Eq)]
pub struct LinkMatch {
    pub href: Option<String>,
    pub text: String,
}

impl View for LinkMatch {
    type V = (Option<Seq<char>>, Seq<char>);

    open spec fn view(&self) -> (Option<Seq<char>>, Seq<char>) {
        let href = match self.href {
            Some(h) => Some(h@),
            None => None,
        };
        (href, self.text@)
    }
}

/// The views of a sequence of matches.
pub open spec fn match_views(v: Seq<LinkMatch>) -> Seq<(Option<Seq<char>>, Seq<char>)> {
    v.map_values(|m: LinkMatch| m@)
}

/// Whether `query` is a well-formed CSS selector group.
pub uninterp spec fn query_compiles(query: Seq<char>) -> bool;

/// The elements of the HTML document `doc` that `query` matches, in document
/// order, each as its `attr` attribute and its text content.
pub uninterp spec fn document_matches(doc: Seq<char>, query: Seq<char>, attr: Seq<char>) -> Seq<(Option<Seq<char>>, Seq<char>)>;

/// Relies on `scraper::Selector::parse` to compile `query` (it fails only on a
/// malformed selector) and on `scraper::Html::parse_document` with
/// `Html::select`, `ElementRef::attr` and `ElementRef::text` to list the
/// matching elements in document order.
#[verifier::external_body]
pub(crate) fn select(doc: &str, query: &str, attr: &str) -> (r: Option<Vec<LinkMatch>>)
    ensures
        r is Some <==> query_compiles(query@),
        r is Some ==> match_views(r->0@) == document_matches(doc@, query@, attr@),
{
    let selector = scraper::Selector::parse(query).ok()?;
    let document = scraper::Html::parse_document(doc);
    let found = document.select(&selector).map(|e| LinkMatch {
        href: e.attr(attr).map(|h| h.to_owned()),
        text: e.text().collect::<String>(),
    }).collect();
    Some(found)
}

} // verus!
