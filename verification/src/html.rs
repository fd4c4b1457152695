//! Elements selected from HTML documents, parsed and matched by the `scraper` crate.
use vstd::prelude::*;

verus! {

/// What the parse reads of a selected element: its descendant text nodes in order, its inner
/// HTML, and the value of one attribute.
#[derive(Clone, Debug, PartialEq)]
pub struct HtmlElement {
    pub texts: Vec<String>,
    pub inner_html: String,
    pub attribute: Option<String>,
}

pub struct ElementView {
    pub texts: Seq<Seq<char>>,
    pub inner_html: Seq<char>,
    pub attribute: Option<Seq<char>>,
}

impl View for HtmlElement {
    type V = ElementView;

    open spec fn view(&self) -> ElementView {
        ElementView {
            texts: self.texts@.map_values(|t: String| t@),
            inner_html: self.inner_html@,
            attribute: crate::text::opt_view(self.attribute),
        }
    }
}

pub open spec fn element_views(es: Seq<HtmlElement>) -> Seq<ElementView> {
    es.map_values(|e: HtmlElement| e@)
}

/// The elements of `document` (parsed as a whole document) that match the CSS `selector`, in
/// document order, each with the value of `attribute`; `None` when the selector does not parse.
pub uninterp spec fn spec_select(
    document: Seq<char>,
    selector: Seq<char>,
    attribute: Seq<char>,
) -> Option<Seq<ElementView>>;

/// Parses `document` with `scraper::Html::parse_document`, the selector with
/// `scraper::Selector::parse`, and lists what `Html::select` yields: for each element its
/// `text()` nodes, `inner_html()` and `attr(attribute)`.
#[verifier::external_body]
pub(crate) fn select_elements(document: &str, selector: &str, attribute: &str) -> (res: Option<
    Vec<HtmlElement>,
>)
    ensures
        match res {
            Some(es) => spec_select(document@, selector@, attribute@) == Some(element_views(es@)),
            None => spec_select(document@, selector@, attribute@) is None,
        },
{
    let selector = scraper::Selector::parse(selector).ok()?;
    let html = scraper::Html::parse_document(document);
    Some(html.select(&selector).map(|e| HtmlElement {
        texts: e.text().map(|t| t.to_owned()).collect(),
        inner_html: e.inner_html(),
        attribute: e.attr(attribute).map(|a| a.to_owned()),
    }).collect())
}

} // verus!
