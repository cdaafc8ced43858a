//! Queries over raw HTML text, the crate's one shared scraping primitive.
//!
//! The scraper crate parses the markup and runs the CSS selectors; each query
//! here is a pure function of the raw text and the selector, so its result is
//! given a name that the parsers' contracts are stated over. A selector that
//! does not compile behaves like one that matches nothing. Pages are parsed
//! as whole documents; per-entry markup captured by [`doc_fragments`] is
//! re-parsed as a fragment, hence the separate fragment names.
use vstd::prelude::*;

verus! {

/// The concatenated text of the first element a selector matches in a document.
pub uninterp spec fn doc_first_text(html: Seq<char>, sel: Seq<char>) -> Option<Seq<char>>;

/// The value of an attribute on the first element a selector matches in a
/// document: `None` when nothing matches, `Some(None)` when the element lacks
/// the attribute.
pub uninterp spec fn doc_first_attr(html: Seq<char>, sel: Seq<char>, attr: Seq<char>) -> Option<
    Option<Seq<char>>,
>;

/// The concatenated text of every element a selector matches in a document,
/// in document order.
pub uninterp spec fn doc_texts(html: Seq<char>, sel: Seq<char>) -> Seq<Seq<char>>;

/// The value of an attribute on every element a selector matches in a
/// document, in document order; an element without the attribute yields `None`.
pub uninterp spec fn doc_attrs(html: Seq<char>, sel: Seq<char>, attr: Seq<char>) -> Seq<
    Option<Seq<char>>,
>;

/// The serialized markup of every element a selector matches in a document,
/// in document order.
pub uninterp spec fn doc_fragments(html: Seq<char>, sel: Seq<char>) -> Seq<Seq<char>>;

/// As [`doc_first_text`], over a re-parsed fragment.
pub uninterp spec fn frag_first_text(frag: Seq<char>, sel: Seq<char>) -> Option<Seq<char>>;

/// As [`doc_first_attr`], over a re-parsed fragment.
pub uninterp spec fn frag_first_attr(frag: Seq<char>, sel: Seq<char>, attr: Seq<char>) -> Option<
    Option<Seq<char>>,
>;

/// Relies on scraper's `Html::parse_document`, `Selector::parse` and
/// `ElementRef::text`: the text of the first match is a function of the
/// document text and the selector alone.
#[verifier::external_body]
pub fn select_first_text(html: &str, sel: &str) -> (r: Option<String>)
    ensures
        match r {
            Some(t) => doc_first_text(html@, sel@) == Some(t@),
            None => doc_first_text(html@, sel@) is None,
        },
{
    let doc = scraper::Html::parse_document(html);
    let sel = match scraper::Selector::parse(sel) {
        Ok(s) => s,
        Err(_) => return None,
    };
    doc.select(&sel).next().map(|e| e.text().collect::<String>())
}

/// Relies on scraper's `Html::parse_document`, `Selector::parse` and
/// `ElementRef::attr`: the attribute of the first match is a function of the
/// document text, the selector and the attribute name alone.
#[verifier::external_body]
pub fn select_first_attr(html: &str, sel: &str, attr: &str) -> (r: Option<Option<String>>)
    ensures
        match r {
            Some(Some(t)) => doc_first_attr(html@, sel@, attr@) == Some(Some(t@)),
            Some(None) => doc_first_attr(html@, sel@, attr@) == Some(None::<Seq<char>>),
            None => doc_first_attr(html@, sel@, attr@) is None,
        },
{
    let doc = scraper::Html::parse_document(html);
    let sel = match scraper::Selector::parse(sel) {
        Ok(s) => s,
        Err(_) => return None,
    };
    doc.select(&sel).next().map(|e| e.attr(attr).map(|a| a.to_string()))
}

/// Relies on scraper's `Html::parse_document`, `Selector::parse` and
/// `ElementRef::text`: the matched texts are a function of the document text
/// and the selector alone, in document order.
#[verifier::external_body]
pub fn select_texts(html: &str, sel: &str) -> (r: Vec<String>)
    ensures
        r@.len() == doc_texts(html@, sel@).len(),
        forall|k: int| 0 <= k < r@.len() ==> r@[k]@ == doc_texts(html@, sel@)[k],
{
    let doc = scraper::Html::parse_document(html);
    let sel = match scraper::Selector::parse(sel) {
        Ok(s) => s,
        Err(_) => return Vec::new(),
    };
    doc.select(&sel).map(|e| e.text().collect::<String>()).collect()
}

/// Relies on scraper's `Html::parse_document`, `Selector::parse` and
/// `ElementRef::attr`: the matched attributes are a function of the document
/// text, the selector and the attribute name alone, in document order.
#[verifier::external_body]
pub fn select_attrs(html: &str, sel: &str, attr: &str) -> (r: Vec<Option<String>>)
    ensures
        r@.len() == doc_attrs(html@, sel@, attr@).len(),
        forall|k: int|
            0 <= k < r@.len() ==> match #[trigger] r@[k] {
                Some(t) => doc_attrs(html@, sel@, attr@)[k] == Some(t@),
                None => doc_attrs(html@, sel@, attr@)[k] is None,
            },
{
    let doc = scraper::Html::parse_document(html);
    let sel = match scraper::Selector::parse(sel) {
        Ok(s) => s,
        Err(_) => return Vec::new(),
    };
    doc.select(&sel).map(|e| e.attr(attr).map(|a| a.to_string())).collect()
}

/// Relies on scraper's `Html::parse_document`, `Selector::parse` and
/// `ElementRef::html`: the serialized matches are a function of the document
/// text and the selector alone, in document order.
#[verifier::external_body]
pub fn select_fragments(html: &str, sel: &str) -> (r: Vec<String>)
    ensures
        r@.len() == doc_fragments(html@, sel@).len(),
        forall|k: int| 0 <= k < r@.len() ==> r@[k]@ == doc_fragments(html@, sel@)[k],
{
    let doc = scraper::Html::parse_document(html);
    let sel = match scraper::Selector::parse(sel) {
        Ok(s) => s,
        Err(_) => return Vec::new(),
    };
    doc.select(&sel).map(|e| e.html()).collect()
}

/// Relies on scraper's `Html::parse_fragment`, `Selector::parse` and
/// `ElementRef::text`: the text of the first match is a function of the
/// fragment text and the selector alone.
#[verifier::external_body]
pub fn fragment_first_text(frag: &str, sel: &str) -> (r: Option<String>)
    ensures
        match r {
            Some(t) => frag_first_text(frag@, sel@) == Some(t@),
            None => frag_first_text(frag@, sel@) is None,
        },
{
    let doc = scraper::Html::parse_fragment(frag);
    let sel = match scraper::Selector::parse(sel) {
        Ok(s) => s,
        Err(_) => return None,
    };
    doc.select(&sel).next().map(|e| e.text().collect::<String>())
}

/// Relies on scraper's `Html::parse_fragment`, `Selector::parse` and
/// `ElementRef::attr`: the attribute of the first match is a function of the
/// fragment text, the selector and the attribute name alone.
#[verifier::external_body]
pub fn fragment_first_attr(frag: &str, sel: &str, attr: &str) -> (r: Option<Option<String>>)
    ensures
        match r {
            Some(Some(t)) => frag_first_attr(frag@, sel@, attr@) == Some(Some(t@)),
            Some(None) => frag_first_attr(frag@, sel@, attr@) == Some(None::<Seq<char>>),
            None => frag_first_attr(frag@, sel@, attr@) is None,
        },
{
    let doc = scraper::Html::parse_fragment(frag);
    let sel = match scraper::Selector::parse(sel) {
        Ok(s) => s,
        Err(_) => return None,
    };
    doc.select(&sel).next().map(|e| e.attr(attr).map(|a| a.to_string()))
}

} // verus!
