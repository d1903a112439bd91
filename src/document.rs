//! The parsed form of one fetched page, and compiled structural queries,
//! both kept together with the text they were built from.
use vstd::prelude::*;

verus! {

#[verifier::external_type_specification]
#[verifier::external_body]
pub struct ExHtml(scraper::Html);

/// A query compiled by `scraper`. Its type shares its name with the site
/// selector of this library, so it is held here, opaque, rather than declared.
#[verifier::external_body]
pub struct CompiledCss {
    inner: scraper::Selector,
}

/// Whether `scraper::Selector::parse` accepts the query.
pub uninterp spec fn css_accepts(query: Seq<char>) -> bool;

/// For each element of the parsed page that the query matches, in document
/// order, the text nodes beneath it, in document order.
pub uninterp spec fn css_text_nodes(page: Seq<char>, query: Seq<char>) -> Seq<Seq<Seq<char>>>;

/// The value of the named attribute on the first element of the parsed page
/// that the query matches; none when no element matches or it lacks the
/// attribute.
pub uninterp spec fn css_first_attribute(page: Seq<char>, query: Seq<char>, name: Seq<char>) -> Option<
    Seq<char>,
>;

/// A parsed page with the text it was parsed from. Only `parse_page` builds
/// one, so `tree` is always the parse of `source`.
pub struct Document {
    source: String,
    tree: scraper::Html,
}

impl Document {
    /// The page text that was parsed.
    pub closed spec fn source(&self) -> Seq<char> {
        self.source@
    }
}

/// A compiled structural query with its text. Only `compile_css` builds one,
/// so `compiled` is always the compilation of `query`.
pub struct CssQuery {
    query: String,
    compiled: CompiledCss,
}

impl CssQuery {
    /// A query is only ever held once it has compiled.
    #[verifier::type_invariant]
    closed spec fn compiled_ok(&self) -> bool {
        css_accepts(self.query@)
    }

    /// The query text that was compiled.
    pub closed spec fn query(&self) -> Seq<char> {
        self.query@
    }

    /// The query text that was compiled.
    pub fn query_text(&self) -> (r: &String)
        ensures
            r@ == self.query(),
            css_accepts(self.query()),
    {
        proof {
            use_type_invariant(self);
        }
        &self.query
    }
}

/// Relies on `scraper::Html::parse_document`, which parses any text.
#[verifier::external_body]
pub(crate) fn parse_page(source: String) -> (d: Document)
    ensures
        d.source() == source@,
{
    let tree = scraper::Html::parse_document(&source);
    Document { source, tree }
}

/// Relies on `scraper::Selector::parse`: it compiles the query or refuses it,
/// as a function of the query alone.
#[verifier::external_body]
pub(crate) fn compile_css(query: String) -> (r: Option<CssQuery>)
    ensures
        r is Some <==> css_accepts(query@),
        r matches Some(c) ==> c.query() == query@,
{
    let compiled = scraper::Selector::parse(&query).ok();
    match compiled {
        Some(inner) => Some(CssQuery { query, compiled: CompiledCss { inner } }),
        None => None,
    }
}

/// Relies on `scraper::Html::select` and `ElementRef::text`: the text nodes
/// beneath each matched element.
#[verifier::external_body]
pub(crate) fn matched_text_nodes(doc: &Document, q: &CssQuery) -> (r: Vec<Vec<String>>)
    ensures
        crate::extract::nested_views(r@) == css_text_nodes(doc.source(), q.query()),
{
    let mut r = Vec::new();
    for e in doc.tree.select(&q.compiled.inner) {
        r.push(e.text().map(|t| t.to_string()).collect());
    }
    r
}

/// Relies on `scraper::Html::select` and `ElementRef::attr`: the attribute of
/// the first matched element.
#[verifier::external_body]
pub(crate) fn first_attribute(doc: &Document, q: &CssQuery, name: &str) -> (r: Option<String>)
    ensures
        r is Some <==> css_first_attribute(doc.source(), q.query(), name@) is Some,
        r matches Some(v) ==> css_first_attribute(doc.source(), q.query(), name@) == Some(v@),
{
    match doc.tree.select(&q.compiled.inner).next() {
        Some(e) => e.attr(name).map(|v| v.to_string()),
        None => None,
    }
}

} // verus!
