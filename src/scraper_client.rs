//! Holds the current page and evaluates selectors against it.
use crate::document::{
    compile_css, css_accepts, css_first_attribute, css_text_nodes, first_attribute,
    matched_text_nodes, parse_page, CssQuery, Document,
};
use crate::error::Error;
use crate::extract::{text_of, text_of_nodes};
use crate::models::{Selector, SelectorType};
use crate::sanitizer::{exclusion_pattern, sanitize, sanitized, views};
use vstd::prelude::*;

verus! {

/// The view of an optional string.
pub open spec fn opt_view(o: Option<String>) -> Option<Seq<char>> {
    match o {
        Some(s) => Some(s@),
        None => None,
    }
}

/// The text that a structural query yields on a page: none when the query
/// does not compile or matches no element.
pub open spec fn css_text(page: Seq<char>, query: Seq<char>) -> Option<Seq<char>> {
    if css_accepts(query) {
        text_of_nodes(css_text_nodes(page, query))
    } else {
        None
    }
}

/// The attribute that a structural query yields on a page: that of the first
/// matched element; none when the query does not compile, matches nothing, or
/// the element lacks the attribute.
pub open spec fn css_attribute(page: Seq<char>, query: Seq<char>, name: Seq<char>) -> Option<
    Seq<char>,
> {
    if css_accepts(query) {
        css_first_attribute(page, query, name)
    } else {
        None
    }
}

/// The text a selector yields on the current page. A path-based query needs
/// the live browser session, which a parsed page does not have: it yields
/// none here.
pub open spec fn selected_text(page: Option<Seq<char>>, kind: SelectorType, query: Seq<char>) -> Option<
    Seq<char>,
> {
    match page {
        Some(p) => if kind == SelectorType::CSS {
            css_text(p, query)
        } else {
            None
        },
        None => None,
    }
}

/// The attribute a selector yields on the current page; as for text, a
/// path-based query yields none here.
pub open spec fn selected_attribute(
    page: Option<Seq<char>>,
    kind: SelectorType,
    query: Seq<char>,
    name: Seq<char>,
) -> Option<Seq<char>> {
    match page {
        Some(p) => if kind == SelectorType::CSS {
            css_attribute(p, query, name)
        } else {
            None
        },
        None => None,
    }
}

/// A structural query that matches no element yields no text.
pub proof fn lemma_no_match_no_text(page: Seq<char>, query: Seq<char>)
    requires
        css_text_nodes(page, query).len() == 0,
    ensures
        css_text(page, query) is None,
{
}

/// Extraction reads the current page alone: two clients that hold the same
/// page yield the same text and the same attribute for every selector,
/// whatever query each has compiled and cached before.
pub proof fn lemma_extraction_ignores_cache(
    a: ScraperClient,
    b: ScraperClient,
    kind: SelectorType,
    query: Seq<char>,
    name: Seq<char>,
)
    requires
        a.page() == b.page(),
    ensures
        selected_text(a.page(), kind, query) == selected_text(b.page(), kind, query),
        selected_attribute(a.page(), kind, query, name) == selected_attribute(
            b.page(),
            kind,
            query,
            name,
        ),
{
}

/// The excluded words, the current page (sanitised and parsed) and the most
/// recently compiled structural query.
pub struct ScraperClient {
    excluded_words: Vec<String>,
    document: Option<Document>,
    selector: Option<CssQuery>,
}

impl ScraperClient {
    /// The excluded words, in the order they were added.
    pub closed spec fn excluded(&self) -> Seq<Seq<char>> {
        views(self.excluded_words@)
    }

    /// The sanitised text of the current page, if one was loaded.
    pub closed spec fn page(&self) -> Option<Seq<char>> {
        match self.document {
            Some(d) => Some(d.source()),
            None => None,
        }
    }

    /// The query whose compilation is cached, if any.
    pub closed spec fn cached_query(&self) -> Option<Seq<char>> {
        match self.selector {
            Some(c) => Some(c.query()),
            None => None,
        }
    }

    /// A client with no excluded word and no page.
    pub fn new() -> (c: ScraperClient)
        ensures
            c.excluded() == Seq::<Seq<char>>::empty(),
            c.page() is None,
            c.cached_query() is None,
    {
        let c = ScraperClient { excluded_words: Vec::new(), document: None, selector: None };
        assert(c.excluded() =~= Seq::<Seq<char>>::empty());
        c
    }

    /// Adds words to the excluded ones, after those already there.
    pub fn add_excluded_words(&mut self, words: Vec<String>)
        ensures
            final(self).excluded() == old(self).excluded() + views(words@),
            final(self).page() == old(self).page(),
            final(self).cached_query() == old(self).cached_query(),
    {
        let mut words = words;
        let ghost added = words@;
        self.excluded_words.append(&mut words);
        assert(final(self).excluded() =~= old(self).excluded() + views(added));
    }

    /// The excluded words.
    pub fn excluded_words(&self) -> (r: &Vec<String>)
        ensures
            views(r@) == self.excluded(),
    {
        &self.excluded_words
    }

    /// Makes a fetched page the current one: it is sanitised, then parsed, and
    /// the previous page and its compiled query are dropped. When sanitising
    /// fails, the error is returned and nothing changes.
    pub fn scrape_html(&mut self, html: String) -> (r: Result<(), Error>)
        ensures
            final(self).excluded() == old(self).excluded(),
            sanitized(html@, old(self).excluded()) matches Some(s) ==> (r is Ok
                && final(self).page() == Some(s) && final(self).cached_query() is None),
            sanitized(html@, old(self).excluded()) is None ==> (r matches Err(
                Error::SanitizeError { pattern },
            ) && pattern@ == exclusion_pattern(old(self).excluded()) && final(self).page()
                == old(self).page() && final(self).cached_query() == old(self).cached_query()),
    {
        match sanitize(html, &self.excluded_words) {
            Ok(clean) => {
                self.document = Some(parse_page(clean));
                self.selector = None;
                Ok(())
            },
            Err(e) => Err(e),
        }
    }

    /// Makes the cache hold the compilation of `query`, compiling it unless it
    /// is the cached one already. Tells whether the query compiles.
    fn change_selector(&mut self, query: &String) -> (ok: bool)
        ensures
            ok == css_accepts(query@),
            ok ==> final(self).cached_query() == Some(query@),
            final(self).excluded() == old(self).excluded(),
            final(self).page() == old(self).page(),
    {
        if let Some(c) = &self.selector {
            if *c.query_text() == *query {
                return true;
            }
        }
        match compile_css(query.clone()) {
            Some(c) => {
                self.selector = Some(c);
                true
            },
            None => false,
        }
    }

    /// The text that a selector yields on the current page: the kept text
    /// fragments of all matched elements, joined by the separator.
    pub fn get_text(&mut self, selector: &Selector) -> (r: Option<String>)
        ensures
            opt_view(r) == selected_text(old(self).page(), selector.selector_type, selector.val@),
            final(self).excluded() == old(self).excluded(),
            final(self).page() == old(self).page(),
    {
        if self.document.is_none() || selector.selector_type != SelectorType::CSS {
            return None;
        }
        if !self.change_selector(&selector.val) {
            return None;
        }
        match (&self.document, &self.selector) {
            (Some(d), Some(c)) => {
                let nodes = matched_text_nodes(d, c);
                text_of(&nodes)
            },
            _ => None,
        }
    }

    /// The value of an attribute of the first element that a selector
    /// matches on the current page.
    pub fn get_element_attribute(&mut self, selector: &Selector, attribute: &str) -> (r: Option<
        String,
    >)
        ensures
            opt_view(r) == selected_attribute(
                old(self).page(),
                selector.selector_type,
                selector.val@,
                attribute@,
            ),
            final(self).excluded() == old(self).excluded(),
            final(self).page() == old(self).page(),
    {
        if self.document.is_none() || selector.selector_type != SelectorType::CSS {
            return None;
        }
        if !self.change_selector(&selector.val) {
            return None;
        }
        match (&self.document, &self.selector) {
            (Some(d), Some(c)) => first_attribute(d, c, attribute),
            _ => None,
        }
    }
}

} // verus!
