//! The crawl controller: a state machine that is handed each fetched page,
//! extracts one chapter from it and decides which page comes next.
//!
//! Fetching pages is left to the caller, which asks `pending_url` what to
//! fetch and reports the outcome with `page_fetched` or `fetch_failed`.
use crate::error::Error;
use crate::models::{Chapter, ExcludedWords, Novel, Selector, Selectors};
use crate::sanitizer::{sanitized, views};
use crate::scraper_client::{opt_view, selected_attribute, selected_text, ScraperClient};
use vstd::prelude::*;

verus! {

/// Where the crawl stands.
#[derive(Debug, Clone)]
pub enum CrawlState {
    /// The page at `url` is to be fetched next.
    Fetching { url: String },
    /// The page at `url` is loaded and its chapter is to be extracted.
    Extracting { url: String },
    /// No further page is indicated.
    Done,
    /// The crawl ended on this error.
    Failed { error: Error },
}

/// The URL that a fetching or extracting crawl is at.
pub open spec fn state_url(s: CrawlState) -> Option<Seq<char>> {
    match s {
        CrawlState::Fetching { url } => Some(url@),
        CrawlState::Extracting { url } => Some(url@),
        _ => None,
    }
}

/// The error that a failed crawl ended on.
pub open spec fn failure(s: CrawlState) -> Option<Error> {
    match s {
        CrawlState::Failed { error } => Some(error),
        _ => None,
    }
}

/// The error in an option, as a sequence of zero or one errors.
pub open spec fn errors_of(e: Option<Error>) -> Seq<Error> {
    match e {
        Some(e) => seq![e],
        None => Seq::empty(),
    }
}

/// The title and body of a chapter.
pub open spec fn chapter_view(c: Chapter) -> (Seq<char>, Seq<char>) {
    (c.title@, c.body@)
}

/// Whether an extraction yielded a non-empty text.
pub open spec fn usable(o: Option<Seq<char>>) -> bool {
    match o {
        Some(s) => s.len() > 0,
        None => false,
    }
}

/// The error of a page whose title or body is missing.
pub open spec fn is_missing_text_error(e: Error) -> bool {
    match e {
        Error::AttributeError { selector, attr } => selector@ == "title, body"@ && attr@
            == "text"@,
        _ => false,
    }
}

/// The chapter that a page yields: present when both its title and its body
/// are non-empty texts.
pub open spec fn page_chapter(page: Option<Seq<char>>, s: Selectors) -> Option<
    (Seq<char>, Seq<char>),
> {
    let t = selected_text(page, s.title.selector_type, s.title.val@);
    let b = selected_text(page, s.body.selector_type, s.body.val@);
    if usable(t) && usable(b) {
        Some((t->0, b->0))
    } else {
        None
    }
}

/// The link to the next page that a page yields.
pub open spec fn page_next(page: Option<Seq<char>>, s: Selectors) -> Option<Seq<char>> {
    selected_attribute(page, s.next_btn.selector_type, s.next_btn.val@, "href"@)
}

/// A chapter from an extracted title and body, when both are non-empty; else
/// the error that names the two selectors.
pub fn make_chapter(title: Option<String>, body: Option<String>) -> (r: Result<Chapter, Error>)
    ensures
        usable(opt_view(title)) && usable(opt_view(body)) ==> (r matches Ok(c) && c.title@
            == opt_view(title)->0 && c.body@ == opt_view(body)->0),
        !(usable(opt_view(title)) && usable(opt_view(body))) ==> (r matches Err(e)
            && is_missing_text_error(e)),
{
    match (title, body) {
        (Some(title), Some(body)) => {
            if title.as_str().unicode_len() > 0 && body.as_str().unicode_len() > 0 {
                return Ok(Chapter { title, body });
            }
        },
        _ => {},
    }
    Err(
        Error::AttributeError {
            selector: String::from_str("title, body"),
            attr: String::from_str("text"),
        },
    )
}

/// A crawl of one novel: the site, the client that holds the current page,
/// the state, and the chapters extracted so far, in page order.
pub struct Runner {
    client: ScraperClient,
    novel: Novel,
    state: CrawlState,
    chapters: Vec<Chapter>,
}

impl Runner {
    /// The client that holds the current page.
    pub closed spec fn client_view(&self) -> ScraperClient {
        self.client
    }

    /// The site being crawled and the book's metadata.
    pub closed spec fn novel_view(&self) -> Novel {
        self.novel
    }

    /// Where the crawl stands.
    pub closed spec fn state_view(&self) -> CrawlState {
        self.state
    }

    /// The title and body of each chapter extracted so far.
    pub closed spec fn chapters_view(&self) -> Seq<(Seq<char>, Seq<char>)> {
        self.chapters@.map_values(|c: Chapter| chapter_view(c))
    }

    /// A crawl that starts at the site's start URL, with no chapter yet.
    pub fn new(novel: Novel, excluded_words: ExcludedWords) -> (r: Runner)
        ensures
            r.state_view() is Fetching,
            state_url(r.state_view()) == Some(novel.site.url@),
            r.chapters_view() == Seq::<(Seq<char>, Seq<char>)>::empty(),
            r.novel_view() == novel,
            r.client_view().excluded() == views(excluded_words.excluded_words@),
            r.client_view().page() is None,
    {
        let mut client = ScraperClient::new();
        client.add_excluded_words(excluded_words.excluded_words);
        assert(client.excluded() =~= views(excluded_words.excluded_words@));
        let url = novel.site.url.clone();
        let r = Runner { client, novel, state: CrawlState::Fetching { url }, chapters: Vec::new() };
        assert(r.chapters_view() =~= Seq::<(Seq<char>, Seq<char>)>::empty());
        r
    }

    /// The site being crawled and the book's metadata.
    pub fn novel(&self) -> (r: &Novel)
        ensures
            *r == self.novel_view(),
    {
        &self.novel
    }

    /// Where the crawl stands.
    pub fn state(&self) -> (r: &CrawlState)
        ensures
            *r == self.state_view(),
    {
        &self.state
    }

    /// The chapters extracted so far, in page order.
    pub fn chapters(&self) -> (r: &Vec<Chapter>)
        ensures
            r@.map_values(|c: Chapter| chapter_view(c)) == self.chapters_view(),
    {
        &self.chapters
    }

    /// The URL to fetch next, while the crawl waits for a page.
    pub fn pending_url(&self) -> (r: Option<String>)
        ensures
            self.state_view() is Fetching ==> opt_view(r) == state_url(self.state_view()),
            !(self.state_view() is Fetching) ==> r is None,
    {
        match &self.state {
            CrawlState::Fetching { url } => Some(url.clone()),
            _ => None,
        }
    }

    /// Whether the crawl has ended, done or failed.
    pub fn is_finished(&self) -> (r: bool)
        ensures
            r == (self.state_view() is Done || self.state_view() is Failed),
    {
        match &self.state {
            CrawlState::Done => true,
            CrawlState::Failed { .. } => true,
            _ => false,
        }
    }

    /// The page could not be fetched: the crawl fails with that error and
    /// keeps its chapters.
    pub fn fetch_failed(&mut self, error: Error)
        requires
            old(self).state_view() is Fetching,
        ensures
            final(self).state_view() == (CrawlState::Failed { error }),
            final(self).chapters_view() == old(self).chapters_view(),
            final(self).novel_view() == old(self).novel_view(),
            final(self).client_view() == old(self).client_view(),
    {
        self.state = CrawlState::Failed { error };
    }

    /// The page was fetched: it is sanitised and becomes the current page, and
    /// its chapter is to be extracted. When sanitising fails, the crawl fails.
    pub fn page_fetched(&mut self, html: String)
        requires
            old(self).state_view() is Fetching,
        ensures
            final(self).chapters_view() == old(self).chapters_view(),
            final(self).novel_view() == old(self).novel_view(),
            final(self).client_view().excluded() == old(self).client_view().excluded(),
            sanitized(html@, old(self).client_view().excluded()) matches Some(s) ==> (
            final(self).client_view().page() == Some(s) && final(self).state_view() is Extracting
                && state_url(final(self).state_view()) == state_url(old(self).state_view())),
            sanitized(html@, old(self).client_view().excluded()) is None ==> (failure(
                final(self).state_view(),
            ) is Some && failure(final(self).state_view())->0 is SanitizeError),
    {
        match self.client.scrape_html(html) {
            Ok(()) => {
                let url = match &self.state {
                    CrawlState::Fetching { url } => url.clone(),
                    _ => String::new(),
                };
                self.state = CrawlState::Extracting { url };
            },
            Err(error) => {
                self.state = CrawlState::Failed { error };
            },
        }
    }

    /// The chapter of the current page: its title and body texts, when both
    /// are non-empty; else the error that names the two selectors.
    pub fn get_text(&mut self) -> (r: Result<Chapter, Error>)
        ensures
            final(self).state_view() == old(self).state_view(),
            final(self).chapters_view() == old(self).chapters_view(),
            final(self).novel_view() == old(self).novel_view(),
            final(self).client_view().page() == old(self).client_view().page(),
            final(self).client_view().excluded() == old(self).client_view().excluded(),
            page_chapter(old(self).client_view().page(), old(self).novel_view().site.identifiers) matches Some(
                c,
            ) ==> (r matches Ok(ch) && chapter_view(ch) == c),
            page_chapter(old(self).client_view().page(), old(self).novel_view().site.identifiers) is None
                ==> (r matches Err(e) && is_missing_text_error(e)),
    {
        let title = self.client.get_text(&self.novel.site.identifiers.title);
        let body = self.client.get_text(&self.novel.site.identifiers.body);
        make_chapter(title, body)
    }

    /// The text that a selector yields on the current page.
    pub fn page_text(&mut self, selector: &Selector) -> (r: Option<String>)
        ensures
            final(self).state_view() == old(self).state_view(),
            final(self).chapters_view() == old(self).chapters_view(),
            final(self).novel_view() == old(self).novel_view(),
            final(self).client_view().page() == old(self).client_view().page(),
            final(self).client_view().excluded() == old(self).client_view().excluded(),
            opt_view(r) == selected_text(
                old(self).client_view().page(),
                selector.selector_type,
                selector.val@,
            ),
    {
        self.client.get_text(selector)
    }

    /// The link to the next page, from the current page.
    pub fn get_next_url(&mut self) -> (r: Option<String>)
        ensures
            final(self).state_view() == old(self).state_view(),
            final(self).chapters_view() == old(self).chapters_view(),
            final(self).novel_view() == old(self).novel_view(),
            final(self).client_view().page() == old(self).client_view().page(),
            final(self).client_view().excluded() == old(self).client_view().excluded(),
            opt_view(r) == page_next(
                old(self).client_view().page(),
                old(self).novel_view().site.identifiers,
            ),
    {
        proof {
            reveal_strlit("href");
        }
        self.client.get_element_attribute(&self.novel.site.identifiers.next_btn, "href")
    }

    /// Decides on an extracted page, given its title, body and next link:
    /// when title and body are non-empty texts, the chapter is appended and
    /// the crawl moves to the next URL, or ends when there is none; else the
    /// crawl fails with the error that names the two selectors, keeping the
    /// chapters extracted before.
    pub fn page_extracted(&mut self, title: Option<String>, body: Option<String>, next: Option<String>)
        requires
            old(self).state_view() is Extracting,
        ensures
            final(self).novel_view() == old(self).novel_view(),
            final(self).client_view() == old(self).client_view(),
            usable(opt_view(title)) && usable(opt_view(body)) ==> (final(self).chapters_view()
                == old(self).chapters_view().push((opt_view(title)->0, opt_view(body)->0))
                && match opt_view(next) {
                Some(u) => final(self).state_view() is Fetching && state_url(
                    final(self).state_view(),
                ) == Some(u),
                None => final(self).state_view() is Done,
            }),
            !(usable(opt_view(title)) && usable(opt_view(body))) ==> (final(self).chapters_view()
                == old(self).chapters_view() && failure(final(self).state_view()) is Some
                && is_missing_text_error(failure(final(self).state_view())->0)),
    {
        match make_chapter(title, body) {
            Ok(c) => {
                let ghost cv = chapter_view(c);
                self.chapters.push(c);
                assert(self.chapters_view() =~= old(self).chapters_view().push(cv));
                match next {
                    Some(url) => {
                        self.state = CrawlState::Fetching { url };
                    },
                    None => {
                        self.state = CrawlState::Done;
                    },
                }
            },
            Err(error) => {
                self.state = CrawlState::Failed { error };
            },
        }
    }

    /// What the crawl reports once its chapters were rendered: success only
    /// when the crawl reached its end and the render succeeded. Otherwise the
    /// errors, the crawl's first, so that a failed render never hides why the
    /// crawl stopped.
    pub fn outcome(self, rendered: Result<(), Error>) -> (r: Result<(), Vec<Error>>)
        requires
            self.state_view() is Done || self.state_view() is Failed,
        ensures
            (self.state_view() is Done && rendered is Ok) <==> r is Ok,
            r matches Err(es) ==> es@ == errors_of(failure(self.state_view())) + errors_of(
                rendered.err(),
            ),
    {
        let mut errors: Vec<Error> = Vec::new();
        match self.state {
            CrawlState::Failed { error } => errors.push(error),
            _ => {},
        }
        match rendered {
            Ok(()) => {},
            Err(e) => errors.push(e),
        }
        assert(errors@ =~= errors_of(failure(self.state_view())) + errors_of(rendered.err()));
        if errors.len() == 0 {
            Ok(())
        } else {
            Err(errors)
        }
    }

    /// Extracts the chapter of the current page with the site's selectors and
    /// decides on it: the chapter is appended and the crawl follows the next
    /// link, or ends when there is none; a missing title or body ends the
    /// crawl with an error, keeping the chapters extracted before.
    pub fn extract_page(&mut self)
        requires
            old(self).state_view() is Extracting,
        ensures
            final(self).novel_view() == old(self).novel_view(),
            final(self).client_view().page() == old(self).client_view().page(),
            final(self).client_view().excluded() == old(self).client_view().excluded(),
            page_chapter(old(self).client_view().page(), old(self).novel_view().site.identifiers) matches Some(
                c,
            ) ==> (final(self).chapters_view() == old(self).chapters_view().push(c) && match page_next(
                old(self).client_view().page(),
                old(self).novel_view().site.identifiers,
            ) {
                Some(u) => final(self).state_view() is Fetching && state_url(final(self).state_view())
                    == Some(u),
                None => final(self).state_view() is Done,
            }),
            page_chapter(old(self).client_view().page(), old(self).novel_view().site.identifiers) is None
                ==> (final(self).chapters_view() == old(self).chapters_view()
                && failure(final(self).state_view()) is Some && is_missing_text_error(
                failure(final(self).state_view())->0,
            )),
    {
        let title = self.client.get_text(&self.novel.site.identifiers.title);
        let body = self.client.get_text(&self.novel.site.identifiers.body);
        let next = match (&title, &body) {
            (Some(t), Some(b)) => if t.as_str().unicode_len() > 0 && b.as_str().unicode_len() > 0 {
                self.get_next_url()
            } else {
                None
            },
            _ => None,
        };
        self.page_extracted(title, body, next);
    }
}

} // verus!
