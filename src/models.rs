use vstd::prelude::*;

verus! {

/// A site description together with the book's metadata.
#[derive(Debug, Clone)]
pub struct Novel {
    pub meta_data: MetaData,
    pub site: Site,
}

/// Where the crawl starts and how each page is read.
#[derive(Debug, Clone)]
pub struct Site {
    pub url: String,
    pub identifiers: Selectors,
}

/// The three selectors of a site: the link to the next page, the chapter
/// title and the chapter body.
#[derive(Debug, Clone)]
pub struct Selectors {
    pub next_btn: Selector,
    pub title: Selector,
    pub body: Selector,
}

/// The query dialect of a selector.
#[derive(Debug, Clone, Copy, PartialEq, Eq, Structural)]
pub enum SelectorType {
    XPATH,
    CSS,
}

/// A query in one of the two dialects.
#[derive(Debug, Clone)]
pub struct Selector {
    pub selector_type: SelectorType,
    pub val: String,
}

/// Title and author of the book.
#[derive(Debug, Clone)]
pub struct MetaData {
    pub title: String,
    pub author: String,
}

/// One extracted page: its title and its body.
#[derive(Debug, Clone)]
pub struct Chapter {
    pub title: String,
    pub body: String,
}

/// Words and phrases erased from every page before it is parsed.
#[derive(Debug, Clone)]
pub struct ExcludedWords {
    pub excluded_words: Vec<String>,
}

impl Chapter {
    /// The chapter as the markdown source handed to the book renderer: a
    /// level-one heading with the title, then the body.
    pub fn to_markdown(&self) -> (r: String)
        ensures
            r@ == "# "@ + self.title@ + "\n "@ + self.body@,
    {
        let r = String::from_str("# ");
        let r = r.concat(self.title.as_str());
        let r = r.concat("\n ");
        r.concat(self.body.as_str())
    }
}

} // verus!
