//! Crawls a paginated web novel: sanitises each fetched page, parses it,
//! extracts the chapter title and body with site selectors, and follows the
//! "next" link until no further page is indicated.

pub mod document;
pub mod error;
pub mod extract;
pub mod models;
pub mod proxy;
pub mod runner;
pub mod sanitizer;
pub mod scraper_client;

pub use error::Error;
pub use models::{Chapter, ExcludedWords, MetaData, Novel, Selector, SelectorType, Selectors, Site};
pub use runner::{CrawlState, Runner};
pub use scraper_client::ScraperClient;
