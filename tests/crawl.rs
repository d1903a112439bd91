use novel_scraper::runner::make_chapter;
use novel_scraper::{
    CrawlState, Error, ExcludedWords, MetaData, Novel, Runner, Selector, SelectorType, Selectors,
    Site,
};

fn css(q: &str) -> Selector {
    Selector { selector_type: SelectorType::CSS, val: q.to_string() }
}

fn novel(start: &str) -> Novel {
    Novel {
        meta_data: MetaData { title: "Book".to_string(), author: "Me".to_string() },
        site: Site {
            url: start.to_string(),
            identifiers: Selectors { next_btn: css("a.next"), title: css("h1"), body: css("div.body") },
        },
    }
}

fn page(title: &str, body: &str, next: Option<&str>) -> String {
    let link = match next {
        Some(n) => format!("<a class='next' href='{}'>next</a>", n),
        None => String::new(),
    };
    format!("<html><body><h1>{}</h1><div class='body'>{}</div>{}</body></html>", title, body, link)
}

fn crawl(runner: &mut Runner, pages: &[(&str, String)]) -> Vec<String> {
    let mut fetched = Vec::new();
    while let Some(url) = runner.pending_url() {
        fetched.push(url.clone());
        match pages.iter().find(|(u, _)| *u == url) {
            Some((_, html)) => {
                runner.page_fetched(html.clone());
                if matches!(runner.state(), CrawlState::Extracting { .. }) {
                    runner.extract_page();
                }
            }
            None => runner.fetch_failed(Error::RequestError { url, message: "404".to_string() }),
        }
    }
    fetched
}

fn chapter_list(runner: &Runner) -> Vec<(String, String)> {
    runner.chapters().iter().map(|c| (c.title.clone(), c.body.clone())).collect()
}

fn no_words() -> ExcludedWords {
    ExcludedWords { excluded_words: Vec::new() }
}

#[test]
fn three_pages_in_order_then_done() {
    let pages = [
        ("http://x/1", page("One", "a", Some("http://x/2"))),
        ("http://x/2", page("Two", "b", Some("http://x/3"))),
        ("http://x/3", page("Three", "c", None)),
    ];
    let mut r = Runner::new(novel("http://x/1"), no_words());
    let fetched = crawl(&mut r, &pages);
    assert_eq!(fetched, vec!["http://x/1", "http://x/2", "http://x/3"]);
    assert_eq!(
        chapter_list(&r),
        vec![
            ("One".to_string(), "a".to_string()),
            ("Two".to_string(), "b".to_string()),
            ("Three".to_string(), "c".to_string())
        ]
    );
    assert!(matches!(r.state(), CrawlState::Done));
    assert!(r.is_finished());
}

#[test]
fn missing_body_keeps_earlier_chapters() {
    let pages = [
        ("http://x/1", page("One", "a", Some("http://x/2"))),
        ("http://x/2", "<html><body><h1>Two</h1><a class='next' href='http://x/3'>n</a></body></html>".to_string()),
        ("http://x/3", page("Three", "c", None)),
    ];
    let mut r = Runner::new(novel("http://x/1"), no_words());
    crawl(&mut r, &pages);
    assert_eq!(chapter_list(&r), vec![("One".to_string(), "a".to_string())]);
    match r.state() {
        CrawlState::Failed { error: Error::AttributeError { selector, attr } } => {
            assert_eq!(selector, "title, body");
            assert_eq!(attr, "text");
        }
        other => panic!("unexpected state {:?}", other),
    }
}

#[test]
fn end_to_end_two_chapters() {
    let pages = [
        ("http://x/1", page("Ch1", "Hello", Some("/2"))),
        ("/2", page("Ch2", "World", None)),
    ];
    let mut r = Runner::new(novel("http://x/1"), no_words());
    crawl(&mut r, &pages);
    assert_eq!(
        chapter_list(&r),
        vec![("Ch1".to_string(), "Hello".to_string()), ("Ch2".to_string(), "World".to_string())]
    );
    assert!(matches!(r.state(), CrawlState::Done));
}

#[test]
fn fetch_failure_ends_the_crawl() {
    let pages = [("http://x/1", page("One", "a", Some("http://x/2")))];
    let mut r = Runner::new(novel("http://x/1"), no_words());
    crawl(&mut r, &pages);
    assert_eq!(chapter_list(&r).len(), 1);
    assert!(matches!(r.state(), CrawlState::Failed { error: Error::RequestError { .. } }));
}

#[test]
fn excluded_words_are_erased_from_chapters() {
    let pages = [("http://x/1", page("One", "a s p a m b", None))];
    let words = ExcludedWords { excluded_words: vec!["spam".to_string()] };
    let mut r = Runner::new(novel("http://x/1"), words);
    crawl(&mut r, &pages);
    assert_eq!(chapter_list(&r), vec![("One".to_string(), "a b".to_string())]);
}

#[test]
fn empty_title_is_an_error() {
    assert!(make_chapter(Some(String::new()), Some("b".to_string())).is_err());
    assert!(make_chapter(None, Some("b".to_string())).is_err());
    let c = make_chapter(Some("t".to_string()), Some("b".to_string())).unwrap();
    assert_eq!((c.title.as_str(), c.body.as_str()), ("t", "b"));
}

#[test]
fn start_state_and_url() {
    let r = Runner::new(novel("http://x/1"), no_words());
    assert_eq!(r.pending_url(), Some("http://x/1".to_string()));
    assert!(r.chapters().is_empty());
    assert!(!r.is_finished());
    assert_eq!(r.novel().meta_data.title, "Book");
}

#[test]
fn outcome_reports_crawl_error_before_render_error() {
    let pages = [("http://x/1", "<h1>only a title</h1>".to_string())];
    let mut r = Runner::new(novel("http://x/1"), no_words());
    crawl(&mut r, &pages);
    let errors = r.outcome(Err(Error::EpubBuildError)).unwrap_err();
    assert_eq!(errors.len(), 2);
    assert!(matches!(errors[0], Error::AttributeError { .. }));
    assert!(matches!(errors[1], Error::EpubBuildError));
}

#[test]
fn outcome_of_a_finished_crawl() {
    let pages = [("http://x/1", page("One", "a", None))];
    let mut r = Runner::new(novel("http://x/1"), no_words());
    crawl(&mut r, &pages);
    assert!(r.outcome(Ok(())).is_ok());
    let mut r = Runner::new(novel("http://x/1"), no_words());
    crawl(&mut r, &pages);
    let errors = r.outcome(Err(Error::ChapterError)).unwrap_err();
    assert_eq!(errors.len(), 1);
    assert!(matches!(errors[0], Error::ChapterError));
}

#[test]
fn chapter_text_of_the_current_page() {
    let pages = [("http://x/1", page("One", "a", None))];
    let mut r = Runner::new(novel("http://x/1"), no_words());
    r.page_fetched(pages[0].1.clone());
    let c = r.get_text().unwrap();
    assert_eq!((c.title.as_str(), c.body.as_str()), ("One", "a"));
    assert_eq!(r.get_next_url(), None);
    assert_eq!(r.page_text(&css("h1")), Some("One".to_string()));
    r.page_extracted(Some("T".to_string()), Some(String::new()), Some("http://x/2".to_string()));
    assert!(r.chapters().is_empty());
    assert!(matches!(r.state(), CrawlState::Failed { error: Error::AttributeError { .. } }));
}
