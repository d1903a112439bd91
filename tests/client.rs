use novel_scraper::{Chapter, Error, ScraperClient, Selector, SelectorType};

fn css(q: &str) -> Selector {
    Selector { selector_type: SelectorType::CSS, val: q.to_string() }
}

fn loaded(html: &str) -> ScraperClient {
    let mut c = ScraperClient::new();
    c.scrape_html(html.to_string()).unwrap();
    c
}

#[test]
fn zero_matches_give_none() {
    let mut c = loaded("<html><body><p>x</p></body></html>");
    assert_eq!(c.get_text(&css("div.none")), None);
    assert_eq!(c.get_element_attribute(&css("a.next"), "href"), None);
}

#[test]
fn short_punctuation_is_dropped_long_is_kept() {
    let mut c = loaded("<div class='t'>...</div><div class='t'>Text</div>");
    assert_eq!(c.get_text(&css("div.t")), Some("Text".to_string()));
    let mut c = loaded("<div class='t'>....</div>");
    assert_eq!(c.get_text(&css("div.t")), Some("....".to_string()));
    let mut c = loaded("<div class='t'>...</div>");
    assert_eq!(c.get_text(&css("div.t")), Some(String::new()));
}

#[test]
fn text_of_all_matched_nodes_is_joined() {
    let mut c = loaded("<div class='b'><p> one </p><p>two</p></div><div class='b'>three</div>");
    assert_eq!(
        c.get_text(&css("div.b")),
        Some("one\n\n\u{00B7}\n\ntwo\n\n\u{00B7}\n\nthree".to_string())
    );
}

#[test]
fn attribute_of_first_match() {
    let mut c = loaded("<a class='next' href='/2'>n</a><a class='next' href='/3'>m</a><a class='x'>y</a>");
    assert_eq!(c.get_element_attribute(&css("a.next"), "href"), Some("/2".to_string()));
    assert_eq!(c.get_element_attribute(&css("a.x"), "href"), None);
}

#[test]
fn malformed_query_gives_none() {
    let mut c = loaded("<div>x</div>");
    assert_eq!(c.get_text(&css("div[")), None);
    assert_eq!(c.get_element_attribute(&css("div["), "id"), None);
}

#[test]
fn path_queries_are_not_answered_by_the_page() {
    let mut c = loaded("<h1>T</h1>");
    let xp = Selector { selector_type: SelectorType::XPATH, val: "//h1".to_string() };
    assert_eq!(c.get_text(&xp), None);
}

#[test]
fn no_page_gives_none() {
    let mut c = ScraperClient::new();
    assert_eq!(c.get_text(&css("h1")), None);
}

#[test]
fn cached_query_reflects_each_new_page() {
    let mut c = ScraperClient::new();
    c.scrape_html("<h1>First</h1><a href='/a'>x</a>".to_string()).unwrap();
    assert_eq!(c.get_text(&css("h1")), Some("First".to_string()));
    assert_eq!(c.get_element_attribute(&css("a"), "href"), Some("/a".to_string()));
    c.scrape_html("<h1>Second</h1>".to_string()).unwrap();
    assert_eq!(c.get_text(&css("h1")), Some("Second".to_string()));
    assert_eq!(c.get_element_attribute(&css("a"), "href"), None);
    c.scrape_html("<p>none</p>".to_string()).unwrap();
    assert_eq!(c.get_text(&css("h1")), None);
}

#[test]
fn excluded_words_never_reach_the_page() {
    let mut c = ScraperClient::new();
    c.add_excluded_words(vec!["secret".to_string()]);
    assert_eq!(c.excluded_words().len(), 1);
    c.scrape_html("<h1>The S e c r e t chapter</h1>".to_string()).unwrap();
    assert_eq!(c.get_text(&css("h1")), Some("The chapter".to_string()));
}

#[test]
fn chapter_markdown() {
    let ch = Chapter { title: "Ch1".to_string(), body: "Hello".to_string() };
    assert_eq!(ch.to_markdown(), "# Ch1\n Hello");
}

#[test]
fn error_messages() {
    let e = Error::AttributeError { selector: "title, body".to_string(), attr: "text".to_string() };
    assert_eq!(e.message(), "Failed to retrieve attribute: 'text' from selector: 'title, body'.");
    let e = Error::RequestError { url: "http://x".to_string(), message: "404".to_string() };
    assert_eq!(e.message(), "Failed to url: 'http://x'. Message: '404'");
    assert_eq!(Error::ProxyError.message(), "Failed to parse proxy url!");
    assert_eq!(Error::Error { message: "m".to_string() }.message(), "Error: m");
}
