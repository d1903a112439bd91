use novel_scraper::sanitizer::{build_pattern, sanitize, spaced_word_pattern};
use novel_scraper::Error;

fn words(ws: &[&str]) -> Vec<String> {
    ws.iter().map(|w| w.to_string()).collect()
}

fn squeezed_lower(s: &str) -> String {
    s.chars().filter(|c| !c.is_whitespace()).flat_map(|c| c.to_lowercase()).collect()
}

#[test]
fn empty_word_list_is_identity() {
    let html = "<p>Hello  \t W o r l d &amp; <b>bold</b></p>\n\u{00e9}";
    let out = sanitize(html.to_string(), &Vec::new()).unwrap();
    assert_eq!(out.as_bytes(), html.as_bytes());
}

#[test]
fn spaced_word_is_erased() {
    let html = "<p>Read this on B a D site, bad news: bAd.</p>";
    let out = sanitize(html.to_string(), &words(&["bad"])).unwrap();
    assert!(!squeezed_lower(&out).contains("bad"), "{}", out);
    assert!(out.contains("Read this on"));
    assert!(out.contains("site"));
}

#[test]
fn word_inside_a_longer_word_is_kept() {
    let html = "<p>badge</p>";
    let out = sanitize(html.to_string(), &words(&["bad"])).unwrap();
    assert_eq!(out, html);
}

#[test]
fn several_words_are_erased() {
    let html = "<p>one Two three f o u r</p>";
    let out = sanitize(html.to_string(), &words(&["two", "four"])).unwrap();
    assert_eq!(out, "<p>one three</p>");
}

#[test]
fn meta_characters_are_literal() {
    let html = "<p>a.b axb</p>";
    let out = sanitize(html.to_string(), &words(&["a.b"])).unwrap();
    assert!(out.contains("axb"));
    assert!(!out.contains("a.b"));
}

#[test]
fn pattern_of_words() {
    assert_eq!(spaced_word_pattern("ab"), r"\s*a\s*b");
    assert_eq!(build_pattern(&words(&["a.b"])), r"(?i)\b(?:\s*a\s*\.\s*b)\b");
    assert_eq!(build_pattern(&words(&["x", "yz"])), r"(?i)\b(?:\s*x|\s*y\s*z)\b");
    assert_eq!(build_pattern(&Vec::new()), r"(?i)\b(?:)\b");
}

#[test]
fn oversized_pattern_is_an_error() {
    let long = "a".repeat(300_000);
    match sanitize("<p>a</p>".to_string(), &vec![long]) {
        Err(Error::SanitizeError { pattern }) => assert!(pattern.starts_with(r"(?i)\b(?:\s*a")),
        other => panic!("expected a pattern error, got {:?}", other.map(|s| s.len())),
    }
}
