use novel_scraper::extract::{is_kept, join_fragments, text_of};

fn strings(ws: &[&str]) -> Vec<String> {
    ws.iter().map(|w| w.to_string()).collect()
}

#[test]
fn noise_threshold() {
    assert!(!is_kept(""));
    assert!(!is_kept("..."));
    assert!(!is_kept("!?"));
    assert!(is_kept("...."));
    assert!(is_kept("a."));
    assert!(is_kept("\u{2026}"));
    assert!(is_kept("x"));
}

#[test]
fn fragments_are_trimmed_filtered_and_joined() {
    let r = join_fragments(&strings(&["  Hello \n", "...", "", "   ", "!!!!", "World"]));
    assert_eq!(r, "Hello\n\n\u{00B7}\n\n!!!!\n\n\u{00B7}\n\nWorld");
    assert_eq!(join_fragments(&strings(&["one"])), "one");
    assert_eq!(join_fragments(&Vec::new()), "");
}

#[test]
fn no_node_gives_no_text() {
    assert_eq!(text_of(&Vec::new()), None);
    assert_eq!(text_of(&vec![Vec::new()]), Some(String::new()));
    assert_eq!(
        text_of(&vec![strings(&["a ", "b"]), strings(&["..."]), strings(&["c"])]),
        Some("a\n\n\u{00B7}\n\nb\n\n\u{00B7}\n\nc".to_string())
    );
}
