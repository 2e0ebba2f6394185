// The scan for closing brackets that the engine cannot take.

use urlpattern_bridge::guard::is_guarded;
use urlpattern_bridge::{urlpattern_parse_guarded, UrlInit, UrlInput};

fn guarded(text: &str) -> bool {
    let chars: Vec<char> = text.chars().collect();
    is_guarded(&chars)
}

#[test]
fn texts_without_closing_bracket_pass() {
    for text in ["", "https://example.com/", "/books/:id", "[", "[[[", "a[b{c}d(e)f@g:h"] {
        assert!(guarded(text), "{}", text);
    }
}

#[test]
fn closing_bracket_needs_an_opening_one() {
    assert!(!guarded("]"));
    assert!(!guarded("a]"));
    assert!(!guarded("[]]"));
    assert!(!guarded("https://a]b/"));
    assert!(guarded("[]"));
    assert!(guarded("[[]]"));
    assert!(guarded("[a][b]"));
    assert!(guarded("?a[]=1&b[]=2"));
}

#[test]
fn address_literals_pass() {
    assert!(guarded("http://[\\:\\:1]/"));
    assert!(guarded("http://[::1]:8080/x"));
    assert!(guarded("http://[2001:db8::1]/"));
}

#[test]
fn brackets_inside_a_regexp_pass() {
    assert!(guarded("/users/:id([0-9]+)"));
    assert!(guarded("https://:sub([a-z]+).example.com/([^/]+)"));
    assert!(guarded("/x([a-z][0-9])?"));
}

#[test]
fn opening_bracket_is_forgotten_at_a_new_start() {
    assert!(!guarded("[@]"));
    assert!(!guarded("[(]"));
    assert!(!guarded("[)]"));
    assert!(!guarded("[{]"));
    assert!(!guarded("[}]"));
    assert!(!guarded("https://u[ser:pa@ho]st/"));
    assert!(guarded("[:]"));
    assert!(guarded("ht[tp://a]b"));
}

#[test]
fn colon_counts_as_a_new_start_once_a_group_was_seen() {
    assert!(!guarded("{a}[:]"));
    assert!(!guarded("}[:]"));
    assert!(!guarded("http{\\:}y[:a]"));
    assert!(guarded("{a}[b]"));
    assert!(guarded("{a}:[b]"));
}

#[test]
fn guarded_parse_refuses_what_the_scan_refuses() {
    assert_eq!(urlpattern_parse_guarded(UrlInput::String("https://a]b/".to_string()), None), None);
    assert_eq!(urlpattern_parse_guarded(UrlInput::String("]".to_string()), None), None);
    assert!(UrlInput::String("https://a[b]/".to_string()).is_admissible());
    assert!(!UrlInput::String("https://a]b/".to_string()).is_admissible());
}

#[test]
fn guarded_parse_compiles_what_the_scan_admits() {
    let found = urlpattern_parse_guarded(UrlInput::String("https://x/:id([0-9]+)".to_string()), None)
        .unwrap()
        .unwrap();
    assert_eq!(found.pathname.pattern_string, "/:id([0-9]+)");
    let found = urlpattern_parse_guarded(UrlInput::String("http://[\\:\\:1]/".to_string()), None)
        .unwrap()
        .unwrap();
    assert_eq!(found.hostname.pattern_string, "[\\:\\:1]");
    let failed = urlpattern_parse_guarded(UrlInput::String("/a/{:id".to_string()), None).unwrap();
    assert!(failed.is_err());
}

#[test]
fn components_given_one_by_one_are_always_admitted() {
    let init = UrlInit { hostname: Some("a]b".to_string()), ..Default::default() };
    assert!(UrlInput::Init(init.clone()).is_admissible());
    assert!(urlpattern_parse_guarded(UrlInput::Init(init), None).is_some());
    let init = UrlInit { pathname: Some("/]]]".to_string()), ..Default::default() };
    let found = urlpattern_parse_guarded(UrlInput::Init(init), None).unwrap().unwrap();
    assert_eq!(found.pathname.pattern_string, "/]]]");
}
