// Resolving inputs into components, and the canonical forms on both sides.

use urlpattern_bridge::{
    urlpattern_exec, urlpattern_parse, urlpattern_process_match_input, UrlComponents, UrlInit,
    UrlInput,
};

fn text(s: &str) -> UrlInput {
    UrlInput::String(s.to_string())
}

fn some(s: &str) -> Option<String> {
    Some(s.to_string())
}

fn resolve(input: UrlInput, base_url: Option<String>) -> UrlComponents {
    urlpattern_process_match_input(input, base_url).unwrap().0
}

fn parts(
    protocol: &str,
    username: &str,
    password: &str,
    hostname: &str,
    port: &str,
    pathname: &str,
    search: &str,
    hash: &str,
) -> UrlComponents {
    UrlComponents {
        protocol: protocol.to_string(),
        username: username.to_string(),
        password: password.to_string(),
        hostname: hostname.to_string(),
        port: port.to_string(),
        pathname: pathname.to_string(),
        search: search.to_string(),
        hash: hash.to_string(),
    }
}

#[test]
fn url_string_is_split_into_eight_components() {
    assert_eq!(
        resolve(text("https://user:pw@example.com:8080/a/b?q=1#top"), None),
        parts("https", "user", "pw", "example.com", "8080", "/a/b", "q=1", "top")
    );
    assert_eq!(
        resolve(text("https://example.com"), None),
        parts("https", "", "", "example.com", "", "/", "", "")
    );
}

#[test]
fn url_string_is_made_canonical() {
    assert_eq!(
        resolve(text("HTTPS://EXAMPLE.com:443/a/./b/../c d?x y#z"), None),
        parts("https", "", "", "example.com", "", "/a/c%20d", "x%20y", "z")
    );
    assert_eq!(resolve(text("http://münchen.de:0080/"), None).hostname, "xn--mnchen-3ya.de");
    assert_eq!(resolve(text("http://münchen.de:0080/"), None).port, "");
    assert_eq!(resolve(text("http://a:0081/"), None).port, "81");
}

#[test]
fn url_string_is_read_against_the_base() {
    assert_eq!(
        resolve(text("../c?d"), some("https://example.com/a/b/x")),
        parts("https", "", "", "example.com", "", "/a/c", "d", "")
    );
    assert_eq!(
        resolve(text("//other.org/p"), some("https://example.com/a")),
        parts("https", "", "", "other.org", "", "/p", "", "")
    );
}

#[test]
fn components_default_to_empty_without_a_base() {
    let input = UrlInput::Init(UrlInit { pathname: some("/x"), ..Default::default() });
    assert_eq!(resolve(input, None), parts("", "", "", "", "", "/x", "", ""));
    assert_eq!(
        resolve(UrlInput::Init(UrlInit::default()), None),
        parts("", "", "", "", "", "", "", "")
    );
}

#[test]
fn given_components_win_over_the_base() {
    let input = UrlInput::Init(UrlInit {
        pathname: some("c"),
        base_url: some("https://u:p@example.com:81/a/b?q#f"),
        ..Default::default()
    });
    assert_eq!(
        resolve(input, None),
        parts("https", "u", "p", "example.com", "81", "/a/c", "", "")
    );
    let input = UrlInput::Init(UrlInit {
        hostname: some("other.org"),
        base_url: some("https://u:p@example.com:81/a/b?q#f"),
        ..Default::default()
    });
    assert_eq!(resolve(input, None), parts("https", "", "", "other.org", "", "", "", ""));
    let input = UrlInput::Init(UrlInit {
        hash: some("g"),
        base_url: some("https://example.com/a/b?q#f"),
        ..Default::default()
    });
    assert_eq!(resolve(input, None), parts("https", "", "", "example.com", "", "/a/b", "q", "g"));
}

#[test]
fn protocol_is_lowered_and_loses_its_colon() {
    let input = UrlInput::Init(UrlInit { protocol: some("HTTPS:"), ..Default::default() });
    assert_eq!(resolve(input, None).protocol, "https");
    let pattern = urlpattern_parse(
        UrlInput::Init(UrlInit { protocol: some("HTTPS:"), ..Default::default() }),
        None,
    )
    .unwrap();
    assert_eq!(pattern.protocol.pattern_string, "https");
}

#[test]
fn hostname_is_brought_to_ascii_unless_it_holds_pattern_syntax() {
    let input = UrlInput::Init(UrlInit { hostname: some("MÜNCHEN.de"), ..Default::default() });
    assert_eq!(resolve(input, None).hostname, "xn--mnchen-3ya.de");
    let pattern = urlpattern_parse(
        UrlInput::Init(UrlInit { hostname: some("*.EXAMPLE.com"), ..Default::default() }),
        None,
    )
    .unwrap();
    assert_eq!(pattern.hostname.pattern_string, "*.example.com");
    let pattern = urlpattern_parse(
        UrlInput::Init(UrlInit { hostname: some(":sub.example.com"), ..Default::default() }),
        None,
    )
    .unwrap();
    assert_eq!(pattern.hostname.pattern_string, ":sub.example.com");
    assert_eq!(pattern.hostname.group_name_list, vec!["sub".to_string()]);
}

#[test]
fn port_loses_leading_zeros_and_the_default() {
    let input =
        UrlInput::Init(UrlInit { protocol: some("http"), port: some("0081"), ..Default::default() });
    assert_eq!(resolve(input, None).port, "81");
    let input =
        UrlInput::Init(UrlInit { protocol: some("http"), port: some("80"), ..Default::default() });
    assert_eq!(resolve(input, None).port, "");
    let input =
        UrlInput::Init(UrlInit { protocol: some("https"), port: some("80"), ..Default::default() });
    assert_eq!(resolve(input, None).port, "80");
    let input =
        UrlInput::Init(UrlInit { protocol: some("ftp"), port: some("21"), ..Default::default() });
    assert_eq!(resolve(input, None).port, "");
    let pattern = urlpattern_parse(
        UrlInput::Init(UrlInit { protocol: some("ws"), port: some("80"), ..Default::default() }),
        None,
    )
    .unwrap();
    assert_eq!(pattern.port.pattern_string, "");
    let pattern = urlpattern_parse(
        UrlInput::Init(UrlInit { protocol: some("ws"), port: some("0081"), ..Default::default() }),
        None,
    )
    .unwrap();
    assert_eq!(pattern.port.pattern_string, "81");
}

#[test]
fn pathname_is_made_canonical_unless_it_holds_pattern_syntax() {
    let input = UrlInput::Init(UrlInit { pathname: some("/a/./b/../c d"), ..Default::default() });
    assert_eq!(resolve(input, None).pathname, "/a/c%20d");
    let pattern = urlpattern_parse(
        UrlInput::Init(UrlInit { pathname: some("/a/../b c"), ..Default::default() }),
        None,
    )
    .unwrap();
    assert_eq!(pattern.pathname.pattern_string, "/b%20c");
    let pattern = urlpattern_parse(
        UrlInput::Init(UrlInit { pathname: some("/a b/:id"), ..Default::default() }),
        None,
    )
    .unwrap();
    assert_eq!(pattern.pathname.pattern_string, "/a%20b/:id");
}

#[test]
fn search_and_hash_lose_their_delimiter() {
    let input = UrlInput::Init(UrlInit {
        search: some("?q=1"),
        hash: some("#top"),
        ..Default::default()
    });
    let resolved = resolve(input, None);
    assert_eq!(resolved.search, "q=1");
    assert_eq!(resolved.hash, "top");
    let pattern = urlpattern_parse(
        UrlInput::Init(UrlInit { search: some("?q=:q"), hash: some("#:h"), ..Default::default() }),
        None,
    )
    .unwrap();
    assert_eq!(pattern.search.pattern_string, "q=:q");
    assert_eq!(pattern.hash.pattern_string, "#:h".trim_start_matches('#'));
    let found = urlpattern_exec(&pattern, text("https://x/?q=7#end"), None).unwrap().unwrap();
    assert_eq!(found.search.groups, vec![("q".to_string(), some("7"))]);
    assert_eq!(found.hash.groups, vec![("h".to_string(), some("end"))]);
}

#[test]
fn unset_pattern_components_are_wildcards() {
    let pattern = urlpattern_parse(UrlInput::Init(UrlInit::default()), None).unwrap();
    for c in [
        &pattern.protocol,
        &pattern.username,
        &pattern.password,
        &pattern.hostname,
        &pattern.port,
        &pattern.pathname,
        &pattern.search,
        &pattern.hash,
    ] {
        assert_eq!(c.pattern_string, "*");
        assert_eq!(c.regexp_string, "^(.*)$");
        assert_eq!(c.group_name_list, vec!["0".to_string()]);
    }
    assert!(!pattern.has_regexp_groups);
    assert!(urlpattern_exec(&pattern, text("https://u:p@h:1/a?b#c"), None).unwrap().is_some());
}

#[test]
fn the_input_and_the_base_come_back() {
    let input = text("../c?d");
    let base = some("https://example.com/a/b/x");
    let found = urlpattern_process_match_input(input.clone(), base.clone()).unwrap();
    assert_eq!(found.1, (input, base));
    let input = UrlInput::Init(UrlInit {
        pathname: some("/a/../b"),
        base_url: some("https://example.com"),
        ..Default::default()
    });
    let found = urlpattern_process_match_input(input.clone(), None).unwrap();
    assert_eq!(found.1, (input, None));
}

#[test]
fn resolving_agrees_with_the_engine() {
    for (input, base) in [
        ("https://example.com/a?b#c", None),
        ("x/y", Some("https://example.com/a/b")),
        ("data:text/plain,hi", None),
        ("file:///etc/hosts", None),
    ] {
        let own =
            urlpattern_process_match_input(text(input), base.map(|b| b.to_string())).unwrap();
        let (resolved, echo) = urlpattern::quirks::process_match_input(
            urlpattern::quirks::StringOrInit::String(input.into()),
            base,
        )
        .unwrap()
        .unwrap();
        let theirs = urlpattern::quirks::parse_match_input(resolved).unwrap();
        assert_eq!(own.0.protocol, theirs.protocol);
        assert_eq!(own.0.username, theirs.username);
        assert_eq!(own.0.password, theirs.password);
        assert_eq!(own.0.hostname, theirs.hostname);
        assert_eq!(own.0.port, theirs.port);
        assert_eq!(own.0.pathname, theirs.pathname);
        assert_eq!(own.0.search, theirs.search);
        assert_eq!(own.0.hash, theirs.hash);
        assert_eq!(own.1 .1, echo.1);
        assert_eq!(own.1 .0, text(input));
    }
}

#[test]
fn compiling_agrees_with_the_engine() {
    for source in ["https://example.com/:a/*", "http{s}?://*.x.org/(\\d+)?", "/p/:q+"] {
        let base = "https://example.com/";
        let own = urlpattern_parse(text(source), some(base)).unwrap();
        let init = urlpattern::quirks::process_construct_pattern_input(
            urlpattern::quirks::StringOrInit::String(source.into()),
            Some(base),
        )
        .unwrap();
        let theirs =
            urlpattern::quirks::parse_pattern::<regex::Regex>(init, Default::default()).unwrap();
        assert_eq!(own.has_regexp_groups, theirs.has_regexp_groups);
        for (mine, other) in [
            (&own.protocol, &theirs.protocol),
            (&own.username, &theirs.username),
            (&own.password, &theirs.password),
            (&own.hostname, &theirs.hostname),
            (&own.port, &theirs.port),
            (&own.pathname, &theirs.pathname),
            (&own.search, &theirs.search),
            (&own.hash, &theirs.hash),
        ] {
            assert_eq!(mine.pattern_string, other.pattern_string);
            assert_eq!(mine.regexp_string, other.regexp_string);
            assert_eq!(mine.group_name_list, other.group_name_list);
            assert_eq!(mine.matcher.prefix, other.matcher.prefix);
            assert_eq!(mine.matcher.suffix, other.matcher.suffix);
        }
    }
}
