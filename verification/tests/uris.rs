use gh_proxy::uri::Uri;

fn is_path_char(c: char) -> bool {
    matches!(c, '!' | '"' | '$'..=';' | '=' | '@'..='_' | 'a'..='~') || c >= '\u{80}'
}

fn is_query_char(c: char) -> bool {
    matches!(c, '!' | '$'..=';' | '=' | '?'..='~') || c >= '\u{80}'
}

fn parts(text: &str) -> Option<(Option<String>, String, Option<String>)> {
    Uri::parse(text).map(|uri| {
        assert_eq!(uri.text, text);
        (uri.host, uri.path, uri.path_and_query)
    })
}

fn path(path: &str, path_and_query: &str) -> Option<(Option<String>, String, Option<String>)> {
    Some((None, path.to_owned(), Some(path_and_query.to_owned())))
}

fn url(
    host: &str,
    path: &str,
    path_and_query: &str,
) -> Option<(Option<String>, String, Option<String>)> {
    Some((
        Some(host.to_owned()),
        path.to_owned(),
        Some(path_and_query.to_owned()),
    ))
}

#[test]
fn paths_are_read_as_written() {
    assert_eq!(parts("/"), path("/", "/"));
    assert_eq!(parts("/a/b?c=d?e"), path("/a/b", "/a/b?c=d?e"));
    assert_eq!(parts("/a#b?c"), path("/a", "/a"));
    assert_eq!(parts("/a?b#c"), path("/a", "/a?b"));
    assert_eq!(parts("/a?b# <>"), path("/a", "/a?b"));
    assert_eq!(parts("/é?ü"), path("/é", "/é?ü"));
    assert_eq!(parts("//github.com/a"), path("//github.com/a", "//github.com/a"));
}

#[test]
fn the_characters_of_paths_and_queries() {
    let mut code: u32 = 0;
    while code < 0x200 {
        let c = char::from_u32(code).unwrap();
        let text = format!("/{c}");
        let accepted = is_path_char(c) || c == '?' || c == '#';
        assert_eq!(Uri::parse(&text).is_some(), accepted, "{code}");
        let text = format!("https://a/{c}");
        assert_eq!(Uri::parse(&text).is_some(), accepted, "{code}");
        let text = format!("/?{c}");
        let accepted = is_query_char(c) || c == '#';
        assert_eq!(Uri::parse(&text).is_some(), accepted, "{code}");
        code += 1;
    }
}

#[test]
fn queries_alone_are_refused() {
    assert_eq!(parts("?"), None);
    assert_eq!(parts("?a"), None);
    assert_eq!(parts("?a=b&c"), None);
    assert_eq!(parts("?://a/b"), None);
}

#[test]
fn plain_urls_are_taken_apart_as_written() {
    assert_eq!(parts("https://A-1.b/c?d"), url("A-1.b", "/c", "/c?d"));
    assert_eq!(parts("http://a"), url("a", "/", "/"));
    assert_eq!(parts("https://a?b"), url("a", "/", "?b"));
    assert_eq!(parts("https://a?b/c#d"), url("a", "/", "?b/c"));
    assert_eq!(parts("https://a#b"), url("a", "/", "/"));
    assert_eq!(parts("https://a#b/c"), url("a", "/", "/"));
    assert_eq!(parts("https://a/ b"), None);
    assert_eq!(parts("https://a/b?\"c"), None);
}

#[test]
fn other_texts_are_left_to_the_parser() {
    assert_eq!(parts(""), None);
    assert_eq!(parts("https://"), None);
    assert_eq!(parts("https:///a"), None);
    assert_eq!(parts("a b"), None);
    assert_eq!(parts("a/b"), None);
    assert_eq!(parts("*"), path("*", "*"));
    assert_eq!(
        parts("example.com"),
        Some((Some("example.com".to_owned()), String::new(), None))
    );
    assert_eq!(parts("https://u:p@a:8/b"), url("a", "/b", "/b"));
    assert_eq!(parts("ftp://a/b"), url("a", "/b", "/b"));
}

#[test]
fn long_texts_are_refused() {
    for start in ["/", "https://a/"] {
        let longest = format!("{start}{}", "a".repeat(65534 - start.len()));
        assert!(Uri::parse(&longest).is_some());
        let longer = format!("{longest}a");
        assert!(Uri::parse(&longer).is_none());
        let wide = format!("{start}{}", "é".repeat(32768));
        assert!(Uri::parse(&wide).is_none());
    }
}

#[test]
fn paths_of_urls_read_as_themselves() {
    for text in [
        "https://a",
        "https://a#b",
        "http://u@a:1/b?c#d",
        "ftp://a/é?b",
        "https://[::1]/{}",
    ] {
        let uri = Uri::parse(text).unwrap();
        let target = uri.path_and_query.unwrap();
        assert_eq!(parts(&target), path(&uri.path, &target));
    }
}

#[test]
fn http_and_https_are_read_alike() {
    for rest in ["a", "a/b?c#d", "u:p@a:8/b", "a:b:c/", "", "/a", "[::1]/", "a b", "a%/"] {
        assert_eq!(
            parts(&format!("http://{rest}")),
            parts(&format!("https://{rest}"))
        );
    }
}
