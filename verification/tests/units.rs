use hget::fetcher::BasicFetcher;
use hget::outcome::FetchError;
use hget::urls::Url;

#[test]
fn url_parse_accepts_an_absolute_url() {
    let u = match Url::parse("http://a.test/x") {
        Some(u) => u,
        None => panic!("expected a URL"),
    };
    assert_eq!(u.as_str(), "http://a.test/x");
}

#[test]
fn url_parse_normalizes_its_input() {
    let u = match Url::parse("HTTP://A.Test") {
        Some(u) => u,
        None => panic!("expected a URL"),
    };
    assert_eq!(u.as_str(), "http://a.test/");
}

#[test]
fn url_parse_rejects_a_relative_reference() {
    assert!(Url::parse("/just/a/path").is_none());
    assert!(Url::parse("no scheme, not absolute").is_none());
}

#[test]
fn url_clone_is_the_same_url() {
    let u = match Url::parse("http://a.test/x?q=1") {
        Some(u) => u,
        None => panic!("expected a URL"),
    };
    let v = u.clone();
    assert_eq!(u.as_str(), v.as_str());
}

#[test]
fn basic_fetcher_sends_the_fixed_headers() {
    let f = BasicFetcher::new();
    let h = f.headers();
    assert_eq!(h.len(), 3);
    assert_eq!(h[0], ("Accept", "*/*"));
    assert_eq!(h[1], ("Connection", "keep-alive"));
    assert_eq!(h[2].0, "User-Agent");
    assert_eq!(
        h[2].1,
        "Mozilla/5.0 (X11; CrOS x86_64 6158.70.0) AppleWebKit/537.36 (KHTML, like Gecko) Chrome/38.0.2125.110 Safari/537.36"
    );
}

#[test]
fn transport_and_malformed_failures_are_transient() {
    assert!(FetchError::Transport("connection reset".to_string()).is_transient());
    assert!(FetchError::Malformed("truncated headers".to_string()).is_transient());
}

#[test]
fn uri_format_failure_is_not_transient() {
    assert!(!FetchError::UriFormat.is_transient());
}
