use std::cell::RefCell;

use hget::fetcher::{FollowingFetcher, HttpFetcher, RetryingFetcher};
use hget::outcome::{FetchError, FetcherResult, Response};
use hget::urls::Url;

/// A fetcher that plays back a fixed list of outcomes, recording how many
/// calls it took and which URLs it was handed.
struct ScriptFetcher {
    outcomes: RefCell<Vec<FetcherResult<String>>>,
    calls: RefCell<usize>,
    urls_seen: RefCell<Vec<String>>,
}

impl ScriptFetcher {
    fn new(outcomes: Vec<FetcherResult<String>>) -> ScriptFetcher {
        ScriptFetcher {
            outcomes: RefCell::new(outcomes),
            calls: RefCell::new(0),
            urls_seen: RefCell::new(Vec::new()),
        }
    }

    fn calls(&self) -> usize {
        *self.calls.borrow()
    }

    fn urls_seen(&self) -> Vec<String> {
        self.urls_seen.borrow().clone()
    }
}

impl HttpFetcher<String> for ScriptFetcher {
    fn get(&self, url: Url) -> FetcherResult<String> {
        *self.calls.borrow_mut() += 1;
        self.urls_seen.borrow_mut().push(url.as_str().to_string());
        self.outcomes.borrow_mut().remove(0)
    }
}

fn ok(status: u16, body: &str) -> FetcherResult<String> {
    Ok(Response { status, location: None, body: body.to_string() })
}

fn redirect(to: &str) -> FetcherResult<String> {
    Ok(Response { status: 301, location: Some(to.to_string()), body: String::new() })
}

fn bad_redirect(location: Option<&str>) -> FetcherResult<String> {
    Ok(Response { status: 301, location: location.map(|s| s.to_string()), body: String::new() })
}

fn refused() -> FetcherResult<String> {
    Err(FetchError::Transport("connection refused".to_string()))
}

fn url(s: &str) -> Url {
    match Url::parse(s) {
        Some(u) => u,
        None => panic!("test URL did not parse"),
    }
}

#[test]
fn follow_returns_non_redirect_unchanged() {
    let script = ScriptFetcher::new(vec![ok(404, "missing"), ok(200, "never reached")]);
    let f = FollowingFetcher::new(&script);
    match f.get(url("http://a.test/x")) {
        Ok(resp) => {
            assert_eq!(resp.status, 404);
            assert_eq!(resp.body, "missing");
        }
        Err(_) => panic!("expected a response"),
    }
    assert_eq!(script.calls(), 1);
}

#[test]
fn follow_stops_at_first_non_redirect() {
    let script = ScriptFetcher::new(vec![
        redirect("http://a.test/b"),
        redirect("http://a.test/c"),
        ok(200, "done"),
        ok(200, "never reached"),
    ]);
    let f = FollowingFetcher::new(&script);
    match f.get(url("http://a.test/a")) {
        Ok(resp) => {
            assert_eq!(resp.status, 200);
            assert_eq!(resp.body, "done");
        }
        Err(_) => panic!("expected a response"),
    }
    assert_eq!(script.calls(), 3);
    assert_eq!(
        script.urls_seen(),
        vec!["http://a.test/a", "http://a.test/b", "http://a.test/c"]
    );
}

#[test]
fn follow_fails_when_eleventh_hop_would_be_needed() {
    let mut outcomes = Vec::new();
    for i in 0..10 {
        outcomes.push(redirect(&format!("http://a.test/{}", i)));
    }
    outcomes.push(ok(200, "never reached"));
    let script = ScriptFetcher::new(outcomes);
    let f = FollowingFetcher::new(&script);
    match f.get(url("http://a.test/start")) {
        Ok(_) => panic!("expected a failure"),
        Err(e) => assert!(matches!(e, FetchError::UriFormat)),
    }
    assert_eq!(script.calls(), 10);
}

#[test]
fn follow_succeeds_on_the_tenth_call() {
    let mut outcomes = Vec::new();
    for i in 0..9 {
        outcomes.push(redirect(&format!("http://a.test/{}", i)));
    }
    outcomes.push(ok(200, "made it"));
    let script = ScriptFetcher::new(outcomes);
    let f = FollowingFetcher::new(&script);
    match f.get(url("http://a.test/start")) {
        Ok(resp) => {
            assert_eq!(resp.status, 200);
            assert_eq!(resp.body, "made it");
        }
        Err(_) => panic!("expected a response"),
    }
    assert_eq!(script.calls(), 10);
}

#[test]
fn follow_fails_at_once_on_missing_location() {
    let script = ScriptFetcher::new(vec![bad_redirect(None), ok(200, "never reached")]);
    let f = FollowingFetcher::new(&script);
    match f.get(url("http://a.test/x")) {
        Ok(_) => panic!("expected a failure"),
        Err(e) => assert!(matches!(e, FetchError::UriFormat)),
    }
    assert_eq!(script.calls(), 1);
}

#[test]
fn follow_fails_at_once_on_unparseable_location() {
    let script = ScriptFetcher::new(vec![
        bad_redirect(Some("no scheme, not absolute")),
        ok(200, "never reached"),
    ]);
    let f = FollowingFetcher::new(&script);
    match f.get(url("http://a.test/x")) {
        Ok(_) => panic!("expected a failure"),
        Err(e) => assert!(matches!(e, FetchError::UriFormat)),
    }
    assert_eq!(script.calls(), 1);
}

#[test]
fn follow_propagates_inner_failure_untouched() {
    let script = ScriptFetcher::new(vec![refused(), ok(200, "never reached")]);
    let f = FollowingFetcher::new(&script);
    match f.get(url("http://a.test/x")) {
        Ok(_) => panic!("expected a failure"),
        Err(e) => match e {
            FetchError::Transport(msg) => assert_eq!(msg, "connection refused"),
            _ => panic!("expected a transport failure"),
        },
    }
    assert_eq!(script.calls(), 1);
}

#[test]
fn retry_returns_success_on_last_allowed_attempt() {
    let script = ScriptFetcher::new(vec![refused(), refused(), ok(200, "hello")]);
    let f = RetryingFetcher::new(&script, 3);
    match f.get(url("http://a.test/x")) {
        Ok(resp) => {
            assert_eq!(resp.status, 200);
            assert_eq!(resp.body, "hello");
        }
        Err(_) => panic!("expected a response"),
    }
    assert_eq!(script.calls(), 3);
    assert_eq!(
        script.urls_seen(),
        vec!["http://a.test/x", "http://a.test/x", "http://a.test/x"]
    );
}

#[test]
fn retry_spends_exactly_its_budget_and_fails() {
    let script = ScriptFetcher::new(vec![
        refused(),
        refused(),
        Err(FetchError::Transport("third strike".to_string())),
        ok(200, "never reached"),
    ]);
    let f = RetryingFetcher::new(&script, 3);
    match f.get(url("http://a.test/x")) {
        Ok(_) => panic!("expected a failure"),
        Err(e) => match e {
            FetchError::Transport(msg) => assert_eq!(msg, "third strike"),
            _ => panic!("expected a transport failure"),
        },
    }
    assert_eq!(script.calls(), 3);
}

#[test]
fn retry_never_retries_an_error_status_response() {
    let script = ScriptFetcher::new(vec![ok(500, "boom"), ok(200, "never reached")]);
    let f = RetryingFetcher::new(&script, 3);
    match f.get(url("http://a.test/x")) {
        Ok(resp) => {
            assert_eq!(resp.status, 500);
            assert_eq!(resp.body, "boom");
        }
        Err(_) => panic!("expected a response"),
    }
    assert_eq!(script.calls(), 1);
}

#[test]
fn retry_never_retries_a_uri_format_failure() {
    let script = ScriptFetcher::new(vec![Err(FetchError::UriFormat), ok(200, "never reached")]);
    let f = RetryingFetcher::new(&script, 3);
    match f.get(url("http://a.test/x")) {
        Ok(_) => panic!("expected a failure"),
        Err(e) => assert!(matches!(e, FetchError::UriFormat)),
    }
    assert_eq!(script.calls(), 1);
}

#[test]
fn retry_retries_a_malformed_response_failure() {
    let script = ScriptFetcher::new(vec![
        Err(FetchError::Malformed("bad status line".to_string())),
        ok(200, "hello"),
    ]);
    let f = RetryingFetcher::new(&script, 2);
    match f.get(url("http://a.test/x")) {
        Ok(resp) => assert_eq!(resp.status, 200),
        Err(_) => panic!("expected a response"),
    }
    assert_eq!(script.calls(), 2);
}

#[test]
fn retry_inside_redirect_gives_each_hop_a_fresh_budget() {
    let script = ScriptFetcher::new(vec![
        refused(),
        redirect("http://a.test/y"),
        refused(),
        ok(200, "end"),
    ]);
    let retrying = RetryingFetcher::new(&script, 2);
    let f = FollowingFetcher::new(&retrying);
    match f.get(url("http://a.test/x")) {
        Ok(resp) => {
            assert_eq!(resp.status, 200);
            assert_eq!(resp.body, "end");
        }
        Err(_) => panic!("expected a response"),
    }
    assert_eq!(script.calls(), 4);
    assert_eq!(
        script.urls_seen(),
        vec!["http://a.test/x", "http://a.test/x", "http://a.test/y", "http://a.test/y"]
    );
}

#[test]
fn end_to_end_one_redirect_then_body() {
    let script = ScriptFetcher::new(vec![redirect("http://a.test/y"), ok(200, "hello")]);
    let f = FollowingFetcher::new(&script);
    match f.get(url("http://a.test/x")) {
        Ok(resp) => {
            assert_eq!(resp.status, 200);
            assert_eq!(resp.body, "hello");
        }
        Err(_) => panic!("expected a response"),
    }
    assert_eq!(script.calls(), 2);
    assert_eq!(script.urls_seen(), vec!["http://a.test/x", "http://a.test/y"]);
}

#[test]
fn end_to_end_two_refusals_then_success() {
    let script = ScriptFetcher::new(vec![refused(), refused(), ok(200, "payload")]);
    let f = RetryingFetcher::new(&script, 3);
    match f.get(url("http://a.test/x")) {
        Ok(resp) => assert_eq!(resp.status, 200),
        Err(_) => panic!("expected a response"),
    }
    assert_eq!(script.calls(), 3);
}
