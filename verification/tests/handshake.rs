use url::Url;
use watchdog_client::handshake::{authorize, bearer, build_request, finish_request};
use ws::Request;

#[test]
fn bearer_is_prefix_space_token() {
    assert_eq!(bearer("abc123"), "Bearer abc123");
    assert_eq!(bearer(""), "Bearer ");
}

#[test]
fn bearer_inserts_the_token_verbatim() {
    assert_eq!(bearer(" a b\t"), "Bearer  a b\t");
    assert_eq!(bearer("a\"b\\c%20\r\n"), "Bearer a\"b\\c%20\r\n");
    assert_eq!(bearer("t\u{f6}k\u{e9}n"), "Bearer t\u{f6}k\u{e9}n");
    assert_eq!(bearer("Bearer x"), "Bearer Bearer x");
}

#[test]
fn build_request_carries_the_bearer_token() {
    let url = Url::parse("ws://watchdog.example:9000/feed?x=1").unwrap();
    let req = build_request(&url, "s3cr3t").unwrap();
    assert_eq!(req.header("Authorization"), Some(&b"Bearer s3cr3t".to_vec()));
    let last = req.headers().last().unwrap();
    assert_eq!(last.0, "Authorization");
    assert_eq!(last.1, b"Bearer s3cr3t".to_vec());
    let count = req.headers().iter().filter(|h| h.0 == "Authorization").count();
    assert_eq!(count, 1);
}

#[test]
fn build_request_keeps_the_upgrade_request() {
    let url = Url::parse("ws://watchdog.example:9000/feed?x=1").unwrap();
    let req = build_request(&url, "tok").unwrap();
    assert_eq!(req.method(), "GET");
    assert_eq!(req.resource(), "/feed?x=1");
    assert_eq!(req.header("Host"), Some(&b"watchdog.example:9000".to_vec()));
    assert_eq!(req.header("Upgrade"), Some(&b"websocket".to_vec()));
    assert_eq!(req.header("Connection"), Some(&b"Upgrade".to_vec()));
    assert_eq!(req.header("Sec-WebSocket-Version"), Some(&b"13".to_vec()));
    assert!(req.header("Sec-WebSocket-Key").is_some());
    assert_eq!(req.headers().len(), 6);
}

#[test]
fn build_request_encodes_the_token_as_utf8() {
    let url = Url::parse("wss://watchdog.example/").unwrap();
    let req = build_request(&url, "t\u{f6}k").unwrap();
    let last = req.headers().last().unwrap();
    assert_eq!(last.1, vec![b'B', b'e', b'a', b'r', b'e', b'r', b' ', b't', 0xc3, 0xb6, b'k']);
}

#[test]
fn build_request_with_empty_token() {
    let url = Url::parse("ws://watchdog.example/").unwrap();
    let req = build_request(&url, "").unwrap();
    assert_eq!(req.headers().last().unwrap().1, b"Bearer ".to_vec());
}

#[test]
fn build_request_fails_on_a_url_without_host() {
    let url = Url::parse("mailto:ops@watchdog.example").unwrap();
    let err = build_request(&url, "tok").unwrap_err();
    assert!(matches!(err.kind, ws::ErrorKind::Internal));
}

#[test]
fn build_request_puts_the_bearer_after_a_basic_authorization() {
    let url = Url::parse("ws://user:pw@watchdog.example/").unwrap();
    let req = build_request(&url, "tok").unwrap();
    let auth: Vec<&(String, Vec<u8>)> =
        req.headers().iter().filter(|h| h.0 == "Authorization").collect();
    assert_eq!(auth.len(), 2);
    assert!(auth[0].1.starts_with(b"Basic "));
    assert_eq!(auth[1].1, b"Bearer tok".to_vec());
    assert_eq!(req.headers().last().unwrap().1, b"Bearer tok".to_vec());
}

#[test]
fn authorize_appends_one_header_and_keeps_the_rest() {
    let url = Url::parse("ws://watchdog.example/a").unwrap();
    let base = Request::from_url(&url).unwrap();
    let before: Vec<(String, Vec<u8>)> = base.headers().clone();
    let out = authorize(base, "k");
    assert_eq!(out.headers().len(), before.len() + 1);
    assert_eq!(&out.headers()[..before.len()], &before[..]);
    assert_eq!(out.headers()[before.len()], ("Authorization".to_string(), b"Bearer k".to_vec()));
    assert_eq!(out.method(), "GET");
    assert_eq!(out.resource(), "/a");
}

#[test]
fn authorize_twice_appends_twice() {
    let url = Url::parse("ws://watchdog.example/").unwrap();
    let base = Request::from_url(&url).unwrap();
    let n = base.headers().len();
    let out = authorize(authorize(base, "one"), "two");
    assert_eq!(out.headers().len(), n + 2);
    assert_eq!(out.headers()[n].1, b"Bearer one".to_vec());
    assert_eq!(out.headers()[n + 1].1, b"Bearer two".to_vec());
}

#[test]
fn finish_request_authorizes_a_built_request() {
    let url = Url::parse("ws://watchdog.example/b?q").unwrap();
    let base = Request::from_url(&url).unwrap();
    let before: Vec<(String, Vec<u8>)> = base.headers().clone();
    let out = finish_request(Ok(base), "z9").unwrap();
    assert_eq!(&out.headers()[..before.len()], &before[..]);
    assert_eq!(out.headers().len(), before.len() + 1);
    assert_eq!(out.headers().last().unwrap(), &("Authorization".to_string(), b"Bearer z9".to_vec()));
    assert_eq!(out.resource(), "/b?q");
}

#[test]
fn finish_request_hands_a_failure_on() {
    let failure = ws::Error::new(ws::ErrorKind::Protocol, "no such thing");
    let err = finish_request(Err(failure), "z9").unwrap_err();
    assert!(matches!(err.kind, ws::ErrorKind::Protocol));
    assert_eq!(err.details, "no such thing");
}

#[test]
fn build_request_succeeds_exactly_on_urls_with_a_host() {
    let with_host = [
        "ws://watchdog.example",
        "wss://watchdog.example:8443/feed?x=1#frag",
        "ws://127.0.0.1:3012",
        "ws://[::1]:9000/",
        "http://watchdog.example/",
        "ws://user:pw@watchdog.example/",
    ];
    for text in with_host.iter() {
        let url = Url::parse(text).unwrap();
        assert!(url.has_host());
        assert!(build_request(&url, "tok").is_ok(), "{}", text);
    }
    let without_host = ["mailto:ops@watchdog.example", "data:text/plain,hello", "urn:watchdog:1"];
    for text in without_host.iter() {
        let url = Url::parse(text).unwrap();
        assert!(!url.has_host());
        assert!(build_request(&url, "tok").is_err(), "{}", text);
    }
}

#[test]
fn build_request_success_does_not_depend_on_the_token() {
    let url = Url::parse("ws://watchdog.example/feed").unwrap();
    for token in ["", "a", "Bearer x", "t\u{f6}k\r\n", " "].iter() {
        assert!(build_request(&url, token).is_ok());
    }
    let hostless = Url::parse("mailto:ops@watchdog.example").unwrap();
    for token in ["", "a", "Bearer x"].iter() {
        assert!(build_request(&hostless, token).is_err());
    }
}
