use http_engine::message::{Method, StatusCode, Version};
use http_engine::text::{decode_lossy, visible_byte, visible_text};
use http_engine::url::Target;

#[test]
fn decode_lossy_keeps_valid_text() {
    assert_eq!(decode_lossy(b"hello"), "hello");
    assert_eq!(decode_lossy("gr\u{fc}\u{df}e \u{1f600}".as_bytes()), "gr\u{fc}\u{df}e \u{1f600}");
    assert_eq!(decode_lossy(b""), "");
}

#[test]
fn decode_lossy_replaces_what_is_no_text() {
    assert_eq!(decode_lossy(&[0xff]), "\u{fffd}");
    assert_eq!(decode_lossy(&[b'a', 0xff, b'b']), "a\u{fffd}b");
    assert_eq!(decode_lossy(&[0xe2, 0x82]), "\u{fffd}");
    assert_eq!(decode_lossy(&[b'o', b'k', 0xc3]), "ok\u{fffd}");
}

#[test]
fn visible_bytes() {
    for b in 0u8..=255 {
        let expected = (32..127).contains(&b) || b == 9;
        assert_eq!(visible_byte(b), expected, "byte {b}");
    }
}

#[test]
fn visible_text_of_visible_bytes() {
    assert_eq!(visible_text(b"text/plain; q=0.9"), Some("text/plain; q=0.9".to_string()));
    assert_eq!(visible_text(b"a\tb"), Some("a\tb".to_string()));
    assert_eq!(visible_text(b""), Some(String::new()));
    assert_eq!(visible_text(b" ~"), Some(" ~".to_string()));
}

#[test]
fn visible_text_of_other_bytes_is_nothing() {
    assert_eq!(visible_text(&[b'a', 0x80]), None);
    assert_eq!(visible_text("caf\u{e9}".as_bytes()), None);
    assert_eq!(visible_text(&[127]), None);
    assert_eq!(visible_text(&[31]), None);
    assert_eq!(visible_text(b"a\nb"), None);
}

#[test]
fn the_number_of_a_status_in_three_digits() {
    let text = |code: u16| StatusCode::from_u16(code).unwrap().text_with(Some(String::new()));
    assert_eq!(text(100), "100 ");
    assert_eq!(text(404), "404 ");
    assert_eq!(text(230), "230 ");
    assert_eq!(text(507), "507 ");
    assert_eq!(text(999), "999 ");
}

#[test]
fn method_text() {
    assert_eq!(Method::Get.as_str(), "GET");
    assert_eq!(Method::Head.as_str(), "HEAD");
    assert_eq!(Method::Post.as_str(), "POST");
    assert_eq!(Method::Put.as_str(), "PUT");
    assert_eq!(Method::Patch.as_str(), "PATCH");
    assert_eq!(Method::Delete.as_str(), "DELETE");
}

#[test]
fn version_text() {
    assert_eq!(Version::Http09.as_str(), "HTTP/0.9");
    assert_eq!(Version::Http10.as_str(), "HTTP/1.0");
    assert_eq!(Version::Http11.as_str(), "HTTP/1.1");
    assert_eq!(Version::Http2.as_str(), "HTTP/2.0");
    assert_eq!(Version::Http3.as_str(), "HTTP/3.0");
}

#[test]
fn status_code_range() {
    assert!(StatusCode::from_u16(0).is_none());
    assert!(StatusCode::from_u16(99).is_none());
    assert_eq!(StatusCode::from_u16(100).map(|s| s.as_u16()), Some(100));
    assert_eq!(StatusCode::from_u16(404).map(|s| s.as_u16()), Some(404));
    assert_eq!(StatusCode::from_u16(999).map(|s| s.as_u16()), Some(999));
    assert!(StatusCode::from_u16(1000).is_none());
    assert!(StatusCode::from_u16(u16::MAX).is_none());
}

#[test]
fn status_text_with_a_known_reason() {
    assert_eq!(StatusCode::from_u16(200).unwrap().to_text(), "200 OK");
    assert_eq!(StatusCode::from_u16(404).unwrap().to_text(), "404 Not Found");
    assert_eq!(StatusCode::from_u16(100).unwrap().to_text(), "100 Continue");
    assert_eq!(StatusCode::from_u16(503).unwrap().to_text(), "503 Service Unavailable");
}

#[test]
fn status_text_without_a_known_reason() {
    assert_eq!(StatusCode::from_u16(299).unwrap().to_text(), "299 <unknown status code>");
    assert_eq!(StatusCode::from_u16(999).unwrap().to_text(), "999 <unknown status code>");
}

#[test]
fn parse_gives_the_parts_of_a_url() {
    let target = Target::parse("http://example.com/search?q=test").unwrap();
    assert_eq!(target.text, "http://example.com/search?q=test");
    assert_eq!(target.path, "/search");
    assert_eq!(target.query.as_deref(), Some("q=test"));
    assert_eq!(target.host.as_deref(), Some("example.com"));
}

#[test]
fn parse_normalises() {
    let target = Target::parse("HTTP://Example.COM").unwrap();
    assert_eq!(target.text, "http://example.com/");
    assert_eq!(target.path, "/");
    assert_eq!(target.query, None);
    assert_eq!(target.host.as_deref(), Some("example.com"));
}

#[test]
fn parse_leaves_the_fragment_out_of_path_and_query() {
    let target = Target::parse("https://example.com:8443/a/b?x=1&y=2#part").unwrap();
    assert_eq!(target.text, "https://example.com:8443/a/b?x=1&y=2#part");
    assert_eq!(target.path, "/a/b");
    assert_eq!(target.query.as_deref(), Some("x=1&y=2"));
    assert_eq!(target.host.as_deref(), Some("example.com"));
}

#[test]
fn parse_tells_an_empty_query_from_none() {
    let target = Target::parse("http://example.com/?").unwrap();
    assert_eq!(target.query.as_deref(), Some(""));
}

#[test]
fn parse_refuses_what_is_no_url() {
    assert!(Target::parse("").is_none());
    assert!(Target::parse("not a url").is_none());
    assert!(Target::parse("/relative/path").is_none());
    assert!(Target::parse("http://").is_none());
}

#[test]
fn parse_takes_a_url_without_a_host() {
    let target = Target::parse("mailto:someone@example.com").unwrap();
    assert_eq!(target.host, None);
    assert_eq!(target.path, "someone@example.com");
}

#[test]
fn status_text_with_a_given_reason() {
    let status = StatusCode::from_u16(418).unwrap();
    assert_eq!(status.text_with(Some("Teapot".to_string())), "418 Teapot");
    assert_eq!(status.text_with(Some(String::new())), "418 ");
    assert_eq!(status.text_with(None), "418 <unknown status code>");
}

#[test]
fn reason_phrases() {
    assert_eq!(StatusCode::from_u16(200).unwrap().canonical_reason().as_deref(), Some("OK"));
    assert_eq!(
        StatusCode::from_u16(418).unwrap().canonical_reason().as_deref(),
        Some("I'm a teapot")
    );
    assert_eq!(StatusCode::from_u16(600).unwrap().canonical_reason(), None);
}
