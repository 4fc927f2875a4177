//! The JSON envelope text itself: field order, omission of absent fields,
//! and string escaping.

use all_origins_rust::page_types::PageContent;
use serde_json::Value;

fn record() -> PageContent {
    PageContent {
        content_length: None,
        content_type: None,
        http_code: None,
        response_time: 0,
        url: String::new(),
        contents: None,
        error: None,
    }
}

#[test]
fn minimal_envelope_has_only_the_two_fixed_fields() {
    let mut pc = record();
    pc.response_time = 3;
    pc.url = "u".to_string();
    assert_eq!(pc.to_json(), "{\"response_time\":3,\"url\":\"u\"}");
}

#[test]
fn full_envelope_lists_fields_in_order() {
    let pc = PageContent {
        content_length: Some(15),
        content_type: Some("text/example".to_string()),
        http_code: Some(200),
        response_time: 12,
        url: "http://origin.test/test.html".to_string(),
        contents: Some("Hi, allOrigins!".to_string()),
        error: Some("oops".to_string()),
    };
    assert_eq!(
        pc.to_json(),
        "{\"content_length\":15,\"content_type\":\"text/example\",\"http_code\":200,\"response_time\":12,\"url\":\"http://origin.test/test.html\",\"contents\":\"Hi, allOrigins!\",\"error\":\"oops\"}"
    );
}

#[test]
fn envelope_escapes_like_json_requires() {
    let mut pc = record();
    pc.url = "u".to_string();
    pc.contents = Some("a\"b\\c\nd\te\rf\u{8}g\u{c}h\u{1f}i".to_string());
    let text = pc.to_json();
    assert_eq!(
        text,
        "{\"response_time\":0,\"url\":\"u\",\"contents\":\"a\\\"b\\\\c\\nd\\te\\rf\\bg\\fh\\u001fi\"}"
    );

    let parsed: Value = serde_json::from_str(&text).expect("the envelope must be valid JSON");
    assert_eq!(
        parsed["contents"].as_str(),
        Some("a\"b\\c\nd\te\rf\u{8}g\u{c}h\u{1f}i")
    );
}

#[test]
fn envelope_keeps_unicode_text() {
    let mut pc = record();
    pc.url = "http://origin.test/".to_string();
    pc.contents = Some("gr\u{fc}n \u{2603}".to_string());
    let parsed: Value = serde_json::from_str(&pc.to_json()).unwrap();
    assert_eq!(parsed["contents"].as_str(), Some("gr\u{fc}n \u{2603}"));
    assert_eq!(parsed["url"].as_str(), Some("http://origin.test/"));
}

#[test]
fn large_numbers_render_in_full() {
    let mut pc = record();
    pc.url = "u".to_string();
    pc.content_length = Some(u64::MAX);
    pc.http_code = Some(404);
    pc.response_time = u32::MAX;
    let parsed: Value = serde_json::from_str(&pc.to_json()).unwrap();
    assert_eq!(parsed["content_length"].as_u64(), Some(u64::MAX));
    assert_eq!(parsed["http_code"].as_u64(), Some(404));
    assert_eq!(parsed["response_time"].as_u64(), Some(u32::MAX as u64));
}
