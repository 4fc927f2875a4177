//! Classification of fetch outcomes into the normalized result record.

use all_origins_rust::get_page::GetPage;
use all_origins_rust::page_types::{FetchedResponse, PageContent, TransportFailure};

fn fetched(
    url: &str,
    status: u16,
    content_type: Option<&str>,
    content_length: Option<&str>,
    body: Option<&str>,
) -> FetchedResponse {
    FetchedResponse {
        url: url.to_string(),
        status,
        content_type: content_type.map(|s| s.to_string()),
        content_length: content_length.map(|s| s.to_string()),
        body: body.map(|s| s.to_string()),
    }
}

#[test]
fn get_method_should_return_data() {
    let page_content = PageContent::data(fetched(
        "http://origin.test/example",
        200,
        Some("text/plain"),
        None,
        Some("Hello, Get"),
    ));

    assert_eq!(page_content.url, "http://origin.test/example");
    assert_eq!(page_content.content_type.unwrap(), "text/plain");
    assert_eq!(page_content.http_code.unwrap(), 200);
    assert_eq!(page_content.content_length.unwrap(), 10);
    assert_eq!(page_content.contents.unwrap(), "Hello, Get");
}

#[test]
fn delete_method_should_return_data() {
    let page_content = PageContent::data(fetched(
        "http://origin.test/example",
        200,
        Some("text/plain"),
        None,
        Some("Hello, Delete"),
    ));

    assert_eq!(page_content.url, "http://origin.test/example");
    assert_eq!(page_content.content_type.unwrap(), "text/plain");
    assert_eq!(page_content.http_code.unwrap(), 200);
    assert_eq!(page_content.content_length.unwrap(), 13);
    assert_eq!(page_content.contents.unwrap(), "Hello, Delete");
}

#[test]
fn put_method_should_return_data() {
    let page_content = PageContent::data(fetched(
        "http://origin.test/example",
        200,
        Some("text/plain"),
        None,
        Some("Hello, Put"),
    ));

    assert_eq!(page_content.url, "http://origin.test/example");
    assert_eq!(page_content.content_type.unwrap(), "text/plain");
    assert_eq!(page_content.http_code.unwrap(), 200);
    assert_eq!(page_content.content_length.unwrap(), 10);
    assert_eq!(page_content.contents.unwrap(), "Hello, Put");
}

#[test]
fn post_method_should_return_data() {
    let page_content = PageContent::data(fetched(
        "http://origin.test/example",
        201,
        Some("text/plain"),
        None,
        Some("Hello, Post"),
    ));

    assert_eq!(page_content.url, "http://origin.test/example");
    assert_eq!(page_content.content_type.unwrap(), "text/plain");
    assert_eq!(page_content.http_code.unwrap(), 201);
    assert_eq!(page_content.content_length.unwrap(), 11);
    assert_eq!(page_content.contents.unwrap(), "Hello, Post");
}

#[test]
fn options_method_should_return_info() {
    let page_content = PageContent::data(fetched(
        "http://origin.test/example",
        200,
        Some("text/plain"),
        None,
        Some("Hello, Options"),
    ));

    assert_eq!(page_content.url, "http://origin.test/example");
    assert_eq!(page_content.content_type.unwrap(), "text/plain");
    assert_eq!(page_content.http_code.unwrap(), 200);
    assert_eq!(page_content.content_length.unwrap(), 14);
    assert_eq!(page_content.contents.unwrap(), "Hello, Options");
}

#[test]
fn head_method_should_return_info() {
    let page_content = PageContent::data(fetched(
        "http://origin.test/example",
        200,
        Some("text/plain"),
        None,
        Some(""),
    ));

    assert_eq!(page_content.url, "http://origin.test/example");
    assert_eq!(page_content.content_type.unwrap(), "text/plain");
    assert_eq!(page_content.http_code.unwrap(), 200);
    assert_eq!(page_content.content_length.is_none(), true);
    assert_eq!(page_content.contents.is_none(), true);
}

#[test]
fn get_page_info_should_always_return_head() {
    let page_content = PageContent::info(fetched(
        "http://origin.test/example",
        200,
        Some("text/plain"),
        Some("11"),
        None,
    ));

    assert_eq!(page_content.url, "http://origin.test/example");
    assert_eq!(page_content.content_type.unwrap(), "text/plain");
    assert_eq!(page_content.http_code.unwrap(), 200);
    assert_eq!(page_content.content_length.unwrap(), 11);
    assert_eq!(page_content.contents.is_none(), true);
}

#[test]
fn info_never_reads_the_body() {
    let page_content = PageContent::info(fetched(
        "http://origin.test/big",
        200,
        Some("text/html"),
        Some("5"),
        Some("a body the metadata mode must ignore"),
    ));

    assert!(page_content.contents.is_none());
    assert_eq!(page_content.content_length.unwrap(), 5);
    assert!(page_content.error.is_none());
}

#[test]
fn non_success_status_reports_the_status_line() {
    let not_found = PageContent::data(fetched("http://origin.test/a", 404, None, None, None));
    assert_eq!(not_found.error.unwrap(), "404 Not Found");

    let server_error = PageContent::info(fetched("http://origin.test/a", 500, None, None, None));
    assert_eq!(server_error.error.unwrap(), "500 Internal Server Error");

    let unknown = PageContent::info(fetched("http://origin.test/a", 599, None, None, None));
    assert_eq!(unknown.error.unwrap(), "599 <unknown status code>");
}

#[test]
fn success_status_has_no_error() {
    for status in [200u16, 201, 204, 299] {
        let record = PageContent::data(fetched("http://origin.test/a", status, None, None, None));
        assert!(record.error.is_none());
        let record = PageContent::info(fetched("http://origin.test/a", status, None, None, None));
        assert!(record.error.is_none());
    }
    let record = PageContent::data(fetched("http://origin.test/a", 300, None, None, None));
    assert_eq!(record.error.unwrap(), "300 Multiple Choices");
}

#[test]
fn transport_failure_keeps_url_and_message() {
    let record = PageContent::error(
        TransportFailure {
            message: "error sending request: dns error".to_string(),
            status: None,
        },
        "http://nowhere.test/".to_string(),
    );

    assert_eq!(record.url, "http://nowhere.test/");
    assert_eq!(record.error.unwrap(), "error sending request: dns error");
    assert!(record.http_code.is_none());
    assert!(record.content_type.is_none());
    assert!(record.content_length.is_none());
    assert!(record.contents.is_none());
}

#[test]
fn content_length_header_parses_like_std() {
    let parsed = |header: &str| {
        PageContent::info(fetched(
            "http://origin.test/a",
            200,
            None,
            Some(header),
            None,
        ))
        .content_length
    };

    assert_eq!(parsed("0"), Some(0));
    assert_eq!(parsed("42"), Some(42));
    assert_eq!(parsed("+42"), Some(42));
    assert_eq!(parsed("007"), Some(7));
    assert_eq!(parsed("18446744073709551615"), Some(u64::MAX));
    assert_eq!(parsed("18446744073709551616"), None);
    assert_eq!(parsed(""), None);
    assert_eq!(parsed("+"), None);
    assert_eq!(parsed("-1"), None);
    assert_eq!(parsed("12a"), None);
    assert_eq!(parsed(" 12"), None);
}

#[test]
fn decoded_length_wins_over_header() {
    let record = PageContent::data(fetched(
        "http://origin.test/a",
        200,
        Some("text/plain"),
        Some("999"),
        Some("four"),
    ));
    assert_eq!(record.content_length.unwrap(), 4);
}

#[test]
fn get_page_wraps_the_target_url() {
    let page = GetPage::new("https://origin.test/x".to_string());
    assert_eq!(page.url(), "https://origin.test/x");
    assert_eq!(page.into_url(), "https://origin.test/x");
}

#[test]
fn body_length_is_counted_in_bytes() {
    let record = PageContent::data(fetched(
        "http://origin.test/a",
        200,
        None,
        None,
        Some("na\u{ef}ve"),
    ));
    assert_eq!(record.content_length.unwrap(), 6);
}
