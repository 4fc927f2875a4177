//! The full per-request pipeline: URL validation, mode handling, response
//! shaping, and header enrichment, driven with simulated fetch outcomes.

use all_origins_rust::page_types::{FetchOutcome, FetchedResponse, TransportFailure};
use all_origins_rust::response::ProxyResponse;
use all_origins_rust::server::{
    check_empty_url, get_handler, handle_fetched, info_handler, not_found_response, raw_handler,
    route, InboundHeaders, ProxyMode, QueryParams,
};
use serde_json::Value;

fn ok_outcome(url: &str, status: u16, content_type: Option<&str>, body: &str) -> FetchOutcome {
    FetchOutcome::Fetched(FetchedResponse {
        url: url.to_string(),
        status,
        content_type: content_type.map(|s| s.to_string()),
        content_length: None,
        body: Some(body.to_string()),
    })
}

fn no_headers() -> InboundHeaders {
    InboundHeaders {
        cache_control: None,
        origin: None,
    }
}

fn header<'a>(response: &'a ProxyResponse, name: &str) -> Option<&'a str> {
    response
        .headers
        .iter()
        .find(|(n, _)| n.as_str() == name)
        .map(|(_, v)| v.as_str())
}

fn parse_body(response: &ProxyResponse) -> Value {
    serde_json::from_str(response.body.as_str()).expect("Failed to parse JSON response")
}

#[test]
fn test_basic_get_request() {
    let example_uri = "http://origin.test";
    let url = format!("{example_uri}/test.html");
    let outcome = ok_outcome(&url, 200, Some("text/example"), "Hi, allOrigins!");

    let response = get_handler(url.clone(), outcome, 5, None, &no_headers());

    assert_eq!(response.status, 200);
    assert_eq!(header(&response, "content-type"), Some("application/json"));

    let response_body = parse_body(&response);
    assert_eq!(response_body["content_length"].as_i64(), Some(15));
    assert_eq!(response_body["content_type"].as_str(), Some("text/example"));
    assert_eq!(response_body["contents"].as_str(), Some("Hi, allOrigins!"));
    assert_eq!(response_body["http_code"].as_i64(), Some(200));
    assert!(response_body["response_time"].as_i64().unwrap() > 0);
    assert_eq!(
        response_body["url"].as_str(),
        Some(format!("{example_uri}/test.html").as_str())
    );
    assert!(response_body["error"].is_null());
}

#[test]
fn test_post_to_get_endpoint() {
    let example_uri = "http://origin.test";
    let url = format!("{example_uri}/test.html");
    let outcome = ok_outcome(&url, 201, Some("text/plain"), "Hi, allOrigins! It's a POST!");

    let response = get_handler(url.clone(), outcome, 5, None, &no_headers());

    assert_eq!(response.status, 200);

    let response_body = parse_body(&response);
    assert_eq!(response_body["content_length"].as_i64(), Some(28));
    assert_eq!(response_body["content_type"].as_str(), Some("text/plain"));
    assert_eq!(
        response_body["contents"].as_str(),
        Some("Hi, allOrigins! It's a POST!")
    );
    assert_eq!(response_body["http_code"].as_i64(), Some(201));
    assert!(response_body["response_time"].as_i64().unwrap() > 0);
    assert_eq!(
        response_body["url"].as_str(),
        Some(format!("{example_uri}/test.html").as_str())
    );
    assert!(response_body["error"].is_null());
}

#[test]
fn test_get_request_to_not_found_url() {
    let example_uri = "http://origin.test";
    let url = format!("{example_uri}/not-found.html");
    let outcome = ok_outcome(&url, 404, None, "");

    let response = get_handler(url.clone(), outcome, 5, None, &no_headers());

    assert_eq!(response.status, 200);

    let response_body = parse_body(&response);
    assert_eq!(response_body["content_length"].as_i64(), None);
    assert!(response_body["content_type"].is_null());
    assert_eq!(response_body["contents"].as_str(), None);
    assert_eq!(response_body["http_code"].as_i64(), Some(404));
    assert!(response_body["response_time"].as_i64().unwrap() > 0);
    assert_eq!(
        response_body["url"].as_str(),
        Some(format!("{example_uri}/not-found.html").as_str())
    );
    assert_eq!(response_body["error"].as_str(), Some("404 Not Found"));
}

#[test]
fn test_raw_request() {
    let url = "http://origin.test/test.html".to_string();
    let outcome = ok_outcome(&url, 200, Some("text/example"), "Hi, allOrigins!");

    let response = raw_handler(url, outcome, 5, None, &no_headers());

    assert_eq!(response.status, 200);
    assert_eq!(header(&response, "content-length"), Some("15"));
    assert_eq!(header(&response, "content-type"), Some("text/example"));
    assert_eq!(response.body, "Hi, allOrigins!");
}

#[test]
fn raw_request_to_error_should_return_json_structure() {
    let example_uri = "http://origin.test";
    let url = format!("{example_uri}/not-found.html");
    let outcome = ok_outcome(&url, 404, None, "");

    let response = raw_handler(url.clone(), outcome, 5, None, &no_headers());

    assert_eq!(response.status, 200);
    assert_eq!(header(&response, "content-type"), Some("application/json"));

    let response_body = parse_body(&response);
    assert_eq!(response_body["content_length"].as_i64(), None);
    assert!(response_body["content_type"].is_null());
    assert_eq!(response_body["contents"].as_str(), None);
    assert_eq!(response_body["http_code"].as_i64(), Some(404));
    assert!(response_body["response_time"].as_i64().unwrap() > 0);
    assert_eq!(
        response_body["url"].as_str(),
        Some(format!("{example_uri}/not-found.html").as_str())
    );
    assert_eq!(response_body["error"].as_str(), Some("404 Not Found"));
}

#[test]
fn test_info_request() {
    let example_uri = "http://origin.test";
    let url = format!("{example_uri}/test.html");
    let outcome = FetchOutcome::Fetched(FetchedResponse {
        url: url.clone(),
        status: 204,
        content_type: Some("text/html".to_string()),
        content_length: Some("invalid".to_string()),
        body: None,
    });

    let response = info_handler(url.clone(), outcome, 5, None, &no_headers());

    assert_eq!(response.status, 200);

    let response_body = parse_body(&response);
    assert!(response_body["content_length"].is_null());
    assert_eq!(response_body["content_type"].as_str(), Some("text/html"));
    assert!(response_body["contents"].is_null());
    assert_eq!(response_body["http_code"].as_i64(), Some(204));
    assert!(response_body["response_time"].as_i64().unwrap() > 0);
    assert_eq!(
        response_body["url"].as_str(),
        Some(format!("{example_uri}/test.html").as_str())
    );
}

#[test]
fn test_options_request() {
    let url = "http://origin.test/test.html".to_string();
    let random_origin = "https://0.8444218515250481/random".to_string();
    let outcome = ok_outcome(&url, 404, None, "");
    let inbound = InboundHeaders {
        cache_control: None,
        origin: Some(random_origin.clone()),
    };

    let response = get_handler(url, outcome, 5, None, &inbound);

    assert_eq!(response.status, 200);
    assert_eq!(
        header(&response, "access-control-allow-origin"),
        Some(random_origin.as_str())
    );
    assert_eq!(
        header(&response, "access-control-allow-methods"),
        Some("OPTIONS, GET, POST, PATCH, PUT, DELETE")
    );

    let response_body = parse_body(&response);
    assert_eq!(response_body["error"].as_str(), Some("404 Not Found"));
}

#[test]
fn test_ignore_other_requests() {
    assert!(route("/favicon.ico").is_none());

    let response = not_found_response();
    assert_eq!(response.status, 404);
    assert_eq!(response.body.len(), 0);
    assert!(response.headers.is_empty());
}

#[test]
fn test_support_cache_header() {
    let example_uri = "http://origin.test";
    let url = format!("{example_uri}/test.html");
    let outcome = ok_outcome(&url, 200, Some("text/example"), "Hi, allOrigins!");
    let inbound = InboundHeaders {
        cache_control: Some("public, max-age=300".to_string()),
        origin: None,
    };

    let response = get_handler(url.clone(), outcome, 5, None, &inbound);

    assert_eq!(response.status, 200);

    let response_body = parse_body(&response);
    assert_eq!(response_body["content_length"].as_i64(), Some(15));
    assert_eq!(response_body["content_type"].as_str(), Some("text/example"));
    assert_eq!(response_body["contents"].as_str(), Some("Hi, allOrigins!"));
    assert_eq!(response_body["http_code"].as_i64(), Some(200));
    assert!(response_body["response_time"].as_i64().unwrap() > 0);
    assert_eq!(
        response_body["url"].as_str(),
        Some(format!("{example_uri}/test.html").as_str())
    );
    assert!(response_body["error"].is_null());

    assert_eq!(
        header(&response, "cache-control"),
        Some("public, max-age=300")
    );
}

#[test]
fn supplying_charset_should_add_it_to_content_type() {
    let url = "http://origin.test/test.html".to_string();
    let outcome = ok_outcome(&url, 200, Some("text/example"), "Hi, allOrigins!");

    let response = get_handler(url, outcome, 5, Some("UTF-8".to_string()), &no_headers());

    assert_eq!(response.status, 200);
    assert_eq!(
        header(&response, "content-type"),
        Some("application/json; charset=UTF-8")
    );
}

#[test]
fn not_supplying_url_is_an_error() {
    let query = QueryParams {
        url: None,
        charset: None,
    };

    let response = check_empty_url(&query).expect("a missing url must short-circuit");

    assert_eq!(response.status, 400);
    assert_eq!(header(&response, "content-type"), Some("text/plain"));
    assert_eq!(response.body, "No 'url' query parameter");
    assert_eq!(response.headers.len(), 1);
}

#[test]
fn url_present_passes_the_check() {
    let query = QueryParams {
        url: Some("http://origin.test/".to_string()),
        charset: Some("UTF-8".to_string()),
    };
    assert!(check_empty_url(&query).is_none());
}

#[test]
fn routing_matches_the_three_paths() {
    assert!(matches!(route("/info"), Some(ProxyMode::Info)));
    assert!(matches!(route("/get"), Some(ProxyMode::Get)));
    assert!(matches!(route("/raw"), Some(ProxyMode::Raw)));
    assert!(matches!(route("/info/extra"), Some(ProxyMode::Info)));
    assert!(route("/").is_none());
    assert!(route("").is_none());
    assert!(route("/rawr").is_none());
    assert!(route("/INFO").is_none());
}

#[test]
fn absent_origin_allows_any() {
    let url = "http://origin.test/a".to_string();
    let outcome = ok_outcome(&url, 200, None, "x");

    let response = get_handler(url, outcome, 5, None, &no_headers());

    assert_eq!(header(&response, "access-control-allow-origin"), Some("*"));
    assert_eq!(
        header(&response, "access-control-allow-credentials"),
        Some("true")
    );
    assert_eq!(
        header(&response, "access-control-allow-headers"),
        Some("Origin, X-Requested-With, Content-Type, Accept, Cache-Control")
    );
    assert_eq!(header(&response, "via"), Some("all_origins_rust"));
}

#[test]
fn raw_failure_equals_get_shape() {
    let url = "http://origin.test/missing".to_string();
    let inbound = no_headers();

    let raw = raw_handler(
        url.clone(),
        ok_outcome(&url, 503, None, ""),
        7,
        None,
        &inbound,
    );
    let get = get_handler(
        url.clone(),
        ok_outcome(&url, 503, None, ""),
        7,
        None,
        &inbound,
    );

    assert_eq!(raw.status, get.status);
    assert_eq!(raw.headers, get.headers);
    assert_eq!(raw.body, get.body);
}

#[test]
fn raw_success_with_empty_body_sends_nothing() {
    let url = "http://origin.test/empty".to_string();
    let outcome = ok_outcome(&url, 204, None, "");

    let response = raw_handler(url, outcome, 5, Some("UTF-8".to_string()), &no_headers());

    assert_eq!(response.status, 200);
    assert_eq!(response.body, "");
    assert_eq!(header(&response, "content-length"), None);
    // With no content type on the response, the charset request is dropped.
    assert_eq!(header(&response, "content-type"), None);
}

#[test]
fn transport_failure_fills_error_and_echoes_url() {
    let url = "http://nowhere.test/".to_string();
    let outcome = FetchOutcome::Failed(TransportFailure {
        message: "connection refused".to_string(),
        status: None,
    });

    let response = handle_fetched(ProxyMode::Get, url.clone(), outcome, 9, None, &no_headers());

    assert_eq!(response.status, 200);
    let response_body = parse_body(&response);
    assert_eq!(response_body["error"].as_str(), Some("connection refused"));
    assert!(response_body["http_code"].is_null());
    assert_eq!(response_body["url"].as_str(), Some("http://nowhere.test/"));
    assert_eq!(response_body["response_time"].as_i64(), Some(9));
}
