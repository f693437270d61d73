use filter_rss_feed::fake_http_client::{FakeHttpClient, FakeHttpError, FakeResponse};
use filter_rss_feed::http_client::{
    attach_status, convert_response, tag_response, CacheConfig, HttpClient, HttpClientError,
    HttpRequest, Method,
};
use filter_rss_feed::cache_status::CfCacheStatus;
use http::HeaderMap;

fn get(url: &str) -> HttpRequest {
    HttpRequest { method: Method::Get, url: url.to_string(), headers: HeaderMap::new(), body: Vec::new() }
}

#[test]
fn test_fake_http_client_basic() {
    let client = FakeHttpClient::new()
        .with_json_response("https://example.com/test", br#"{"test": "data"}"#.to_vec());

    let response = client.send(get("https://example.com/test")).unwrap();
    assert_eq!(response.status, 200);
    assert_eq!(response.headers.get("content-type").unwrap(), "application/json");
    assert_eq!(response.body, br#"{"test": "data"}"#.to_vec());
}

#[test]
fn test_fake_http_client_builder_convenience_methods() {
    let client = FakeHttpClient::new()
        .with_json_response("https://example.com/json", br#"{"test": "data"}"#.to_vec())
        .with_xml_response("https://example.com/xml", b"<test>data</test>".to_vec())
        .with_rss_response("https://example.com/rss", b"<rss>data</rss>".to_vec())
        .with_cache_status("HIT");

    let json_response = client.send(get("https://example.com/json")).unwrap();
    assert_eq!(json_response.headers.get("content-type").unwrap(), "application/json");
    assert_eq!(json_response.headers.get("x-rssfilter-cache-status").unwrap(), "HIT");
    assert_eq!(json_response.body, br#"{"test": "data"}"#.to_vec());

    let xml_response = client.send(get("https://example.com/xml")).unwrap();
    assert_eq!(xml_response.headers.get("content-type").unwrap(), "application/xml");
    assert_eq!(xml_response.body, b"<test>data</test>".to_vec());

    let rss_response = client.send(get("https://example.com/rss")).unwrap();
    assert_eq!(rss_response.headers.get("content-type").unwrap(), "application/rss+xml");
    assert_eq!(rss_response.body, b"<rss>data</rss>".to_vec());
}

#[test]
fn test_fake_http_client_error() {
    let client = FakeHttpClient::new().with_network_error("https://example.com/error", "Connection failed");
    let result = client.send(get("https://example.com/error"));
    assert!(result.is_err());
    assert!(matches!(result.unwrap_err(), HttpClientError::Request(_)));
}

#[test]
fn test_fake_http_client_not_found() {
    let client = FakeHttpClient::new();
    let response = client.send(get("https://example.com/nonexistent")).unwrap();
    assert_eq!(response.status, 404);
    assert_eq!(response.body, b"Not Found".to_vec());
    assert_eq!(response.headers.get("x-rssfilter-cache-status").unwrap(), "MISS");
    assert_eq!(response.headers.len(), 1);
}

#[test]
fn test_fake_http_client_with_headers() {
    let fake_response = FakeResponse::new(200, b"test body".to_vec())
        .with_header("x-custom-header", "custom-value")
        .with_content_type("text/plain");

    let client = FakeHttpClient::new().with_response("https://example.com/headers", fake_response);

    let response = client.send(get("https://example.com/headers")).unwrap();
    assert_eq!(response.status, 200);
    assert_eq!(response.headers.get("content-type").unwrap(), "text/plain");
    assert_eq!(response.headers.get("x-custom-header").unwrap(), "custom-value");
    assert_eq!(response.headers.get("x-rssfilter-cache-status").unwrap(), "MISS");
}

#[test]
fn test_fake_response_convenience_methods() {
    let json_response = FakeResponse::json(br#"{"key": "value"}"#.to_vec());
    assert_eq!(json_response.headers.get("content-type").unwrap(), "application/json");
    assert_eq!(json_response.status, 200);

    let xml_response = FakeResponse::xml(b"<root></root>".to_vec());
    assert_eq!(xml_response.headers.get("content-type").unwrap(), "application/xml");

    let rss_response = FakeResponse::feed(b"<rss></rss>".to_vec());
    assert_eq!(rss_response.headers.get("content-type").unwrap(), "application/rss+xml");
    assert_eq!(rss_response.body, b"<rss></rss>".to_vec());
}

#[test]
fn with_header_leaves_full_headers_as_they_were() {
    let mut response = FakeResponse::new(200, Vec::new());
    for i in 0..40000u32 {
        let name = http::HeaderName::from_bytes(format!("h{}", i).as_bytes()).unwrap();
        if response.headers.try_insert(name, http::HeaderValue::from_static("v")).is_err() {
            break;
        }
    }
    let before = response.headers.clone();
    let response = response.with_header("one-more", "v").with_content_type("text/xml");
    assert_eq!(response.headers, before);
}

#[test]
fn with_header_replaces_what_the_name_carried() {
    let response = FakeResponse::new(200, Vec::new())
        .with_header("X-One", "a")
        .with_header("x-one", "b");
    let values: Vec<_> = response.headers.get_all("x-one").iter().collect();
    assert_eq!(values, vec!["b"]);
}

#[test]
fn failure_goes_before_a_response() {
    let client = FakeHttpClient::new()
        .with_status_response("https://example.com/both", 200, b"ok".to_vec())
        .with_timeout_error("https://example.com/both");
    match client.send(get("https://example.com/both")) {
        Err(HttpClientError::Request(message)) => assert_eq!(message, "Request timeout"),
        other => panic!("{:?}", other),
    }
    let client = client.with_status_response("https://example.com/both", 201, b"late".to_vec());
    assert!(client.send(get("https://example.com/both")).is_err());
}

#[test]
fn later_entry_takes_the_place_of_an_earlier_one() {
    let client = FakeHttpClient::new()
        .with_status_response("https://example.com/a", 200, b"first".to_vec())
        .with_status_response("https://example.com/b", 202, b"other".to_vec())
        .with_status_response("https://example.com/a", 201, b"second".to_vec());
    let response = client.send(get("https://example.com/a")).unwrap();
    assert_eq!(response.status, 201);
    assert_eq!(response.body, b"second".to_vec());
    let response = client.send(get("https://example.com/b")).unwrap();
    assert_eq!(response.status, 202);

    let client = FakeHttpClient::new()
        .with_invalid_content_type_error("https://example.com/e")
        .with_network_error("https://example.com/e", "down");
    match client.send(get("https://example.com/e")) {
        Err(HttpClientError::Request(message)) => assert_eq!(message, "down"),
        other => panic!("{:?}", other),
    }
}

#[test]
fn address_is_matched_exactly() {
    let client = FakeHttpClient::new().with_status_response("https://example.com/a", 200, Vec::new());
    assert_eq!(client.send(get("https://example.com/a/")).unwrap().status, 404);
    assert_eq!(client.send(get("https://example.com/A")).unwrap().status, 404);
    assert_eq!(client.send(get("https://example.com/a?x=1")).unwrap().status, 404);
    assert_eq!(client.send(get("https://example.com/a")).unwrap().status, 200);
    assert_eq!(client.respond(&get("https://example.com/a")).unwrap().status, 200);
}

#[test]
fn each_kind_of_failure_has_its_message() {
    let client = FakeHttpClient::default();
    let cases = vec![
        (FakeHttpError::Network { message: "lost".to_string() }, "lost", "Network error: lost"),
        (FakeHttpError::Timeout, "Request timeout", "Timeout error"),
        (FakeHttpError::InvalidContentType, "Invalid content type", "Invalid content type"),
    ];
    for (failure, message, text) in cases {
        assert_eq!(failure.to_string(), text);
        match client.convert_fake_error(&failure) {
            HttpClientError::Request(found) => assert_eq!(found, message),
            other => panic!("{:?}", other),
        }
    }
}

#[test]
fn cache_status_that_is_no_header_value_is_a_header_error() {
    let client = FakeHttpClient::new().with_cache_status("bad\nvalue");
    match client.send(get("https://example.com/x")) {
        Err(HttpClientError::Header(message)) => {
            assert!(message.starts_with("Invalid cache header value: "), "{}", message)
        }
        other => panic!("{:?}", other),
    }
}

#[test]
fn stored_response_is_not_changed_by_an_answer() {
    let client = FakeHttpClient::new()
        .with_json_response("https://example.com/json", b"{}".to_vec());
    let first = client.send(get("https://example.com/json")).unwrap();
    let second = client.send(get("https://example.com/json")).unwrap();
    assert_eq!(first.headers, second.headers);
    assert_eq!(first.headers.get_all("x-rssfilter-cache-status").iter().count(), 1);
}

#[test]
fn test_custom_cache_config() {
    let config = CacheConfig {
        ttl_seconds: 600,
        cache_key_prefix: "test-cache".to_string(),
        status_header_name: "X-Test-Cache".to_string(),
    };
    let response = convert_response(&config, 200, HeaderMap::new(), Vec::new()).unwrap();
    assert_eq!(response.status, 200);
    assert_eq!(response.headers.get("X-Test-Cache").unwrap(), "MISS");
}

#[test]
fn test_reqwest_client_get() {
    let mut upstream = HeaderMap::new();
    upstream.insert("content-type", "application/json".parse().unwrap());
    let response =
        convert_response(&CacheConfig::default(), 200, upstream, br#"{"status": "ok"}"#.to_vec())
            .unwrap();
    assert_eq!(response.status, 200);
    assert_eq!(response.headers.get("x-rssfilter-cache-status").unwrap(), "MISS");
    assert_eq!(response.headers.get("content-type").unwrap(), "application/json");
    assert_eq!(response.body, br#"{"status": "ok"}"#.to_vec());
}

#[test]
fn status_is_added_behind_what_upstream_sent_under_the_name() {
    let mut upstream = HeaderMap::new();
    upstream.insert("x-rssfilter-cache-status", "UPSTREAM".parse().unwrap());
    let response = tag_response(
        &CacheConfig::default(),
        203,
        upstream,
        b"body".to_vec(),
        &CfCacheStatus::Expired,
    )
    .unwrap();
    let values: Vec<_> = response.headers.get_all("x-rssfilter-cache-status").iter().collect();
    assert_eq!(values, vec!["UPSTREAM", "EXPIRED"]);
    assert_eq!(response.status, 203);
    assert_eq!(response.body, b"body".to_vec());
}

#[test]
fn status_header_name_that_is_none_is_a_header_error() {
    let config = CacheConfig {
        ttl_seconds: 1,
        cache_key_prefix: String::new(),
        status_header_name: "not a name".to_string(),
    };
    match convert_response(&config, 200, HeaderMap::new(), Vec::new()) {
        Err(HttpClientError::Header(message)) => {
            assert_eq!(message, "Invalid cache header name: invalid HTTP header name")
        }
        other => panic!("{:?}", other),
    }
    assert!(matches!(
        attach_status("", 200, HeaderMap::new(), Vec::new(), "HIT"),
        Err(HttpClientError::Header(_))
    ));
}

#[test]
fn status_text_that_is_no_value_is_a_header_error() {
    match tag_response(
        &CacheConfig::default(),
        200,
        HeaderMap::new(),
        Vec::new(),
        &CfCacheStatus::Other("a\rb".to_string()),
    ) {
        Err(HttpClientError::Header(message)) => {
            assert_eq!(message, "Invalid cache header value: failed to parse header value")
        }
        other => panic!("{:?}", other),
    }
}

#[test]
fn client_error_says_its_kind_and_its_message() {
    assert_eq!(HttpClientError::Request("a".to_string()).to_string(), "Request failed: a");
    assert_eq!(HttpClientError::Cache("b".to_string()).to_string(), "Cache error: b");
    assert_eq!(HttpClientError::Header("c".to_string()).to_string(), "Header conversion error: c");
    assert_eq!(HttpClientError::Body("d".to_string()).to_string(), "Body conversion error: d");
}

#[test]
fn method_is_written_as_its_token() {
    let cases = vec![
        (Method::Get, "GET"),
        (Method::Post, "POST"),
        (Method::Put, "PUT"),
        (Method::Delete, "DELETE"),
        (Method::Head, "HEAD"),
        (Method::Options, "OPTIONS"),
        (Method::Patch, "PATCH"),
        (Method::Connect, "CONNECT"),
        (Method::Trace, "TRACE"),
        (Method::Extension("PURGE".to_string()), "PURGE"),
    ];
    for (method, token) in cases {
        assert_eq!(method.as_str(), token);
    }
}

#[test]
fn full_headers_are_a_body_error_with_the_reason() {
    let mut headers = HeaderMap::new();
    let mut failed = None;
    for i in 0..40000u32 {
        let name = http::HeaderName::from_bytes(format!("h{}", i).as_bytes()).unwrap();
        if headers.try_insert(name, http::HeaderValue::from_static("v")).is_err() {
            failed = Some(i);
            break;
        }
    }
    assert!(failed.is_some());
    match attach_status("x-cache", 200, headers, Vec::new(), "HIT") {
        Err(HttpClientError::Body(message)) => {
            assert_eq!(message, "Failed to build response: max size reached")
        }
        other => panic!("{:?}", other.map(|r| r.status)),
    }
}

#[test]
fn name_goes_before_value_in_the_reason() {
    match attach_status("bad name", 200, HeaderMap::new(), Vec::new(), "bad\nvalue") {
        Err(HttpClientError::Header(message)) => {
            assert_eq!(message, "Invalid cache header name: invalid HTTP header name")
        }
        other => panic!("{:?}", other.map(|r| r.status)),
    }
}
