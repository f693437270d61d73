use filter_rss_feed::filter::RssError;
use filter_rss_feed::fake_http_client::{FakeHttpClient, FakeResponse};
use filter_rss_feed::handler::{
    conclude, decode_and_compile_regex, find_feed_url, join_sources, plain_text_response,
    plan_request, read_parameters, rss_handler,
    validate_pairs, validate_parameters, validate_query, validate_request, ProcessingError,
    RequestValidationError, RssHandlerError, ValidationError, BAD_GATEWAY, BAD_REQUEST,
    INTERNAL_SERVER_ERROR, METHOD_NOT_ALLOWED, NOT_FOUND, PAYLOAD_TOO_LARGE,
    UNSUPPORTED_MEDIA_TYPE,
};
use filter_rss_feed::http_client::{
    HttpClient, HttpClientError, HttpRequest, HttpResponse, Method,
};
use filter_rss_feed::telemetry::TracingError;
use filter_rss_feed::test_request_builder::RequestBuilder;
use url::Url;

struct Mirror;

impl HttpClient for Mirror {
    fn send(&self, request: HttpRequest) -> Result<HttpResponse, HttpClientError> {
        let body = format!("{} {}", request.method.as_str(), request.url).into_bytes();
        Ok(HttpResponse { status: 307, headers: request.headers, body })
    }
}

fn pairs(items: &[(&str, &str)]) -> Vec<(String, String)> {
    items.iter().map(|(k, v)| (k.to_string(), v.to_string())).collect()
}

#[test]
fn test_parameter_validation_no_params() {
    let url: Url = "https://test.example.com/".parse().unwrap();
    let result = validate_parameters(&url);
    assert!(result.is_err());
    assert!(matches!(result.unwrap_err(), ValidationError::NoParametersProvided));
}

#[test]
fn test_parameter_validation_no_url() {
    let url: Url = "https://test.example.com/?title_filter_regex=test".parse().unwrap();
    let result = validate_parameters(&url);
    assert!(result.is_err());
    assert!(matches!(result.unwrap_err(), ValidationError::NoUrlProvided));
}

#[test]
fn test_parameter_validation_no_filters() {
    let url: Url = "https://test.example.com/?url=http://example.com/rss".parse().unwrap();
    let result = validate_parameters(&url);
    assert!(result.is_err());
    assert!(matches!(result.unwrap_err(), ValidationError::NoFiltersProvided));
}

#[test]
fn test_parameter_validation_invalid_regex() {
    let url: Url =
        "https://test.example.com/?url=http://example.com/rss&title_filter_regex=[invalid"
            .parse()
            .unwrap();
    let result = validate_parameters(&url);
    assert!(result.is_err());
    assert!(matches!(result.unwrap_err(), ValidationError::InvalidRegex { .. }));
}

#[test]
fn test_parameter_validation_success() {
    let url: Url = "https://test.example.com/?url=http://example.com/rss&title_filter_regex=test"
        .parse()
        .unwrap();
    let result = validate_parameters(&url);
    assert!(result.is_ok());
    let params = result.unwrap();
    assert_eq!(params.url, "http://example.com/rss");
    assert_eq!(params.regex_params.title_regexes.len(), 1);
}

#[test]
fn test_parameter_validation_multiple_regexes() {
    let url: Url = "https://test.example.com/?url=http://example.com/rss&title_filter_regex=test1&title_filter_regex=test2&guid_filter_regex=guid".parse().unwrap();
    let result = validate_parameters(&url);
    assert!(result.is_ok());
    let params = result.unwrap();
    assert_eq!(params.regex_params.title_regexes.len(), 2);
    assert_eq!(params.regex_params.guid_regexes.len(), 1);
    assert_eq!(params.regex_params.link_regexes.len(), 0);
    assert_eq!(params.regex_params.title_regexes[0].as_str(), "test1");
    assert_eq!(params.regex_params.title_regexes[1].as_str(), "test2");
    let filter = params.regex_params.filter_regexes();
    assert_eq!(filter.title_regexes.len(), 2);
    assert_eq!(filter.guid_regexes[0].as_str(), "guid");
    assert!(filter.link_regexes.is_empty());
}

#[test]
fn test_url_encoding_in_parameters() {
    let url: Url =
        "https://test.example.com/?url=http%3A//example.com/rss&title_filter_regex=Test%20Item"
            .parse()
            .unwrap();
    let result = validate_parameters(&url);
    assert!(result.is_ok());
    let params = result.unwrap();
    assert_eq!(params.url, "http://example.com/rss");
    assert_eq!(params.regex_params.title_regexes[0].as_str(), "Test Item");
}

#[test]
fn test_no_query_params() {
    assert!(matches!(
        read_parameters("https://test.example.com/"),
        Err(ValidationError::NoParametersProvided)
    ));
}

#[test]
fn test_no_url_param() {
    assert!(matches!(
        read_parameters("https://test.example.com/?title_filter_regex=.*"),
        Err(ValidationError::NoUrlProvided)
    ));
}

#[test]
fn test_no_filters() {
    assert!(matches!(
        read_parameters("https://test.example.com/?url=http%3A%2F%2Fexample.com%2Frss"),
        Err(ValidationError::NoFiltersProvided)
    ));
}

#[test]
fn test_invalid_regex() {
    let error = read_parameters(
        "https://test.example.com/?url=http%3A%2F%2Fexample.com%2Frss&title_filter_regex=%5Binvalid%20regex",
    )
    .unwrap_err();
    assert!(matches!(error, ValidationError::InvalidRegex { name: "title_filter_regex", .. }));
    let response = RssHandlerError::Validation(error).to_response();
    assert_eq!(response.status, BAD_REQUEST);
}

#[test]
fn address_that_is_no_url_is_refused() {
    let error = read_parameters("/relative?url=a&title_filter_regex=b").unwrap_err();
    assert!(matches!(error, ValidationError::UrlParseError { .. }));
    assert_eq!(
        error.to_string(),
        "The provided URL is malformed: relative URL without a base"
    );
}

#[test]
fn value_is_decoded_a_second_time() {
    let params = validate_pairs(&pairs(&[("url", "u"), ("link_filter_regex", "a%2Eb")])).unwrap();
    assert_eq!(params.regex_params.link_regexes[0].as_str(), "a.b");
    assert_eq!(params.url, "u");
    let params = validate_pairs(&pairs(&[("url", "a%2Eb"), ("guid_filter_regex", "x")])).unwrap();
    assert_eq!(params.url, "a%2Eb");
}

#[test]
fn value_that_decodes_to_no_text_is_malformed() {
    let error = validate_pairs(&pairs(&[("url", "u"), ("guid_filter_regex", "%FF%FE")])).unwrap_err();
    assert!(matches!(error, ValidationError::MalformedParameter { name: "guid_filter_regex", .. }));
    assert!(
        error.to_string().starts_with("the parameter guid_filter_regex could not be decoded: "),
        "{}",
        error.to_string()
    );
}

#[test]
fn first_value_that_fails_decides() {
    let error = validate_pairs(&pairs(&[
        ("link_filter_regex", "[bad"),
        ("guid_filter_regex", "%FF"),
        ("title_filter_regex", "ok"),
        ("title_filter_regex", "[bad"),
        ("title_filter_regex", "%FF"),
    ]))
    .unwrap_err();
    assert!(matches!(error, ValidationError::InvalidRegex { name: "title_filter_regex", .. }));

    let error = validate_pairs(&pairs(&[
        ("link_filter_regex", "[bad"),
        ("guid_filter_regex", "%FF"),
        ("title_filter_regex", "ok"),
    ]))
    .unwrap_err();
    assert!(matches!(error, ValidationError::MalformedParameter { name: "guid_filter_regex", .. }));

    let error = validate_pairs(&pairs(&[("link_filter_regex", "%FF"), ("link_filter_regex", "[bad")]))
        .unwrap_err();
    assert!(matches!(error, ValidationError::MalformedParameter { name: "link_filter_regex", .. }));
}

#[test]
fn failing_value_goes_before_a_missing_url() {
    let error = validate_pairs(&pairs(&[("title_filter_regex", "(")])).unwrap_err();
    assert!(matches!(error, ValidationError::InvalidRegex { .. }));
    assert!(
        error.to_string().starts_with("the regex for title_filter_regex is invalid: "),
        "{}",
        error.to_string()
    );
}

#[test]
fn first_url_counts() {
    let all = pairs(&[("other", "x"), ("url", "first"), ("url", "second")]);
    assert_eq!(find_feed_url(&all), Some("first".to_string()));
    assert_eq!(find_feed_url(&pairs(&[("URL", "x")])), None);
    assert_eq!(find_feed_url(&Vec::new()), None);
}

#[test]
fn values_of_one_key_are_compiled_in_their_order() {
    let all = pairs(&[("a", "1"), ("b", "[bad"), ("a", "2"), ("a", "3")]);
    let patterns = decode_and_compile_regex(&all, "a").unwrap();
    let sources: Vec<&str> = patterns.iter().map(|p| p.as_str()).collect();
    assert_eq!(sources, vec!["1", "2", "3"]);
    assert!(decode_and_compile_regex(&all, "c").unwrap().is_empty());
    assert!(decode_and_compile_regex(&all, "b").is_err());
}

#[test]
fn lib_test_404() {
    let error = validate_request("/favicon.ico", &Method::Get)
        .expect_err("Expected request validation to fail");
    assert_eq!(error, RequestValidationError::NotFound);
}

#[test]
fn main_test_404() {
    let error = validate_request("/favicon.ico", &Method::Get).unwrap_err();
    assert_eq!(error.status_code(), NOT_FOUND);
    assert_eq!(error.to_response().status, 404);
}

#[test]
fn test_validate_request_function() {
    assert!(validate_request("/", &Method::Get).is_ok());
    assert_eq!(validate_request("/wrong", &Method::Get), Err(RequestValidationError::NotFound));
    assert_eq!(
        validate_request("/", &Method::Post),
        Err(RequestValidationError::MethodNotAllowed)
    );
    assert_eq!(validate_request("/wrong", &Method::Post), Err(RequestValidationError::NotFound));
    assert_eq!(validate_request("", &Method::Get), Err(RequestValidationError::NotFound));
}

#[test]
fn test_validate_request_not_found_integration() {
    let response = validate_request("/nonexistent", &Method::Get).unwrap_err().to_response();
    assert_eq!(response.status, NOT_FOUND);
    assert_eq!(std::str::from_utf8(&response.body).unwrap(), "Not Found");
}

#[test]
fn test_validate_request_method_not_allowed() {
    let methods = vec![
        Method::Post,
        Method::Put,
        Method::Delete,
        Method::Patch,
        Method::Head,
        Method::Options,
        Method::Connect,
        Method::Trace,
        Method::Extension("GET ".to_string()),
    ];
    for method in methods {
        let response = validate_request("/", &method).unwrap_err().to_response();
        assert_eq!(response.status, METHOD_NOT_ALLOWED);
    }
}

#[test]
fn test_validate_request_various_wrong_paths() {
    for path in ["/favicon.ico", "/robots.txt", "/api/v1/something", "/health", "/status", "/.well-known/something"] {
        let response = validate_request(path, &Method::Get).unwrap_err().to_response();
        assert_eq!(response.status, NOT_FOUND, "Expected 404 for path: {path}");
    }
}

#[test]
fn test_validate_request_content_type_header() {
    let response = validate_request("/", &Method::Post).unwrap_err().to_response();
    assert_eq!(response.status, METHOD_NOT_ALLOWED);
    assert_eq!(response.headers.get("content-type").unwrap(), "text/plain");
    assert_eq!(response.headers.len(), 1);
}

#[test]
fn test_validate_request_successful_validation() {
    assert!(validate_request("/", &Method::Get).is_ok());
    let error = read_parameters("https://test.example.com/").unwrap_err();
    let response = RssHandlerError::Validation(error).to_response();
    assert_eq!(response.status, BAD_REQUEST);
}

#[test]
fn test_error_status_mapping_bad_request() {
    let error = RssHandlerError::Validation(read_parameters("https://test.example.com/").unwrap_err());
    assert_eq!(error.to_response().status, BAD_REQUEST);
}

#[test]
fn test_error_status_mapping_bad_gateway() {
    let error = RssHandlerError::Processing(ProcessingError::Rss(RssError::HttpClient(
        HttpClientError::Request("Request failed: connection refused".to_string()),
    )));
    assert_eq!(error.to_response().status, BAD_GATEWAY);
}

#[test]
fn test_error_conversion() {
    let error = RssHandlerError::Validation(ValidationError::NoParametersProvided);
    let response = error.to_response();
    assert_eq!(response.status, BAD_REQUEST);

    let error = RssHandlerError::Processing(ProcessingError::Rss(RssError::FeedTooLarge {
        max_size: 1024 * 1024,
    }));
    let response = error.to_response();
    assert_eq!(response.status, PAYLOAD_TOO_LARGE);

    let error = RssHandlerError::Processing(ProcessingError::Rss(RssError::InvalidContentType {
        content_type: "text/html".to_string(),
    }));
    let response = error.to_response();
    assert_eq!(response.status, UNSUPPORTED_MEDIA_TYPE);
}

#[test]
fn test_request_validation_error_conversion() {
    let error = RequestValidationError::NotFound;
    let response = error.to_response();
    assert_eq!(response.status, NOT_FOUND);
    assert_eq!(std::str::from_utf8(&response.body).unwrap(), "Not Found");

    let error = RequestValidationError::MethodNotAllowed;
    let response = error.to_response();
    assert_eq!(response.status, METHOD_NOT_ALLOWED);
    assert_eq!(std::str::from_utf8(&response.body).unwrap(), "Method Not Allowed");
}

#[test]
fn each_error_has_its_status() {
    assert_eq!(
        (BAD_GATEWAY, BAD_REQUEST, INTERNAL_SERVER_ERROR, NOT_FOUND),
        (502, 400, 500, 404)
    );
    assert_eq!((METHOD_NOT_ALLOWED, PAYLOAD_TOO_LARGE, UNSUPPORTED_MEDIA_TYPE), (405, 413, 415));

    let parse_error = || rss::Channel::read_from(&b"<html/>"[..]).unwrap_err();
    let cases = vec![
        (RssHandlerError::Processing(ProcessingError::Rss(RssError::RSSParse(parse_error()))), 400),
        (RssHandlerError::Processing(ProcessingError::Rss(RssError::Serialize(parse_error()))), 500),
        (
            RssHandlerError::Processing(ProcessingError::Rss(RssError::IO(std::io::Error::other("io")))),
            500,
        ),
        (
            RssHandlerError::Processing(ProcessingError::Rss(RssError::UTF8(
                String::from_utf8(vec![0xFF]).unwrap_err(),
            ))),
            500,
        ),
        (
            RssHandlerError::Processing(ProcessingError::Rss(RssError::Http(
                http::Request::builder().uri("a b").body(()).unwrap_err(),
            ))),
            502,
        ),
        (
            RssHandlerError::Processing(ProcessingError::RequestBuild {
                source: http::Request::builder().uri("a b").body(()).unwrap_err(),
            }),
            502,
        ),
        (RssHandlerError::Worker("platform".to_string()), 500),
        (RssHandlerError::Tracing(TracingError::OtlpError("x".to_string())), 500),
        (RssHandlerError::Validation(ValidationError::NoUrlProvided), 400),
    ];
    for (error, status) in cases {
        assert_eq!(error.status_code(), status, "{:?}", error);
        let response = error.to_response();
        assert_eq!(response.status, status);
        assert_eq!(response.headers.get("content-type").unwrap(), "text/plain");
        assert_eq!(response.body, error.to_string().into_bytes());
    }
}

#[test]
fn each_error_says_what_it_is() {
    assert_eq!(
        RssHandlerError::Validation(ValidationError::NoParametersProvided).to_string(),
        "Request validation failed: A url and at least one of title_filter_regex, guid_filter_regex, or link_filter_regex must be provided"
    );
    assert_eq!(
        ValidationError::NoFiltersProvided.to_string(),
        "At least one of title_filter_regex, guid_filter_regex, or link_filter_regex must be provided"
    );
    assert_eq!(ValidationError::NoUrlProvided.to_string(), "A URL must be provided");
    assert_eq!(
        RssHandlerError::Processing(ProcessingError::Rss(RssError::FeedTooLarge { max_size: 5 }))
            .to_string(),
        "RSS processing failed: RSS processing failed: RSS feed is too large (max 5 bytes)"
    );
    assert_eq!(RssHandlerError::Worker("w".to_string()).to_string(), "Worker error: w");
    assert_eq!(
        RssHandlerError::Tracing(TracingError::OtlpError("t".to_string())).to_string(),
        "Tracing error: OTLP error: t"
    );
    let source = http::Request::builder().uri("a b").body(()).unwrap_err();
    let text = source.to_string();
    assert_eq!(
        ProcessingError::RequestBuild { source }.to_string(),
        format!("HTTP request building failed: {}", text)
    );
}

#[test]
fn plain_text_response_has_one_header() {
    let response = plain_text_response(418, "caf\u{e9}");
    assert_eq!(response.status, 418);
    assert_eq!(response.body, "caf\u{e9}".as_bytes().to_vec());
    assert_eq!(response.headers.len(), 1);
    assert_eq!(response.headers.get("content-type").unwrap(), "text/plain");
}

#[test]
fn url_is_decoded_where_that_is_asked_for() {
    let all = pairs(&[("url", "http%3A//example.com/a%20b"), ("title_filter_regex", "x")]);
    let params = validate_query(&all, true).unwrap();
    assert_eq!(params.url, "http://example.com/a b");
    let params = validate_query(&all, false).unwrap();
    assert_eq!(params.url, "http%3A//example.com/a%20b");

    let bad = pairs(&[("url", "%FF"), ("title_filter_regex", "x")]);
    assert!(matches!(
        validate_query(&bad, true),
        Err(ValidationError::MalformedParameter { name: "url", .. })
    ));
    assert!(validate_query(&bad, false).is_ok());

    let both = pairs(&[("url", "%FF"), ("link_filter_regex", "(")]);
    assert!(matches!(validate_query(&both, true), Err(ValidationError::InvalidRegex { .. })));
    let no_filter = pairs(&[("url", "%FF")]);
    assert!(matches!(
        validate_query(&no_filter, true),
        Err(ValidationError::MalformedParameter { name: "url", .. })
    ));
}

#[test]
fn handler_fetches_and_filters() {
    let feed = rss::ChannelBuilder::default()
        .title("Test RSS Feed")
        .link("http://www.example.com/")
        .description("This is a test RSS feed")
        .items(vec![
            rss::ItemBuilder::default().title("Test Item 1".to_string()).build(),
            rss::ItemBuilder::default().title("Test Item 2".to_string()).build(),
        ])
        .build()
        .write_to(Vec::new())
        .unwrap();
    let client = FakeHttpClient::new()
        .with_response("http://example.com/rss", FakeResponse::feed(feed));
    let fixed = vec![("accept".to_string(), "application/rss+xml".to_string())];
    let mut headers = http::HeaderMap::new();
    headers.insert("host", "test.example.com".parse().unwrap());
    let response = rss_handler(
        "https://test.example.com/?url=http://example.com/rss&title_filter_regex=Item%201",
        headers,
        &fixed,
        client,
    )
    .unwrap();
    assert_eq!(response.status, 200);
    let body = String::from_utf8(response.body).unwrap();
    assert!(body.contains("Test Item 2"));
    assert!(!body.contains("Test Item 1"));
}

#[test]
fn handler_hands_the_filtered_headers_to_the_transport() {
    let fixed = vec![
        ("accept".to_string(), "application/rss+xml".to_string()),
        ("user-agent".to_string(), "agent".to_string()),
    ];
    let mut headers = http::HeaderMap::new();
    headers.insert("host", "test.example.com".parse().unwrap());
    headers.insert("x-secret", "1".parse().unwrap());
    headers.insert("accept", "text/html".parse().unwrap());
    headers.insert("my-test-header", "value".parse().unwrap());
    let response = rss_handler(
        "https://test.example.com/?url=http://example.com/rss&guid_filter_regex=1",
        headers,
        &fixed,
        Mirror,
    )
    .unwrap();
    assert_eq!(response.status, 307);
    assert_eq!(response.body, b"GET http://example.com/rss".to_vec());
    let mut wanted = http::HeaderMap::new();
    wanted.insert("my-test-header", "value".parse().unwrap());
    wanted.insert("accept", "application/rss+xml".parse().unwrap());
    wanted.insert("user-agent", "agent".parse().unwrap());
    assert_eq!(response.headers, wanted);
}

#[test]
fn handler_refuses_before_it_fetches() {
    let no_fixed = Vec::new();
    let result = rss_handler("https://test.example.com/", http::HeaderMap::new(), &no_fixed, Mirror);
    assert!(matches!(
        result,
        Err(RssHandlerError::Validation(ValidationError::NoParametersProvided))
    ));
    let result = rss_handler("not a url", http::HeaderMap::new(), &no_fixed, Mirror);
    assert!(matches!(
        result,
        Err(RssHandlerError::Validation(ValidationError::UrlParseError { .. }))
    ));
    let bad_fixed = vec![("bad name".to_string(), "v".to_string())];
    let result = rss_handler(
        "https://test.example.com/?url=http://example.com/rss&guid_filter_regex=1",
        http::HeaderMap::new(),
        &bad_fixed,
        Mirror,
    );
    assert!(matches!(
        result,
        Err(RssHandlerError::Processing(ProcessingError::RequestBuild { .. }))
    ));
}

#[test]
fn handler_reports_what_the_pipeline_refuses() {
    let client = FakeHttpClient::new()
        .with_json_response("http://example.com/json", b"{}".to_vec())
        .with_network_error("http://example.com/down", "down");
    let result = rss_handler(
        "https://test.example.com/?url=http://example.com/json&guid_filter_regex=1",
        http::HeaderMap::new(),
        &Vec::new(),
        client,
    );
    let error = result.unwrap_err();
    assert_eq!(error.status_code(), UNSUPPORTED_MEDIA_TYPE);
    assert_eq!(
        error.to_string(),
        "RSS processing failed: RSS processing failed: Invalid content type: application/json. Expected XML or RSS content"
    );

    let client = FakeHttpClient::new().with_network_error("http://example.com/down", "down");
    let error = rss_handler(
        "https://test.example.com/?url=http://example.com/down&guid_filter_regex=1",
        http::HeaderMap::new(),
        &Vec::new(),
        client,
    )
    .unwrap_err();
    assert_eq!(error.status_code(), BAD_GATEWAY);
}

#[test]
fn patterns_are_described_by_their_sources() {
    let params = validate_pairs(&pairs(&[
        ("url", "u"),
        ("title_filter_regex", "a"),
        ("title_filter_regex", "b+"),
        ("link_filter_regex", "^c$"),
    ]))
    .unwrap();
    assert_eq!(params.regex_params.describe(), "title: [a, b+], guid: [], link: [^c$]");
    let three = validate_pairs(&pairs(&[("url", "u"), ("guid_filter_regex", "1"), ("guid_filter_regex", "2"), ("guid_filter_regex", "3")])).unwrap();
    assert_eq!(three.regex_params.describe(), "title: [], guid: [1, 2, 3], link: []");
    assert_eq!(join_sources(&three.regex_params.guid_regexes), "1, 2, 3");
    assert_eq!(join_sources(&Vec::new()), "");
}

#[test]
fn builder_writes_the_address_of_a_request() {
    let request = RequestBuilder::new().build().unwrap();
    assert_eq!(request.method, Method::Get);
    assert_eq!(request.url, "https://test.example.com/");
    assert!(request.headers.is_empty());
    assert!(request.body.is_empty());

    let request = RequestBuilder::new()
        .with_feed_url("http://example.com/rss?a=b")
        .with_title_filter_regex("Test Item")
        .with_guid_filter_regex("^1$")
        .with_method(Method::Post)
        .build()
        .unwrap();
    assert_eq!(request.method, Method::Post);
    assert_eq!(
        request.url,
        "https://test.example.com/?url=http%3A%2F%2Fexample.com%2Frss%3Fa%3Db&title_filter_regex=Test%20Item&uid_filter_regex=%5E1%24"
    );

    let request = RequestBuilder::default().with_path("/wrong").build().unwrap();
    assert_eq!(request.url, "https://test.example.com/wrong");
    assert!(RequestBuilder::new().with_path("/a b").build().is_err());
}

#[test]
fn built_request_is_read_back() {
    let request = RequestBuilder::new()
        .with_feed_url("http://example.com/rss")
        .with_title_filter_regex("a&b=c")
        .build()
        .unwrap();
    let params = read_parameters(&request.url).unwrap();
    assert_eq!(params.url, "http://example.com/rss");
    assert_eq!(params.regex_params.title_regexes[0].as_str(), "a&b=c");

    let request = RequestBuilder::new().with_title_filter_regex(".*").build().unwrap();
    assert!(matches!(read_parameters(&request.url), Err(ValidationError::NoUrlProvided)));
    let request = RequestBuilder::new().with_feed_url("http://example.com/rss").build().unwrap();
    assert!(matches!(read_parameters(&request.url), Err(ValidationError::NoFiltersProvided)));
    let request = RequestBuilder::new().with_path("/wrong").build().unwrap();
    assert_eq!(validate_request("/wrong", &request.method), Err(RequestValidationError::NotFound));
}

#[test]
fn request_is_planned_before_anything_is_sent() {
    let fixed = vec![("accept".to_string(), "application/rss+xml".to_string())];
    let mut headers = http::HeaderMap::new();
    headers.insert("host", "test.example.com".parse().unwrap());
    headers.insert("cookie", "a=1".parse().unwrap());
    let planned = plan_request(
        "https://test.example.com/?url=http://example.com&title_filter_regex=x",
        headers,
        &fixed,
    )
    .unwrap();
    assert_eq!(planned.params.url, "http://example.com");
    assert_eq!(planned.request.method, Method::Get);
    assert_eq!(planned.request.url, "http://example.com/");
    assert!(planned.request.body.is_empty());
    let mut wanted = http::HeaderMap::new();
    wanted.insert("cookie", "a=1".parse().unwrap());
    wanted.insert("accept", "application/rss+xml".parse().unwrap());
    assert_eq!(planned.request.headers, wanted);

    let answer = Ok(HttpResponse { status: 503, headers: http::HeaderMap::new(), body: b"busy".to_vec() });
    let response = conclude(&planned.params, answer).unwrap();
    assert_eq!(response.status, 503);
    assert_eq!(response.body, b"busy".to_vec());

    let answer = Err(HttpClientError::Request("down".to_string()));
    let error = conclude(&planned.params, answer).unwrap_err();
    assert_eq!(error.status_code(), BAD_GATEWAY);
}

#[test]
fn plan_fails_for_a_feed_address_that_is_none() {
    let error = plan_request(
        "https://test.example.com/?url=http://exa%20mple.com&title_filter_regex=x",
        http::HeaderMap::new(),
        &Vec::new(),
    )
    .unwrap_err();
    match error {
        RssHandlerError::Processing(ProcessingError::Rss(RssError::HttpClient(
            HttpClientError::Request(message),
        ))) => assert!(message.starts_with("Failed to build request: "), "{}", message),
        other => panic!("{:?}", other),
    }
    assert!(matches!(
        plan_request("https://test.example.com/?url=u", http::HeaderMap::new(), &Vec::new()),
        Err(RssHandlerError::Validation(ValidationError::NoFiltersProvided))
    ));
}

#[test]
fn full_headers_are_a_request_build_error() {
    let mut headers = http::HeaderMap::new();
    for i in 0..40000u32 {
        let name = http::HeaderName::from_bytes(format!("h{}", i).as_bytes()).unwrap();
        if headers.try_insert(name, http::HeaderValue::from_static("v")).is_err() {
            break;
        }
    }
    let fixed = vec![("accept".to_string(), "application/rss+xml".to_string())];
    let result = plan_request(
        "https://test.example.com/?url=http://example.com&title_filter_regex=x",
        headers,
        &fixed,
    );
    assert!(matches!(
        result,
        Err(RssHandlerError::Processing(ProcessingError::RequestBuild { .. }))
    ));
}
