//! A transport that answers from a table: for tests that must not reach
//! the network.

use crate::headers::{
    clone_headers, header_fields, header_key, headers_full, is_header_name, is_header_value,
    lemma_content_type_name, new_headers, no_fields, one_value, set_header, with_value,
};
use crate::http_client::{
    attach_status, tagged, tagged_matches, HttpClient, HttpClientError, HttpRequest, HttpResponse,
    TaggedView,
};
use crate::text::same_text;
use vstd::prelude::*;
use vstd::string::StringSliceAdditionalSpecFns;

verus! {

/// A failure that the table can hold in place of a response.
#[derive(Debug, Clone)]
pub enum FakeHttpError {
    /// The network failed, with a message.
    Network { message: String },
    /// The request timed out.
    Timeout,
    /// The response was of the wrong media type.
    InvalidContentType,
}

impl FakeHttpError {
    /// The message with which a transport reports this failure.
    pub open spec fn message(self) -> Seq<char> {
        match self {
            FakeHttpError::Network { message } => message@,
            FakeHttpError::Timeout => "Request timeout"@,
            FakeHttpError::InvalidContentType => "Invalid content type"@,
        }
    }

    /// The failure in words.
    pub open spec fn text(self) -> Seq<char> {
        match self {
            FakeHttpError::Network { message } => "Network error: "@ + message@,
            FakeHttpError::Timeout => "Timeout error"@,
            FakeHttpError::InvalidContentType => "Invalid content type"@,
        }
    }

    /// The failure in words.
    pub fn to_string(&self) -> (out: String)
        ensures
            out@ == self.text(),
    {
        match self {
            FakeHttpError::Network { message } => crate::text::joined(
                "Network error: ",
                message.as_str(),
            ),
            FakeHttpError::Timeout => "Timeout error".to_owned(),
            FakeHttpError::InvalidContentType => "Invalid content type".to_owned(),
        }
    }
}

/// A response that the table can hold.
#[derive(Debug)]
pub struct FakeResponse {
    pub status: u16,
    pub headers: http::HeaderMap,
    pub body: Vec<u8>,
}

impl FakeResponse {
    /// A response with a status and a body, without headers.
    pub fn new(status: u16, body: Vec<u8>) -> (response: Self)
        ensures
            response.status == status,
            response.body == body,
            header_fields(response.headers) == no_fields(),
            !headers_full(response.headers),
    {
        Self { status, headers: new_headers(), body }
    }

    /// The response with `value` for its only value of the header `name`.
    /// Where the headers take no further value they stay as they were.
    pub fn with_header(self, name: &str, value: &str) -> (response: Self)
        requires
            is_header_name(name@),
            is_header_value(value.spec_bytes()),
        ensures
            response.status == self.status,
            response.body == self.body,
            !headers_full(self.headers) ==> header_fields(response.headers) == header_fields(
                self.headers,
            ).insert(header_key(name@), one_value(value.spec_bytes())),
            headers_full(self.headers) ==> header_fields(response.headers) == header_fields(
                self.headers,
            ),
    {
        let mut response = self;
        let _ = set_header(&mut response.headers, name, value);
        response
    }

    /// The response with `content_type` for its media type. Where the
    /// headers take no further value they stay as they were.
    pub fn with_content_type(self, content_type: &str) -> (response: Self)
        requires
            is_header_value(content_type.spec_bytes()),
        ensures
            response.status == self.status,
            response.body == self.body,
            !headers_full(self.headers) ==> header_fields(response.headers) == header_fields(
                self.headers,
            ).insert("content-type"@, one_value(content_type.spec_bytes())),
            headers_full(self.headers) ==> header_fields(response.headers) == header_fields(
                self.headers,
            ),
    {
        proof {
            lemma_content_type_name();
        }
        self.with_header("content-type", content_type)
    }

    /// A response with status 200 and the media type `application/json`.
    pub fn json(body: Vec<u8>) -> (response: Self)
        ensures
            is_ready_made(response, "application/json".spec_bytes(), body),
    {
        proof {
            lemma_media_types_are_values();
        }
        FakeResponse::new(200, body).with_content_type("application/json")
    }

    /// A response with status 200 and the media type `application/xml`.
    pub fn xml(body: Vec<u8>) -> (response: Self)
        ensures
            is_ready_made(response, "application/xml".spec_bytes(), body),
    {
        proof {
            lemma_media_types_are_values();
        }
        FakeResponse::new(200, body).with_content_type("application/xml")
    }

    /// A response with status 200 and the media type `application/rss+xml`.
    pub fn feed(body: Vec<u8>) -> (response: Self)
        ensures
            is_ready_made(response, "application/rss+xml".spec_bytes(), body),
    {
        proof {
            lemma_media_types_are_values();
        }
        FakeResponse::new(200, body).with_content_type("application/rss+xml")
    }
}

/// Whether `response` is a ready-made response of a media type: status 200,
/// the body, and the media type for its only header.
pub open spec fn is_ready_made(response: FakeResponse, media_type: Seq<u8>, body: Vec<u8>) -> bool {
    &&& response.status == 200
    &&& response.body == body
    &&& header_fields(response.headers) == no_fields().insert("content-type"@, one_value(media_type))
}

/// The media types of the ready-made responses can stand in a header value.
pub proof fn lemma_media_types_are_values()
    ensures
        is_header_value("application/json".spec_bytes()),
        is_header_value("application/xml".spec_bytes()),
        is_header_value("application/rss+xml".spec_bytes()),
{
    reveal_strlit("application/json");
    reveal_strlit("application/xml");
    reveal_strlit("application/rss+xml");
    assert(vstd::utf8::is_ascii_chars("application/json"@));
    assert(vstd::utf8::is_ascii_chars("application/xml"@));
    assert(vstd::utf8::is_ascii_chars("application/rss+xml"@));
    vstd::utf8::is_ascii_chars_encode_utf8("application/json"@);
    vstd::utf8::is_ascii_chars_encode_utf8("application/xml"@);
    vstd::utf8::is_ascii_chars_encode_utf8("application/rss+xml"@);
}

/// The entry that was filed last under `url`, if there is one.
pub open spec fn last_response(entries: Seq<(String, FakeResponse)>, url: Seq<char>) -> Option<FakeResponse>
    decreases entries.len(),
{
    if entries.len() == 0 {
        None
    } else if entries.last().0@ == url {
        Some(entries.last().1)
    } else {
        last_response(entries.drop_last(), url)
    }
}

/// The entry that was filed last under `url`, if there is one.
pub open spec fn last_error(entries: Seq<(String, FakeHttpError)>, url: Seq<char>) -> Option<FakeHttpError>
    decreases entries.len(),
{
    if entries.len() == 0 {
        None
    } else if entries.last().0@ == url {
        Some(entries.last().1)
    } else {
        last_error(entries.drop_last(), url)
    }
}

/// What the table answers for an address.
pub enum FakeAnswer {
    /// The failure that is filed under the address.
    Failure(FakeHttpError),
    /// The response that is filed under the address.
    Found(FakeResponse),
    /// Nothing is filed under the address: status 404.
    NotFound,
}

/// A transport that answers from a table of responses and failures, by the
/// exact address of the request. A failure goes before a response; an address
/// that is not in the table gets status 404. Every response carries the cache
/// status of the table in the header `x-rssfilter-cache-status`.
pub struct FakeHttpClient {
    responses: Vec<(String, FakeResponse)>,
    errors: Vec<(String, FakeHttpError)>,
    cache_status: String,
}

impl FakeHttpClient {
    /// A transport with an empty table that reports the cache status `MISS`.
    pub fn new() -> (client: Self)
        ensures
            forall|url: Seq<char>| client.answer(url) is NotFound,
            client.cache_status() == "MISS"@,
    {
        Self { responses: Vec::new(), errors: Vec::new(), cache_status: "MISS".to_owned() }
    }

    /// The cache status that every response reports.
    pub closed spec fn cache_status(&self) -> Seq<char> {
        self.cache_status@
    }

    /// What the table answers for `url`.
    pub closed spec fn answer(&self, url: Seq<char>) -> FakeAnswer {
        match last_error(self.errors@, url) {
            Some(failure) => FakeAnswer::Failure(failure),
            None => match last_response(self.responses@, url) {
                Some(response) => FakeAnswer::Found(response),
                None => FakeAnswer::NotFound,
            },
        }
    }

    /// The transport with `response` filed under `url`, in the place of any
    /// response that was filed there. A failure that is filed under `url`
    /// still goes before it.
    pub fn with_response(self, url: &str, response: FakeResponse) -> (client: Self)
        ensures
            client.cache_status() == self.cache_status(),
            forall|other: Seq<char>| other != url@ ==> client.answer(other) == self.answer(other),
            client.answer(url@) == match self.answer(url@) {
                FakeAnswer::Failure(failure) => FakeAnswer::Failure(failure),
                _ => FakeAnswer::Found(response),
            },
    {
        let mut client = self;
        client.responses.push((url.to_owned(), response));
        proof {
            assert(client.responses@.drop_last() == self.responses@);
        }
        client
    }

    /// The transport with `failure` filed under `url`, in the place of any
    /// failure that was filed there.
    pub fn with_error(self, url: &str, failure: FakeHttpError) -> (client: Self)
        ensures
            client.cache_status() == self.cache_status(),
            forall|other: Seq<char>| other != url@ ==> client.answer(other) == self.answer(other),
            client.answer(url@) == FakeAnswer::Failure(failure),
    {
        let mut client = self;
        client.errors.push((url.to_owned(), failure));
        proof {
            assert(client.errors@.drop_last() == self.errors@);
        }
        client
    }

    /// The transport with `cache_status` for the cache status that it
    /// reports.
    pub fn with_cache_status(self, cache_status: &str) -> (client: Self)
        ensures
            client.cache_status() == cache_status@,
            forall|url: Seq<char>| client.answer(url) == self.answer(url),
    {
        let mut client = self;
        client.cache_status = cache_status.to_owned();
        client
    }

    /// The transport with a JSON response filed under `url`.
    pub fn with_json_response(self, url: &str, body: Vec<u8>) -> (client: Self)
        ensures
            client.cache_status() == self.cache_status(),
            forall|other: Seq<char>| other != url@ ==> client.answer(other) == self.answer(other),
            self.answer(url@) is Failure ==> client.answer(url@) == self.answer(url@),
            !(self.answer(url@) is Failure) ==> client.answer(url@) is Found && is_ready_made(
                client.answer(url@)->Found_0,
                "application/json".spec_bytes(),
                body,
            ),
    {
        self.with_response(url, FakeResponse::json(body))
    }

    /// The transport with an XML response filed under `url`.
    pub fn with_xml_response(self, url: &str, body: Vec<u8>) -> (client: Self)
        ensures
            client.cache_status() == self.cache_status(),
            forall|other: Seq<char>| other != url@ ==> client.answer(other) == self.answer(other),
            self.answer(url@) is Failure ==> client.answer(url@) == self.answer(url@),
            !(self.answer(url@) is Failure) ==> client.answer(url@) is Found && is_ready_made(
                client.answer(url@)->Found_0,
                "application/xml".spec_bytes(),
                body,
            ),
    {
        self.with_response(url, FakeResponse::xml(body))
    }

    /// The transport with an RSS response filed under `url`.
    pub fn with_rss_response(self, url: &str, body: Vec<u8>) -> (client: Self)
        ensures
            client.cache_status() == self.cache_status(),
            forall|other: Seq<char>| other != url@ ==> client.answer(other) == self.answer(other),
            self.answer(url@) is Failure ==> client.answer(url@) == self.answer(url@),
            !(self.answer(url@) is Failure) ==> client.answer(url@) is Found && is_ready_made(
                client.answer(url@)->Found_0,
                "application/rss+xml".spec_bytes(),
                body,
            ),
    {
        self.with_response(url, FakeResponse::feed(body))
    }

    /// The transport with a response of the given status, without headers,
    /// filed under `url`.
    pub fn with_status_response(self, url: &str, status: u16, body: Vec<u8>) -> (client: Self)
        ensures
            client.cache_status() == self.cache_status(),
            forall|other: Seq<char>| other != url@ ==> client.answer(other) == self.answer(other),
            self.answer(url@) is Failure ==> client.answer(url@) == self.answer(url@),
            !(self.answer(url@) is Failure) ==> client.answer(url@) is Found
                && client.answer(url@)->Found_0.status == status
                && client.answer(url@)->Found_0.body == body && header_fields(
                client.answer(url@)->Found_0.headers,
            ) == no_fields(),
    {
        self.with_response(url, FakeResponse::new(status, body))
    }

    /// The transport with a network failure filed under `url`.
    pub fn with_network_error(self, url: &str, message: &str) -> (client: Self)
        ensures
            client.cache_status() == self.cache_status(),
            forall|other: Seq<char>| other != url@ ==> client.answer(other) == self.answer(other),
            client.answer(url@) is Failure,
            client.answer(url@)->Failure_0.message() == message@,
    {
        self.with_error(url, FakeHttpError::Network { message: message.to_owned() })
    }

    /// The transport with a timeout filed under `url`.
    pub fn with_timeout_error(self, url: &str) -> (client: Self)
        ensures
            client.cache_status() == self.cache_status(),
            forall|other: Seq<char>| other != url@ ==> client.answer(other) == self.answer(other),
            client.answer(url@) == FakeAnswer::Failure(FakeHttpError::Timeout),
    {
        self.with_error(url, FakeHttpError::Timeout)
    }

    /// The transport with a failure for a wrong media type filed under
    /// `url`.
    pub fn with_invalid_content_type_error(self, url: &str) -> (client: Self)
        ensures
            client.cache_status() == self.cache_status(),
            forall|other: Seq<char>| other != url@ ==> client.answer(other) == self.answer(other),
            client.answer(url@) == FakeAnswer::Failure(FakeHttpError::InvalidContentType),
    {
        self.with_error(url, FakeHttpError::InvalidContentType)
    }

    /// The failure of a transport that stands for `failure`: always a
    /// `Request` error, with the message of the failure.
    pub fn convert_fake_error(&self, failure: &FakeHttpError) -> (converted: HttpClientError)
        ensures
            converted is Request,
            converted.detail() == failure.message(),
    {
        match failure {
            FakeHttpError::Network { message } => HttpClientError::Request(message.clone()),
            FakeHttpError::Timeout => HttpClientError::Request("Request timeout".to_owned()),
            FakeHttpError::InvalidContentType => HttpClientError::Request(
                "Invalid content type".to_owned(),
            ),
        }
    }

    /// The failure that is filed under `url`, if there is one.
    fn find_error(&self, url: &str) -> (found: Option<&FakeHttpError>)
        ensures
            found is Some == last_error(self.errors@, url@) is Some,
            found is Some ==> *found->0 == last_error(self.errors@, url@)->0,
    {
        let mut i: usize = self.errors.len();
        proof {
            assert(self.errors@.take(self.errors@.len() as int) == self.errors@);
        }
        while i > 0
            invariant
                i <= self.errors.len(),
                last_error(self.errors@, url@) == last_error(self.errors@.take(i as int), url@),
            decreases i,
        {
            proof {
                assert(self.errors@.take(i as int).drop_last() == self.errors@.take(i - 1));
            }
            if same_text(self.errors[i - 1].0.as_str(), url) {
                return Some(&self.errors[i - 1].1);
            }
            i = i - 1;
        }
        None
    }

    /// The response that is filed under `url`, if there is one.
    fn find_response(&self, url: &str) -> (found: Option<&FakeResponse>)
        ensures
            found is Some == last_response(self.responses@, url@) is Some,
            found is Some ==> *found->0 == last_response(self.responses@, url@)->0,
    {
        let mut i: usize = self.responses.len();
        proof {
            assert(self.responses@.take(self.responses@.len() as int) == self.responses@);
        }
        while i > 0
            invariant
                i <= self.responses.len(),
                last_response(self.responses@, url@) == last_response(
                    self.responses@.take(i as int),
                    url@,
                ),
            decreases i,
        {
            proof {
                assert(self.responses@.take(i as int).drop_last() == self.responses@.take(i - 1));
            }
            if same_text(self.responses[i - 1].0.as_str(), url) {
                return Some(&self.responses[i - 1].1);
            }
            i = i - 1;
        }
        None
    }

    /// Answers `request` from the table, by its address alone.
    pub fn respond(&self, request: &HttpRequest) -> (result: Result<HttpResponse, HttpClientError>)
        ensures
            self.answers(request.url@, result),
    {
        let url = request.url.as_str();
        if let Some(failure) = self.find_error(url) {
            return Err(self.convert_fake_error(failure));
        }
        proof {
            crate::cache_status::lemma_status_names();
        }
        if let Some(found) = self.find_response(url) {
            let headers = clone_headers(&found.headers);
            let body = found.body.clone();
            return attach_status(
                "x-rssfilter-cache-status",
                found.status,
                headers,
                body,
                self.cache_status.as_str(),
            );
        }
        let body = vstd::slice::slice_to_vec("Not Found".as_bytes());
        let fresh = new_headers();
        proof {
            assert(with_value(
                no_fields(),
                "x-rssfilter-cache-status"@,
                vstd::utf8::encode_utf8(self.cache_status()),
            ) =~= no_fields().insert(
                "x-rssfilter-cache-status"@,
                one_value(vstd::utf8::encode_utf8(self.cache_status())),
            ));
        }
        attach_status("x-rssfilter-cache-status", 404, fresh, body, self.cache_status.as_str())
    }

    /// Whether `result` is what the transport hands back for a request to
    /// `url`: the failure that is filed under it, as a `Request` error with
    /// its message; else the response that is filed under it, or status 404
    /// with the body `Not Found`, each with the cache status added to its
    /// headers.
    pub open spec fn answers(&self, url: Seq<char>, result: Result<HttpResponse, HttpClientError>) -> bool {
        match self.answer(url) {
            FakeAnswer::Failure(failure) => result is Err && result->Err_0 is Request
                && result->Err_0.detail() == failure.message(),
            FakeAnswer::Found(found) => tagged_matches(
                tagged(
                    "x-rssfilter-cache-status"@,
                    found.status,
                    found.headers,
                    found.body@,
                    self.cache_status(),
                ),
                result,
            ),
            FakeAnswer::NotFound => tagged_matches(not_found(self.cache_status()), result),
        }
    }
}

/// What an address that is not in the table gets: status 404 with the body
/// `Not Found` and the cache status for its only header, or a `Header` error
/// where the cache status cannot stand in a header value.
pub open spec fn not_found(cache_status: Seq<char>) -> TaggedView {
    if !is_header_value(vstd::utf8::encode_utf8(cache_status)) {
        TaggedView::BadValue
    } else {
        TaggedView::Tagged(
            404,
            no_fields().insert(
                "x-rssfilter-cache-status"@,
                one_value(vstd::utf8::encode_utf8(cache_status)),
            ),
            "Not Found".spec_bytes(),
        )
    }
}

impl Default for FakeHttpClient {
    fn default() -> (client: Self)
        ensures
            forall|url: Seq<char>| client.answer(url) is NotFound,
            client.cache_status() == "MISS"@,
    {
        FakeHttpClient::new()
    }
}

impl HttpClient for FakeHttpClient {
    /// The answers of the table for the address of the request.
    open spec fn may_answer(
        &self,
        request: HttpRequest,
        answer: Result<HttpResponse, HttpClientError>,
    ) -> bool {
        self.answers(request.url@, answer)
    }

    fn send(&self, request: HttpRequest) -> (answer: Result<HttpResponse, HttpClientError>) {
        self.respond(&request)
    }
}

} // verus!
