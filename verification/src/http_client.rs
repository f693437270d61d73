//! The transport: what is sent, what comes back, and the part that every
//! transport shares, the header that tells how a cache answered.

use crate::cache_status::{status_text, CacheStatusView, CfCacheStatus};
use crate::headers::{
    append_header, header_fields, header_key, headers_full, is_header_name, is_header_value,
    lemma_key_is_name, parse_header_name, parse_header_value, with_value,
};
use crate::text::joined;
use vstd::prelude::*;

verus! {

/// Why a transport could not answer.
#[derive(Debug)]
pub enum HttpClientError {
    /// The request could not be built or sent.
    Request(String),
    /// The platform's cache failed.
    Cache(String),
    /// A header could not be converted.
    Header(String),
    /// The body could not be read or the response could not be built.
    Body(String),
}

impl HttpClientError {
    /// The message that the error carries.
    pub open spec fn detail(self) -> Seq<char> {
        match self {
            HttpClientError::Request(message) => message@,
            HttpClientError::Cache(message) => message@,
            HttpClientError::Header(message) => message@,
            HttpClientError::Body(message) => message@,
        }
    }

    /// The words that say of which kind the error is.
    pub open spec fn heading(self) -> Seq<char> {
        match self {
            HttpClientError::Request(_) => "Request failed: "@,
            HttpClientError::Cache(_) => "Cache error: "@,
            HttpClientError::Header(_) => "Header conversion error: "@,
            HttpClientError::Body(_) => "Body conversion error: "@,
        }
    }

    /// The error in words: its kind, then its message.
    pub fn to_string(&self) -> (out: String)
        ensures
            out@ == self.heading() + self.detail(),
    {
        match self {
            HttpClientError::Request(message) => joined("Request failed: ", message.as_str()),
            HttpClientError::Cache(message) => joined("Cache error: ", message.as_str()),
            HttpClientError::Header(message) => joined(
                "Header conversion error: ",
                message.as_str(),
            ),
            HttpClientError::Body(message) => joined("Body conversion error: ", message.as_str()),
        }
    }
}

/// The method of a request.
#[derive(Debug, Clone, PartialEq, Eq)]
pub enum Method {
    Get,
    Post,
    Put,
    Delete,
    Head,
    Options,
    Patch,
    Connect,
    Trace,
    /// A method outside the standard ones, by its token.
    Extension(String),
}

impl Method {
    /// The token of the method as it is written in a request.
    pub open spec fn token(self) -> Seq<char> {
        match self {
            Method::Get => "GET"@,
            Method::Post => "POST"@,
            Method::Put => "PUT"@,
            Method::Delete => "DELETE"@,
            Method::Head => "HEAD"@,
            Method::Options => "OPTIONS"@,
            Method::Patch => "PATCH"@,
            Method::Connect => "CONNECT"@,
            Method::Trace => "TRACE"@,
            Method::Extension(token) => token@,
        }
    }

    /// The token of the method as it is written in a request.
    pub fn as_str(&self) -> (token: &str)
        ensures
            token@ == self.token(),
    {
        match self {
            Method::Get => "GET",
            Method::Post => "POST",
            Method::Put => "PUT",
            Method::Delete => "DELETE",
            Method::Head => "HEAD",
            Method::Options => "OPTIONS",
            Method::Patch => "PATCH",
            Method::Connect => "CONNECT",
            Method::Trace => "TRACE",
            Method::Extension(token) => token.as_str(),
        }
    }
}

/// One request: a method, the address it goes to, its headers and its body.
#[derive(Debug)]
pub struct HttpRequest {
    pub method: Method,
    pub url: String,
    pub headers: http::HeaderMap,
    pub body: Vec<u8>,
}

/// One response: a status code, its headers and its body.
#[derive(Debug)]
pub struct HttpResponse {
    pub status: u16,
    pub headers: http::HeaderMap,
    pub body: Vec<u8>,
}

/// Whether a status code tells of success: 200 to 299.
pub open spec fn is_success_status(status: u16) -> bool {
    200 <= status < 300
}

impl HttpResponse {
    /// Whether the status code tells of success.
    pub fn is_success(&self) -> (success: bool)
        ensures
            success == is_success_status(self.status),
    {
        200 <= self.status && self.status < 300
    }
}

/// A transport: it sends one request and hands back the response, or says
/// why there is none.
pub trait HttpClient {
    /// Whether `answer` is something that this transport may hand back for
    /// `request`. Unless a transport says otherwise it may hand back
    /// anything, as one that goes to the network does.
    open spec fn may_answer(
        &self,
        request: HttpRequest,
        answer: Result<HttpResponse, HttpClientError>,
    ) -> bool {
        true
    }

    /// Sends `request`.
    fn send(&self, request: HttpRequest) -> (answer: Result<HttpResponse, HttpClientError>)
        ensures
            self.may_answer(request, answer),
    ;
}

impl<T: HttpClient + ?Sized> HttpClient for Box<T> {
    /// What the transport in the box may hand back.
    open spec fn may_answer(
        &self,
        request: HttpRequest,
        answer: Result<HttpResponse, HttpClientError>,
    ) -> bool {
        (**self).may_answer(request, answer)
    }

    fn send(&self, request: HttpRequest) -> (answer: Result<HttpResponse, HttpClientError>) {
        (**self).send(request)
    }
}

/// How a transport uses and reports a cache.
#[derive(Debug, Clone)]
pub struct CacheConfig {
    /// How long a cached response lives, in seconds.
    pub ttl_seconds: u64,
    /// What every cache key starts with.
    pub cache_key_prefix: String,
    /// The name of the header that reports how the cache answered.
    pub status_header_name: String,
}

impl Default for CacheConfig {
    /// Five minutes, keys that start with `http-cache`, and the header
    /// `x-rssfilter-cache-status`.
    fn default() -> (config: CacheConfig)
        ensures
            config.ttl_seconds == 300,
            config.cache_key_prefix@ == "http-cache"@,
            config.status_header_name@ == "x-rssfilter-cache-status"@,
    {
        CacheConfig {
            ttl_seconds: 300,
            cache_key_prefix: "http-cache".to_owned(),
            status_header_name: "x-rssfilter-cache-status".to_owned(),
        }
    }
}

/// What becomes of a response that is to carry a cache status.
pub enum TaggedView {
    /// The name of the status header is no header name.
    BadName,
    /// The text of the cache status cannot stand in a header value.
    BadValue,
    /// The header map takes no further value.
    Full,
    /// The response, by its status, the fields of its headers and its body.
    Tagged(u16, Map<Seq<char>, Seq<Seq<u8>>>, Seq<u8>),
}

/// The response that carries `cache_status` under `name` beside the fields
/// it had, or why it cannot.
pub open spec fn tagged(
    name: Seq<char>,
    status: u16,
    headers: http::HeaderMap,
    body: Seq<u8>,
    cache_status: Seq<char>,
) -> TaggedView {
    let value = vstd::utf8::encode_utf8(cache_status);
    if !is_header_name(name) {
        TaggedView::BadName
    } else if !is_header_value(value) {
        TaggedView::BadValue
    } else if headers_full(headers) {
        TaggedView::Full
    } else {
        TaggedView::Tagged(status, with_value(header_fields(headers), header_key(name), value), body)
    }
}

/// Whether `built` is what `outcome` asks for: a `Header` error for a name
/// or a value that is none, a `Body` error for headers that are full, each
/// with its reason, and else the response.
pub open spec fn tagged_matches(
    outcome: TaggedView,
    built: Result<HttpResponse, HttpClientError>,
) -> bool {
    match outcome {
        TaggedView::BadName => built is Err && built->Err_0 is Header && built->Err_0.detail()
            == "Invalid cache header name: "@ + "invalid HTTP header name"@,
        TaggedView::BadValue => built is Err && built->Err_0 is Header && built->Err_0.detail()
            == "Invalid cache header value: "@ + "failed to parse header value"@,
        TaggedView::Full => built is Err && built->Err_0 is Body && built->Err_0.detail()
            == "Failed to build response: "@ + "max size reached"@,
        TaggedView::Tagged(code, fields, content) => built is Ok && built->Ok_0.status == code
            && header_fields(built->Ok_0.headers) == fields && built->Ok_0.body@ == content,
    }
}

/// Builds a response from a status, headers and a body, with one more header
/// value: the text `cache_status` under `name`, behind the values that the
/// name already has.
///
/// It fails with `Header` where `name` is no header name or `cache_status`
/// cannot stand in a header value, and with `Body` where the headers take no
/// further value.
pub fn attach_status(
    name: &str,
    status: u16,
    headers: http::HeaderMap,
    body: Vec<u8>,
    cache_status: &str,
) -> (built: Result<HttpResponse, HttpClientError>)
    ensures
        tagged_matches(tagged(name@, status, headers, body@, cache_status@), built),
{
    let key = match parse_header_name(name) {
        Ok(key) => key,
        Err(why) => {
            return Err(
                HttpClientError::Header(joined("Invalid cache header name: ", why.as_str())),
            );
        },
    };
    let value = match parse_header_value(cache_status) {
        Ok(value) => value,
        Err(why) => {
            return Err(
                HttpClientError::Header(joined("Invalid cache header value: ", why.as_str())),
            );
        },
    };
    let mut headers = headers;
    proof {
        lemma_key_is_name(name@);
    }
    match append_header(&mut headers, key.as_str(), value.as_slice()) {
        Ok(()) => Ok(HttpResponse { status, headers, body }),
        Err(why) => Err(HttpClientError::Body(joined("Failed to build response: ", why.as_str()))),
    }
}

/// Builds the response that a transport hands back: the status, headers and
/// body that came from upstream, and one more header value, under the name
/// that `config` gives, that tells how the cache answered.
pub fn tag_response(
    config: &CacheConfig,
    status: u16,
    headers: http::HeaderMap,
    body: Vec<u8>,
    cache_status: &CfCacheStatus,
) -> (built: Result<HttpResponse, HttpClientError>)
    ensures
        tagged_matches(
            tagged(config.status_header_name@, status, headers, body@, status_text(cache_status@)),
            built,
        ),
{
    let text = cache_status.to_string();
    attach_status(config.status_header_name.as_str(), status, headers, body, text.as_str())
}

/// The response of a transport that has no cache of its own: what came from
/// upstream, reported as a cache miss.
pub fn convert_response(
    config: &CacheConfig,
    status: u16,
    headers: http::HeaderMap,
    body: Vec<u8>,
) -> (built: Result<HttpResponse, HttpClientError>)
    ensures
        tagged_matches(tagged(config.status_header_name@, status, headers, body@, "MISS"@), built),
        !(tagged(config.status_header_name@, status, headers, body@, "MISS"@) is BadValue),
{
    proof {
        crate::cache_status::lemma_known_status_is_value(CacheStatusView::Miss);
    }
    tag_response(config, status, headers, body, &CfCacheStatus::Miss)
}

} // verus!
