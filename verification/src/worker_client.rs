//! The transport of an edge platform: what it asks of the platform's fetch
//! and what it makes of the answer. The fetch itself is the platform's.

use crate::cache_status::{decoded_status, status_text, CacheStatusView, CfCacheStatus};
use crate::headers::{found_values, header_entries, header_fields, header_order};
use crate::http_client::{
    tag_response, tagged, tagged_matches, CacheConfig, HttpClientError, HttpRequest, HttpResponse,
    Method,
};
use crate::text::{
    bytes_hashed, hash_bytes, hash_text, hex_text, joined, lower_hex, text_hashed, utf8_fault,
    utf8_text,
};
use std::collections::hash_map::DefaultHasher;
use std::hash::Hasher;
use vstd::prelude::*;
use vstd::std_specs::hash::DefaultHasherAdditionalSpecFns;

verus! {

/// A method that the platform's fetch can send.
#[derive(Debug, Clone, Copy, PartialEq, Eq)]
pub enum FetchMethod {
    Get,
    Post,
    Put,
    Delete,
    Head,
    Options,
    Patch,
}

/// For how long responses of a range of status codes are cached.
#[derive(Debug, Clone, PartialEq, Eq)]
pub struct StatusTtl {
    /// The range of status codes, as the platform writes it.
    pub range: String,
    /// The time to live, in seconds.
    pub seconds: i32,
}

/// What is asked of the platform's fetch for one request.
#[derive(Debug)]
pub struct FetchPlan {
    /// The address to fetch.
    pub uri: String,
    pub method: FetchMethod,
    /// The headers of the request, each value as text, in the order of the
    /// request's header map.
    pub headers: Vec<(String, String)>,
    /// The key under which the platform caches the response.
    pub cache_key: String,
    /// For how long the platform caches the response, in seconds.
    pub cache_ttl: u32,
    /// For how long it caches it, by the status of the response: the whole
    /// time for a success, half of it for a redirect.
    pub cache_ttl_by_status: Vec<StatusTtl>,
    /// The body to send, if the request has one.
    pub body: Option<Vec<u8>>,
}

/// What a hasher has seen once the names and values of `entries` were hashed
/// into it, one entry after the other.
pub open spec fn entries_hashed(writes: Seq<Seq<u8>>, entries: Seq<(Seq<char>, Seq<u8>)>) -> Seq<Seq<u8>>
    decreases entries.len(),
{
    if entries.len() == 0 {
        writes
    } else {
        let before = entries_hashed(writes, entries.drop_last());
        bytes_hashed(text_hashed(before, entries.last().0), entries.last().1)
    }
}

/// The cache key of a request: the prefix, a hyphen, and in hexadecimal the
/// hash of the address, the method and every header name and value.
pub open spec fn cache_key_of(
    prefix: Seq<char>,
    url: Seq<char>,
    method: Seq<char>,
    entries: Seq<(Seq<char>, Seq<u8>)>,
) -> Seq<char> {
    let start = text_hashed(text_hashed(Seq::empty(), url), method);
    prefix + "-"@ + hex_text(DefaultHasher::spec_finish(entries_hashed(start, entries)) as nat)
}

/// The method that the platform's fetch sends for `method`, if it can.
pub open spec fn fetch_method(method: Method) -> Option<FetchMethod> {
    match method {
        Method::Get => Some(FetchMethod::Get),
        Method::Post => Some(FetchMethod::Post),
        Method::Put => Some(FetchMethod::Put),
        Method::Delete => Some(FetchMethod::Delete),
        Method::Head => Some(FetchMethod::Head),
        Method::Options => Some(FetchMethod::Options),
        Method::Patch => Some(FetchMethod::Patch),
        _ => None,
    }
}

/// The first header value that is no UTF-8, if there is one.
pub open spec fn first_fault(entries: Seq<(Seq<char>, Seq<u8>)>) -> Option<Seq<u8>>
    decreases entries.len(),
{
    if entries.len() == 0 {
        None
    } else if !vstd::utf8::valid_utf8(entries.first().1) {
        Some(entries.first().1)
    } else {
        first_fault(entries.drop_first())
    }
}

/// The first value that is no UTF-8 is the value at `at` where every value
/// before it is UTF-8 and it is not; there is none where every value is
/// UTF-8.
pub proof fn lemma_first_fault(entries: Seq<(Seq<char>, Seq<u8>)>, at: int)
    requires
        0 <= at <= entries.len(),
        forall|k: int| 0 <= k < at ==> vstd::utf8::valid_utf8((#[trigger] entries[k]).1),
        at < entries.len() ==> !vstd::utf8::valid_utf8(entries[at].1),
    ensures
        first_fault(entries) == if at < entries.len() {
            Some(entries[at].1)
        } else {
            None
        },
    decreases entries.len(),
{
    if entries.len() > 0 && at > 0 {
        let rest = entries.drop_first();
        assert(vstd::utf8::valid_utf8(entries[0].1));
        assert forall|k: int| 0 <= k < at - 1 implies vstd::utf8::valid_utf8(
            (#[trigger] rest[k]).1,
        ) by {
            assert(rest[k] == entries[k + 1]);
        }
        if at < entries.len() {
            assert(rest[at - 1] == entries[at]);
        }
        lemma_first_fault(rest, at - 1);
    }
}

/// What becomes of a request on its way to the platform's fetch.
pub enum Planned {
    /// A header value is no UTF-8: the value.
    NoText(Seq<u8>),
    /// The platform cannot send the method.
    NoMethod,
    /// The request can be sent.
    Ready,
}

/// What becomes of `request`. The header values are read first, the method
/// after them.
pub open spec fn planned(request: HttpRequest) -> Planned {
    match first_fault(header_order(request.headers)) {
        Some(value) => Planned::NoText(value),
        None => if fetch_method(request.method) is None {
            Planned::NoMethod
        } else {
            Planned::Ready
        },
    }
}

/// The cache status that the platform reports in the headers of a response:
/// what its `cf-cache-status` header decodes to, a miss where it decodes to
/// nothing.
pub open spec fn reported_status(fields: Map<Seq<char>, Seq<Seq<u8>>>) -> CacheStatusView {
    match decoded_status(found_values(fields, "cf-cache-status"@)) {
        Some(status) => status,
        None => CacheStatusView::Miss,
    }
}

/// A transport that fetches through the platform of an edge worker and lets
/// the platform cache what it fetched.
pub struct WorkerHttpClient {
    cache_config: CacheConfig,
}

impl WorkerHttpClient {
    /// A transport that caches as `cache_config` says.
    pub fn new(cache_config: CacheConfig) -> (client: Self)
        ensures
            client.config() == cache_config,
    {
        Self { cache_config }
    }

    /// How this transport caches.
    pub closed spec fn config(&self) -> CacheConfig {
        self.cache_config
    }

    /// The key under which the platform caches the response to `request`.
    /// The same address, method and headers give the same key.
    pub fn create_cache_key(&self, request: &HttpRequest) -> (key: String)
        ensures
            key@ == cache_key_of(
                self.config().cache_key_prefix@,
                request.url@,
                request.method.token(),
                header_order(request.headers),
            ),
    {
        let mut hasher = DefaultHasher::new();
        hash_text(&mut hasher, request.url.as_str());
        hash_text(&mut hasher, request.method.as_str());
        let ghost start = hasher@;
        let ghost order = header_order(request.headers);
        let entries = header_entries(&request.headers);
        let mut i: usize = 0;
        while i < entries.len()
            invariant
                i <= entries.len(),
                entries.len() == order.len(),
                forall|k: int| 0 <= k < entries.len() ==> (#[trigger] entries[k]).0@ == order[k].0
                    && entries[k].1@ == order[k].1,
                hasher@ == entries_hashed(start, order.take(i as int)),
            decreases entries.len() - i,
        {
            proof {
                assert(order.take(i + 1).drop_last() == order.take(i as int));
            }
            hash_text(&mut hasher, entries[i].0.as_str());
            hash_bytes(&mut hasher, entries[i].1.as_slice());
            i = i + 1;
        }
        proof {
            assert(order.take(order.len() as int) == order);
        }
        let hash = hasher.finish();
        let head = joined(self.cache_config.cache_key_prefix.as_str(), "-");
        let digits = lower_hex(hash);
        joined(head.as_str(), digits.as_str())
    }

    /// What to ask of the platform's fetch for `request`.
    ///
    /// It fails with `Header` where a header value is no UTF-8, and else with
    /// `Request` where the platform cannot send the method, each with its
    /// reason.
    pub fn plan_fetch(&self, request: HttpRequest) -> (plan: Result<FetchPlan, HttpClientError>)
        ensures
            match planned(request) {
                Planned::NoText(value) => plan is Err && plan->Err_0 is Header
                    && plan->Err_0.detail() == "Invalid UTF-8 in header: "@ + utf8_fault(value),
                Planned::NoMethod => plan is Err && plan->Err_0 is Request && plan->Err_0.detail()
                    == "Unsupported method: "@ + request.method.token(),
                Planned::Ready => plan is Ok && plan_is(self.config(), request, plan->Ok_0),
            },
    {
        let cache_key = self.create_cache_key(&request);
        let ghost order = header_order(request.headers);
        let entries = header_entries(&request.headers);
        let mut headers: Vec<(String, String)> = Vec::new();
        let mut i: usize = 0;
        while i < entries.len()
            invariant
                i <= entries.len(),
                entries.len() == order.len(),
                forall|k: int| 0 <= k < entries.len() ==> (#[trigger] entries[k]).0@ == order[k].0
                    && entries[k].1@ == order[k].1,
                headers.len() == i,
                order == header_order(request.headers),
                forall|k: int| 0 <= k < i ==> vstd::utf8::valid_utf8((#[trigger] order[k]).1),
                forall|k: int| 0 <= k < i ==> (#[trigger] headers[k]).0@ == order[k].0
                    && headers[k].1@ == vstd::utf8::decode_utf8(order[k].1),
            decreases entries.len() - i,
        {
            match utf8_text(entries[i].1.as_slice()) {
                Ok(text) => {
                    headers.push((entries[i].0.clone(), text));
                },
                Err(why) => {
                    proof {
                        assert(!vstd::utf8::valid_utf8(order[i as int].1));
                        lemma_first_fault(order, i as int);
                    }
                    return Err(
                        HttpClientError::Header(joined("Invalid UTF-8 in header: ", why.as_str())),
                    );
                },
            }
            i = i + 1;
        }
        proof {
            lemma_first_fault(order, order.len() as int);
        }
        let ttl = self.cache_config.ttl_seconds;
        let mut cache_ttl_by_status: Vec<StatusTtl> = Vec::new();
        cache_ttl_by_status.push(
            StatusTtl { range: "200-299".to_owned(), seconds: #[verifier::truncate] (ttl as i32) },
        );
        cache_ttl_by_status.push(
            StatusTtl {
                range: "300-399".to_owned(),
                seconds: #[verifier::truncate] ((ttl / 2) as i32),
            },
        );
        let method = match request.method {
            Method::Get => FetchMethod::Get,
            Method::Post => FetchMethod::Post,
            Method::Put => FetchMethod::Put,
            Method::Delete => FetchMethod::Delete,
            Method::Head => FetchMethod::Head,
            Method::Options => FetchMethod::Options,
            Method::Patch => FetchMethod::Patch,
            _ => {
                return Err(
                    HttpClientError::Request(
                        joined("Unsupported method: ", request.method.as_str()),
                    ),
                );
            },
        };
        let body = if request.body.len() == 0 {
            None
        } else {
            Some(request.body)
        };
        Ok(
            FetchPlan {
                uri: request.url,
                method,
                headers,
                cache_key,
                cache_ttl: #[verifier::truncate] (ttl as u32),
                cache_ttl_by_status,
                body,
            },
        )
    }

    /// The response that the transport hands back for what the platform
    /// fetched: the status, headers and body of the platform's response, and
    /// under the name that the configuration gives the cache status that the
    /// platform reported, a miss where it reported none.
    pub fn finish_fetch(&self, status: u16, headers: http::HeaderMap, body: Vec<u8>) -> (built:
        Result<HttpResponse, HttpClientError>)
        ensures
            tagged_matches(
                tagged(
                    self.config().status_header_name@,
                    status,
                    headers,
                    body@,
                    status_text(reported_status(header_fields(headers))),
                ),
                built,
            ),
    {
        let cache_status = match CfCacheStatus::typed_get(&headers) {
            Some(status) => status,
            None => CfCacheStatus::Miss,
        };
        tag_response(&self.cache_config, status, headers, body, &cache_status)
    }
}

/// Whether `plan` is what is asked of the platform for `request`, which has
/// UTF-8 in every header value and a method that the platform can send.
pub open spec fn plan_is(config: CacheConfig, request: HttpRequest, plan: FetchPlan) -> bool {
    let order = header_order(request.headers);
    &&& plan.uri@ == request.url@
    &&& Some(plan.method) == fetch_method(request.method)
    &&& plan.headers.len() == order.len()
    &&& forall|k: int|
        0 <= k < order.len() ==> (#[trigger] plan.headers[k]).0@ == order[k].0 && plan.headers[k].1@
            == vstd::utf8::decode_utf8(order[k].1)
    &&& plan.cache_key@ == cache_key_of(
        config.cache_key_prefix@,
        request.url@,
        request.method.token(),
        order,
    )
    &&& plan.cache_ttl == config.ttl_seconds as u32
    &&& plan.cache_ttl_by_status.len() == 2
    &&& plan.cache_ttl_by_status[0].range@ == "200-299"@
    &&& plan.cache_ttl_by_status[0].seconds == config.ttl_seconds as i32
    &&& plan.cache_ttl_by_status[1].range@ == "300-399"@
    &&& plan.cache_ttl_by_status[1].seconds == (config.ttl_seconds / 2) as i32
    &&& plan.body is Some == (request.body@.len() > 0)
    &&& plan.body is Some ==> plan.body->0@ == request.body@
}

} // verus!
