//! What the front end of a cloud function decides: where a request goes,
//! what its parameters ask for, and how the reply is made.

use crate::filter::{body_matches, body_outcome, fetch_matches, FilterView, RssError, RssFilter};
use crate::handler::{
    asked, asked_matches, pairs_view, validate_query, Asked, Params, ValidationError, BAD_GATEWAY,
    BAD_REQUEST, NOT_FOUND,
};
use crate::headers::{header_fields, new_headers, no_fields, one_value, set_header, uri_text};
use crate::http_client::{HttpClient, HttpClientError, HttpRequest, HttpResponse};
use crate::request_headers::{
    all_valid, fills_up, filter_request_headers, fixed_view, passed_on, with_fixed,
};
use crate::text::{framed, frames, joined, same_text};
use vstd::prelude::*;
use vstd::string::StringSliceAdditionalSpecFns;

verus! {

pub const OK: u16 = 200;

/// Why a request to the function could not be answered with a feed.
#[derive(Debug)]
#[allow(inconsistent_fields)]
pub enum LambdaHandlerError {
    /// The parameters are not valid.
    Validation(ValidationError),
    /// The headers for the feed's server could not be made.
    RequestBuild { source: http::Error },
    /// The feed could not be fetched.
    SendRequestError { source: RssError },
    /// The body of the response could not be read, with the reason.
    ReceiveRequestError { source: String },
    /// The feed could not be filtered.
    FilterError { source: RssError },
    /// The request came without a path.
    NoPathInContextError,
}

/// The status with which an error is answered: 502 where the fault is on
/// this side of the feed's server, 400 where it is the caller's.
pub open spec fn lambda_status(error: LambdaHandlerError) -> u16 {
    match error {
        LambdaHandlerError::RequestBuild { .. } => BAD_GATEWAY,
        LambdaHandlerError::SendRequestError { .. } => BAD_GATEWAY,
        LambdaHandlerError::ReceiveRequestError { .. } => BAD_GATEWAY,
        _ => BAD_REQUEST,
    }
}

impl LambdaHandlerError {
    /// The status with which the error is answered.
    pub fn status_code(&self) -> (status: u16)
        ensures
            status == lambda_status(*self),
    {
        match self {
            LambdaHandlerError::RequestBuild { .. } => BAD_GATEWAY,
            LambdaHandlerError::SendRequestError { .. } => BAD_GATEWAY,
            LambdaHandlerError::ReceiveRequestError { .. } => BAD_GATEWAY,
            _ => BAD_REQUEST,
        }
    }

    /// Whether `text` says what the error is.
    pub open spec fn says(self, text: Seq<char>) -> bool {
        match self {
            LambdaHandlerError::Validation(source) => source.says(text),
            LambdaHandlerError::RequestBuild { source } => frames(
                "An error occurred while building the request: "@,
                &source,
                ""@,
                text,
            ),
            LambdaHandlerError::SendRequestError { source } => exists|inner: Seq<char>| #[trigger]
                source.says(inner) && text == "An error occurred while handling the request: "@
                    + inner,
            LambdaHandlerError::ReceiveRequestError { source } => text
                == "An error occurred while receiving the request: "@ + source@,
            LambdaHandlerError::FilterError { source } => exists|inner: Seq<char>| #[trigger]
                source.says(inner) && text == "An error occurred while filtering the feed: "@
                    + inner,
            LambdaHandlerError::NoPathInContextError => text
                == "The Lambda context does not contain a path"@,
        }
    }

    /// The error in words.
    pub fn to_string(&self) -> (out: String)
        ensures
            self.says(out@),
    {
        match self {
            LambdaHandlerError::Validation(source) => source.to_string(),
            LambdaHandlerError::RequestBuild { source } => framed(
                "An error occurred while building the request: ",
                source,
                "",
            ),
            LambdaHandlerError::SendRequestError { source } => {
                let inner = source.to_string();
                let out = joined("An error occurred while handling the request: ", inner.as_str());
                assert(source.says(inner@));
                out
            },
            LambdaHandlerError::ReceiveRequestError { source } => joined(
                "An error occurred while receiving the request: ",
                source.as_str(),
            ),
            LambdaHandlerError::FilterError { source } => {
                let inner = source.to_string();
                let out = joined("An error occurred while filtering the feed: ", inner.as_str());
                assert(source.says(inner@));
                out
            },
            LambdaHandlerError::NoPathInContextError => "The Lambda context does not contain a path".to_owned(),
        }
    }
}

/// What the function replies.
#[derive(Debug)]
pub struct LambdaReply {
    pub status_code: i64,
    pub headers: http::HeaderMap,
    pub body: Option<Vec<u8>>,
    /// Whether the body is to be sent in base 64: it is where it was handed
    /// on as it came.
    pub is_base64_encoded: bool,
}

/// Where a request goes, by its path.
#[derive(Debug, Clone, Copy, PartialEq, Eq, Structural)]
pub enum Route {
    /// To the filter: the path is `/`.
    Root,
    /// Nowhere: any other path.
    NotFound,
}

/// Where a request to `path` goes.
pub open spec fn route_to(path: Seq<char>) -> Route {
    if path == "/"@ {
        Route::Root
    } else {
        Route::NotFound
    }
}

/// Where a request goes. A request without a path goes nowhere and is an
/// error.
pub fn route(path: Option<&str>) -> (routed: Result<Route, LambdaHandlerError>)
    ensures
        match path {
            None => routed is Err && routed->Err_0 is NoPathInContextError,
            Some(path) => routed is Ok && routed->Ok_0 == route_to(path@),
        },
{
    match path {
        None => Err(LambdaHandlerError::NoPathInContextError),
        Some(path) => {
            if same_text(path, "/") {
                Ok(Route::Root)
            } else {
                Ok(Route::NotFound)
            }
        },
    }
}

/// The fields of the reply to a request for a path that is not there: it may
/// be cached for a day.
pub open spec fn not_found_fields() -> Map<Seq<char>, Seq<Seq<u8>>> {
    no_fields().insert("cache-control"@, one_value("public, max-age=86400".spec_bytes()))
}

/// Whether `reply` tells that a path is not there: status 404, the body
/// `Not Found`, and leave to cache it for a day.
pub open spec fn is_not_found(reply: LambdaReply) -> bool {
    &&& reply.status_code == NOT_FOUND
    &&& header_fields(reply.headers) == not_found_fields()
    &&& reply.body is Some
    &&& reply.body->0@ == "Not Found".spec_bytes()
    &&& !reply.is_base64_encoded
}

/// The reply to a request for a path that is not there: status 404, the body
/// `Not Found`, and leave to cache it for a day.
pub fn handle_not_found() -> (reply: LambdaReply)
    ensures
        is_not_found(reply),
{
    let mut headers = new_headers();
    proof {
        reveal_strlit("cache-control");
        reveal_strlit("public, max-age=86400");
        assert(crate::headers::header_key("cache-control"@) =~= "cache-control"@);
        assert(vstd::utf8::is_ascii_chars("public, max-age=86400"@));
        vstd::utf8::is_ascii_chars_encode_utf8("public, max-age=86400"@);
    }
    let _ = set_header(&mut headers, "cache-control", "public, max-age=86400");
    LambdaReply {
        status_code: NOT_FOUND as i64,
        headers,
        body: Some(vstd::slice::slice_to_vec("Not Found".as_bytes())),
        is_base64_encoded: false,
    }
}

/// The reply that tells of an error: its status, no headers, and the error
/// in words for a body.
pub fn error_reply(error: &LambdaHandlerError) -> (reply: LambdaReply)
    ensures
        tells_of(*error, reply),
{
    let message = error.to_string();
    let reply = LambdaReply {
        status_code: error.status_code() as i64,
        headers: new_headers(),
        body: Some(vstd::slice::slice_to_vec(message.as_str().as_bytes())),
        is_base64_encoded: false,
    };
    assert(error.says(message@));
    reply
}

/// Whether `reply` is what the function makes of a response that was
/// fetched: one with status 200 has its body filtered, whatever its media
/// type, and any other is handed on as it came, to be sent in base 64.
pub open spec fn reply_matches(
    filter: FilterView,
    response: HttpResponse,
    reply: Result<LambdaReply, LambdaHandlerError>,
) -> bool {
    if response.status == OK {
        match reply {
            Ok(made) => made.status_code == response.status && made.headers == response.headers
                && made.body is Some && !made.is_base64_encoded && body_matches(
                body_outcome(filter, response.body@),
                Ok::<Vec<u8>, RssError>(made.body->0),
            ),
            Err(LambdaHandlerError::FilterError { source }) => body_matches(
                body_outcome(filter, response.body@),
                Err::<Vec<u8>, RssError>(source),
            ),
            Err(_) => false,
        }
    } else {
        reply is Ok && reply->Ok_0.status_code == response.status && reply->Ok_0.headers
            == response.headers && reply->Ok_0.body == Some(response.body)
            && reply->Ok_0.is_base64_encoded
    }
}

/// Makes the reply for a response that was fetched: the body of a response
/// with status 200 is filtered, and any other response is handed on as it
/// came.
pub fn reply_for<C: HttpClient>(rss_filter: &RssFilter<'_, C>, response: HttpResponse) -> (reply:
    Result<LambdaReply, LambdaHandlerError>)
    ensures
        reply_matches(rss_filter.regexes(), response, reply),
{
    let HttpResponse { status, headers, body } = response;
    if status != OK {
        return Ok(
            LambdaReply { status_code: status as i64, headers, body: Some(body), is_base64_encoded: true },
        );
    }
    let unread = HttpResponse { status, headers: new_headers(), body };
    match rss_filter.filter_response(unread) {
        Ok(xml) => Ok(
            LambdaReply {
                status_code: status as i64,
                headers,
                body: Some(xml),
                is_base64_encoded: false,
            },
        ),
        Err(why) => Err(LambdaHandlerError::FilterError { source: why }),
    }
}

/// What becomes of a request to the filter.
pub enum LambdaHandled {
    /// The parameters ask for nothing that can be done.
    Refused(Asked),
    /// A fixed header is not valid.
    NoHeaders,
    /// The feed is fetched with these patterns, from this address.
    Fetched(FilterView, Seq<char>),
}

/// What becomes of a request with the parameters `pairs`.
pub open spec fn lambda_handled(
    pairs: Seq<(Seq<char>, Seq<char>)>,
    fixed: Seq<(Seq<char>, Seq<char>)>,
) -> LambdaHandled {
    match asked(pairs, true) {
        Asked::Valid(feed, filter) => if all_valid(fixed) {
            LambdaHandled::Fetched(filter, feed)
        } else {
            LambdaHandled::NoHeaders
        },
        refused => LambdaHandled::Refused(refused),
    }
}

/// Whether `reply` is what the function makes of the transport's `answer`:
/// a failure to fetch is a `SendRequestError`, and a response is replied to
/// as [`reply_matches`] says.
pub open spec fn answer_matches(
    filter: FilterView,
    answer: Result<HttpResponse, HttpClientError>,
    reply: Result<LambdaReply, LambdaHandlerError>,
) -> bool {
    exists|fetched: Result<HttpResponse, RssError>| #[trigger]
        fetch_matches(answer, fetched) && match fetched {
            Err(failure) => reply is Err && reply->Err_0 == (LambdaHandlerError::SendRequestError {
                source: failure,
            }),
            Ok(response) => reply_matches(filter, response, reply),
        }
}

/// Whether `reply` is what the filter makes of a request with the
/// parameters `pairs` and the headers `headers` that it fetches through
/// `client`.
///
/// Parameters that are not valid are refused. A fixed header that is not
/// valid is a `RequestBuild` error, and so are headers that take no further
/// value before all fixed headers are set, and nothing else is. Else the
/// reply is what [`answer_matches`] says of the answer of `client`.
pub open spec fn handles<C: HttpClient>(
    pairs: Seq<(Seq<char>, Seq<char>)>,
    headers: http::HeaderMap,
    fixed: Seq<(Seq<char>, Seq<char>)>,
    client: C,
    reply: Result<LambdaReply, LambdaHandlerError>,
) -> bool {
    match lambda_handled(pairs, fixed) {
        LambdaHandled::Refused(refused) => reply is Err && reply->Err_0 is Validation
            && asked_matches(refused, Err::<Params, ValidationError>(reply->Err_0->Validation_0)),
        LambdaHandled::NoHeaders => reply is Err && reply->Err_0 is RequestBuild,
        LambdaHandled::Fetched(filter, feed) => if reply is Err && reply->Err_0 is RequestBuild {
            fills_up(header_fields(headers), fixed)
        } else {
            match uri_text(feed) {
                None => reply is Err && reply->Err_0 is SendRequestError
                    && reply->Err_0->SendRequestError_source is HttpClient
                    && reply->Err_0->SendRequestError_source->HttpClient_0 is Request
                    && reply->Err_0->SendRequestError_source->HttpClient_0.detail()
                    == "Failed to build request: "@ + crate::headers::uri_fault(feed),
                Some(target) => exists|
                    request: HttpRequest,
                    answer: Result<HttpResponse, HttpClientError>,
                |
                    request.method is Get && request.url@ == target && header_fields(
                        request.headers,
                    ) == with_fixed(passed_on(header_fields(headers)), fixed)
                        && request.body@.len() == 0 && #[trigger] client.may_answer(request, answer)
                        && answer_matches(filter, answer, reply),
            }
        },
    }
}

/// Whether `reply` tells of `error`: its status, no headers, and the error
/// in words for a body.
pub open spec fn tells_of(error: LambdaHandlerError, reply: LambdaReply) -> bool {
    &&& reply.status_code == lambda_status(error)
    &&& header_fields(reply.headers) == no_fields()
    &&& reply.body is Some
    &&& exists|text: Seq<char>| #[trigger]
        error.says(text) && reply.body->0@ == vstd::utf8::encode_utf8(text)
    &&& !reply.is_base64_encoded
}

/// Answers a request to the filter: reads the parameters, holds back the
/// headers that do not go on, sets the fixed ones, fetches the feed through
/// `client` and makes the reply.
pub fn rss_handler<C: HttpClient>(
    pairs: &Vec<(String, String)>,
    headers: http::HeaderMap,
    fixed: &Vec<(String, String)>,
    client: C,
) -> (reply: Result<LambdaReply, LambdaHandlerError>)
    ensures
        handles(pairs_view(pairs@), headers, fixed_view(fixed@), client, reply),
{
    let params = match validate_query(pairs, true) {
        Ok(params) => params,
        Err(why) => {
            return Err(LambdaHandlerError::Validation(why));
        },
    };
    let passed = match filter_request_headers(headers, fixed) {
        Ok(passed) => passed,
        Err(why) => {
            return Err(LambdaHandlerError::RequestBuild { source: why });
        },
    };
    let filter_regexes = params.regex_params.filter_regexes();
    let rss_filter = RssFilter::new_with_http_client(&filter_regexes, client);
    let response = match rss_filter.fetch(params.url.as_str(), passed) {
        Ok(response) => response,
        Err(why) => {
            return Err(LambdaHandlerError::SendRequestError { source: why });
        },
    };
    reply_for(&rss_filter, response)
}

/// Answers a request to the filter, and where that fails replies with the
/// error.
pub fn handle_root_path<C: HttpClient>(
    pairs: &Vec<(String, String)>,
    headers: http::HeaderMap,
    fixed: &Vec<(String, String)>,
    client: C,
) -> (reply: LambdaReply)
    ensures
        exists|made: Result<LambdaReply, LambdaHandlerError>| #[trigger]
            handles(pairs_view(pairs@), headers, fixed_view(fixed@), client, made) && match made {
                Ok(ready) => reply == ready,
                Err(error) => tells_of(error, reply),
            },
{
    let made = rss_handler(pairs, headers, fixed, client);
    let ghost seen = made;
    let reply = match made {
        Ok(reply) => reply,
        Err(why) => error_reply(&why),
    };
    assert(handles(pairs_view(pairs@), headers, fixed_view(fixed@), client, seen));
    reply
}

/// Answers a request to the function: one for the path `/` goes to the
/// filter, one for any other path is told that it is not there, and one
/// without a path is an error.
pub fn handler<C: HttpClient>(
    path: Option<&str>,
    pairs: &Vec<(String, String)>,
    headers: http::HeaderMap,
    fixed: &Vec<(String, String)>,
    client: C,
) -> (reply: Result<LambdaReply, LambdaHandlerError>)
    ensures
        match path {
            None => reply is Err && reply->Err_0 is NoPathInContextError,
            Some(path) => reply is Ok && match route_to(path@) {
                Route::NotFound => is_not_found(reply->Ok_0),
                Route::Root => exists|made: Result<LambdaReply, LambdaHandlerError>| #[trigger]
                    handles(pairs_view(pairs@), headers, fixed_view(fixed@), client, made)
                        && match made {
                        Ok(ready) => reply->Ok_0 == ready,
                        Err(error) => tells_of(error, reply->Ok_0),
                    },
            },
        },
{
    match route(path) {
        Err(why) => Err(why),
        Ok(Route::Root) => Ok(handle_root_path(pairs, headers, fixed, client)),
        Ok(Route::NotFound) => Ok(handle_not_found()),
    }
}

} // verus!
