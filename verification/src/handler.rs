//! What a front end decides before and after the pipeline runs: whether a
//! request is for it, what its parameters ask for, and with which status an
//! error is answered.

use crate::feed::compiled_regex;
use crate::filter::{FilterRegexes, FilterView, RssError};
use crate::headers::{header_fields, new_headers, no_fields, one_value, set_header};
use crate::http_client::{HttpResponse, Method};
use crate::query::{percent_decode, percent_decoded, query_pairs, url_query};
use crate::telemetry::TracingError;
use crate::text::{framed, frames, joined, same_text};
use vstd::prelude::*;
use vstd::string::StringSliceAdditionalSpecFns;

verus! {

pub const BAD_GATEWAY: u16 = 502;

pub const BAD_REQUEST: u16 = 400;

pub const INTERNAL_SERVER_ERROR: u16 = 500;

pub const NOT_FOUND: u16 = 404;

pub const METHOD_NOT_ALLOWED: u16 = 405;

pub const PAYLOAD_TOO_LARGE: u16 = 413;

pub const UNSUPPORTED_MEDIA_TYPE: u16 = 415;

/// Why a request is not for this service.
#[derive(Debug, Clone, Copy, PartialEq, Eq, Structural)]
pub enum RequestValidationError {
    /// The path is not `/`.
    NotFound,
    /// The method is not GET.
    MethodNotAllowed,
}

impl RequestValidationError {
    /// The status with which the error is answered.
    pub open spec fn status(self) -> u16 {
        match self {
            RequestValidationError::NotFound => NOT_FOUND,
            RequestValidationError::MethodNotAllowed => METHOD_NOT_ALLOWED,
        }
    }

    /// The error in words.
    pub open spec fn text(self) -> Seq<char> {
        match self {
            RequestValidationError::NotFound => "Not Found"@,
            RequestValidationError::MethodNotAllowed => "Method Not Allowed"@,
        }
    }

    /// The error in words.
    pub fn to_string(&self) -> (out: String)
        ensures
            out@ == self.text(),
    {
        match self {
            RequestValidationError::NotFound => "Not Found".to_owned(),
            RequestValidationError::MethodNotAllowed => "Method Not Allowed".to_owned(),
        }
    }

    /// The status with which the error is answered: 404 for a wrong path,
    /// 405 for a wrong method.
    pub fn status_code(&self) -> (status: u16)
        ensures
            status == self.status(),
    {
        match self {
            RequestValidationError::NotFound => NOT_FOUND,
            RequestValidationError::MethodNotAllowed => METHOD_NOT_ALLOWED,
        }
    }

    /// The response that answers the error: its status, the media type
    /// `text/plain`, and the error in words for a body.
    pub fn to_response(&self) -> (response: HttpResponse)
        ensures
            response.status == self.status(),
            response.body@ == vstd::utf8::encode_utf8(self.text()),
            header_fields(response.headers) == plain_text_fields(),
    {
        let message = self.to_string();
        plain_text_response(self.status_code(), message.as_str())
    }
}

/// The fields of a response that is plain text and nothing else.
pub open spec fn plain_text_fields() -> Map<Seq<char>, Seq<Seq<u8>>> {
    no_fields().insert("content-type"@, one_value("text/plain".spec_bytes()))
}

/// A response with a status, the media type `text/plain` and a text for its
/// body.
pub fn plain_text_response(status: u16, message: &str) -> (response: HttpResponse)
    ensures
        response.status == status,
        response.body@ == message.spec_bytes(),
        header_fields(response.headers) == plain_text_fields(),
{
    let mut headers = new_headers();
    proof {
        crate::headers::lemma_content_type_name();
        reveal_strlit("text/plain");
        assert(vstd::utf8::is_ascii_chars("text/plain"@));
        vstd::utf8::is_ascii_chars_encode_utf8("text/plain"@);
    }
    let _ = set_header(&mut headers, "content-type", "text/plain");
    HttpResponse { status, headers, body: vstd::slice::slice_to_vec(message.as_bytes()) }
}

/// Accepts a request for the path `/` with the method GET. A wrong path is
/// told before a wrong method.
pub fn validate_request(path: &str, method: &Method) -> (checked: Result<
    (),
    RequestValidationError,
>)
    ensures
        path@ != "/"@ ==> checked == Err::<(), RequestValidationError>(
            RequestValidationError::NotFound,
        ),
        path@ == "/"@ && !(method is Get) ==> checked == Err::<(), RequestValidationError>(
            RequestValidationError::MethodNotAllowed,
        ),
        path@ == "/"@ && method is Get ==> checked is Ok,
{
    if !same_text(path, "/") {
        return Err(RequestValidationError::NotFound);
    }
    match method {
        Method::Get => Ok(()),
        _ => Err(RequestValidationError::MethodNotAllowed),
    }
}

/// Why the parameters of a request ask for nothing that can be done.
#[derive(Debug)]
#[allow(inconsistent_fields)]
pub enum ValidationError {
    /// The value of a parameter is no UTF-8 once its escapes are resolved.
    MalformedParameter { name: &'static str, source: std::string::FromUtf8Error },
    /// The value of a parameter is no pattern.
    InvalidRegex { name: &'static str, source: regex::Error },
    /// Neither a feed nor a filter is given.
    NoParametersProvided,
    /// A feed is given, but no filter.
    NoFiltersProvided,
    /// The address of the request is no URL.
    UrlParseError { source: url::ParseError },
    /// A filter is given, but no feed.
    NoUrlProvided,
}

/// Why a feed could not be processed.
#[derive(Debug)]
pub enum ProcessingError {
    /// The pipeline failed.
    Rss(RssError),
    /// A request could not be built.
    RequestBuild { source: http::Error },
}

/// Why a request could not be answered with a feed.
#[derive(Debug)]
pub enum RssHandlerError {
    /// The parameters are not valid.
    Validation(ValidationError),
    /// The feed could not be processed.
    Processing(ProcessingError),
    /// The platform failed, with its message.
    Worker(String),
    /// Telemetry could not be set up.
    Tracing(TracingError),
}

impl ValidationError {
    /// Whether `text` says what the error is.
    pub open spec fn says(self, text: Seq<char>) -> bool {
        match self {
            ValidationError::MalformedParameter { name, source } => frames(
                "the parameter "@ + name@ + " could not be decoded: "@,
                &source,
                ""@,
                text,
            ),
            ValidationError::InvalidRegex { name, source } => frames(
                "the regex for "@ + name@ + " is invalid: "@,
                &source,
                ""@,
                text,
            ),
            ValidationError::NoParametersProvided => text
                == "A url and at least one of title_filter_regex, guid_filter_regex, or link_filter_regex must be provided"@,
            ValidationError::NoFiltersProvided => text
                == "At least one of title_filter_regex, guid_filter_regex, or link_filter_regex must be provided"@,
            ValidationError::UrlParseError { source } => frames(
                "The provided URL is malformed: "@,
                &source,
                ""@,
                text,
            ),
            ValidationError::NoUrlProvided => text == "A URL must be provided"@,
        }
    }

    /// The error in words.
    pub fn to_string(&self) -> (out: String)
        ensures
            self.says(out@),
    {
        match self {
            ValidationError::MalformedParameter { name, source } => {
                let start = joined("the parameter ", name);
                let head = joined(start.as_str(), " could not be decoded: ");
                framed(head.as_str(), source, "")
            },
            ValidationError::InvalidRegex { name, source } => {
                let start = joined("the regex for ", name);
                let head = joined(start.as_str(), " is invalid: ");
                framed(head.as_str(), source, "")
            },
            ValidationError::NoParametersProvided => "A url and at least one of title_filter_regex, guid_filter_regex, or link_filter_regex must be provided".to_owned(),
            ValidationError::NoFiltersProvided => "At least one of title_filter_regex, guid_filter_regex, or link_filter_regex must be provided".to_owned(),
            ValidationError::UrlParseError { source } => framed(
                "The provided URL is malformed: ",
                source,
                "",
            ),
            ValidationError::NoUrlProvided => "A URL must be provided".to_owned(),
        }
    }
}

impl ProcessingError {
    /// Whether `text` says what the error is.
    pub open spec fn says(self, text: Seq<char>) -> bool {
        match self {
            ProcessingError::Rss(source) => exists|inner: Seq<char>| #[trigger]
                source.says(inner) && text == "RSS processing failed: "@ + inner,
            ProcessingError::RequestBuild { source } => frames(
                "HTTP request building failed: "@,
                &source,
                ""@,
                text,
            ),
        }
    }

    /// The error in words.
    pub fn to_string(&self) -> (out: String)
        ensures
            self.says(out@),
    {
        match self {
            ProcessingError::Rss(source) => {
                let inner = source.to_string();
                let out = joined("RSS processing failed: ", inner.as_str());
                assert(source.says(inner@));
                out
            },
            ProcessingError::RequestBuild { source } => framed(
                "HTTP request building failed: ",
                source,
                "",
            ),
        }
    }
}

impl RssHandlerError {
    /// Whether `text` says what the error is.
    pub open spec fn says(self, text: Seq<char>) -> bool {
        match self {
            RssHandlerError::Validation(source) => exists|inner: Seq<char>| #[trigger]
                source.says(inner) && text == "Request validation failed: "@ + inner,
            RssHandlerError::Processing(source) => exists|inner: Seq<char>| #[trigger]
                source.says(inner) && text == "RSS processing failed: "@ + inner,
            RssHandlerError::Worker(message) => text == "Worker error: "@ + message@,
            RssHandlerError::Tracing(source) => text == "Tracing error: "@ + source.text(),
        }
    }

    /// The error in words.
    pub fn to_string(&self) -> (out: String)
        ensures
            self.says(out@),
    {
        match self {
            RssHandlerError::Validation(source) => {
                let inner = source.to_string();
                let out = joined("Request validation failed: ", inner.as_str());
                assert(source.says(inner@));
                out
            },
            RssHandlerError::Processing(source) => {
                let inner = source.to_string();
                let out = joined("RSS processing failed: ", inner.as_str());
                assert(source.says(inner@));
                out
            },
            RssHandlerError::Worker(message) => joined("Worker error: ", message.as_str()),
            RssHandlerError::Tracing(source) => {
                let inner = source.to_string();
                joined("Tracing error: ", inner.as_str())
            },
        }
    }

    /// The response that answers the error: the status that
    /// [`handler_status`] gives it, the media type `text/plain`, and the
    /// error in words for a body.
    pub fn to_response(&self) -> (response: HttpResponse)
        ensures
            response.status == handler_status(*self),
            header_fields(response.headers) == plain_text_fields(),
            exists|text: Seq<char>| #[trigger]
                self.says(text) && response.body@ == vstd::utf8::encode_utf8(text),
    {
        let message = self.to_string();
        let response = plain_text_response(self.status_code(), message.as_str());
        assert(self.says(message@));
        response
    }
}

/// The status with which a failure of the pipeline is answered: 502 where
/// the upstream could not be reached, 413 for a feed that is too large, 415
/// for a wrong media type, 400 for a body that is no feed, 500 for what
/// failed inside.
pub open spec fn rss_status(error: RssError) -> u16 {
    match error {
        RssError::Http(_) => BAD_GATEWAY,
        RssError::FeedTooLarge { .. } => PAYLOAD_TOO_LARGE,
        RssError::HttpClient(_) => BAD_GATEWAY,
        RssError::InvalidContentType { .. } => UNSUPPORTED_MEDIA_TYPE,
        RssError::IO(_) => INTERNAL_SERVER_ERROR,
        RssError::RSSParse(_) => BAD_REQUEST,
        RssError::Serialize(_) => INTERNAL_SERVER_ERROR,
        RssError::UTF8(_) => INTERNAL_SERVER_ERROR,
    }
}

/// The status with which an error is answered: 400 for parameters that are
/// not valid, 500 for a failure of the platform or of telemetry, and for a
/// failure of the pipeline what [`rss_status`] says.
pub open spec fn handler_status(error: RssHandlerError) -> u16 {
    match error {
        RssHandlerError::Processing(ProcessingError::RequestBuild { .. }) => BAD_GATEWAY,
        RssHandlerError::Processing(ProcessingError::Rss(failure)) => rss_status(failure),
        RssHandlerError::Tracing(_) => INTERNAL_SERVER_ERROR,
        RssHandlerError::Validation(_) => BAD_REQUEST,
        RssHandlerError::Worker(_) => INTERNAL_SERVER_ERROR,
    }
}

impl RssHandlerError {
    /// The status with which the error is answered.
    pub fn status_code(&self) -> (status: u16)
        ensures
            status == handler_status(*self),
    {
        match self {
            RssHandlerError::Processing(processing) => match processing {
                ProcessingError::RequestBuild { .. } => BAD_GATEWAY,
                ProcessingError::Rss(failure) => match failure {
                    RssError::Http(_) => BAD_GATEWAY,
                    RssError::FeedTooLarge { .. } => PAYLOAD_TOO_LARGE,
                    RssError::HttpClient(_) => BAD_GATEWAY,
                    RssError::InvalidContentType { .. } => UNSUPPORTED_MEDIA_TYPE,
                    RssError::IO(_) => INTERNAL_SERVER_ERROR,
                    RssError::RSSParse(_) => BAD_REQUEST,
                    RssError::Serialize(_) => INTERNAL_SERVER_ERROR,
                    RssError::UTF8(_) => INTERNAL_SERVER_ERROR,
                },
            },
            RssHandlerError::Tracing(_) => INTERNAL_SERVER_ERROR,
            RssHandlerError::Validation(_) => BAD_REQUEST,
            RssHandlerError::Worker(_) => INTERNAL_SERVER_ERROR,
        }
    }
}

/// The patterns that the parameters of a request ask to filter by.
#[derive(Debug)]
pub struct RegexParams {
    pub title_regexes: Vec<regex::Regex>,
    pub guid_regexes: Vec<regex::Regex>,
    pub link_regexes: Vec<regex::Regex>,
}

impl RegexParams {
    /// The patterns as a filter.
    pub open spec fn filter_view(self) -> FilterView {
        FilterView {
            title: self.title_regexes@,
            guid: self.guid_regexes@,
            link: self.link_regexes@,
        }
    }

    /// The patterns in words, for a log line: the texts they were compiled
    /// from, by field.
    pub fn describe(&self) -> (text: String)
        ensures
            text@ == "title: ["@ + sources_joined(self.title_regexes@) + "], guid: ["@
                + sources_joined(self.guid_regexes@) + "], link: ["@ + sources_joined(
                self.link_regexes@,
            ) + "]"@,
    {
        let title = join_sources(&self.title_regexes);
        let guid = join_sources(&self.guid_regexes);
        let link = join_sources(&self.link_regexes);
        let text = joined("title: [", title.as_str());
        let text = joined(text.as_str(), "], guid: [");
        let text = joined(text.as_str(), guid.as_str());
        let text = joined(text.as_str(), "], link: [");
        let text = joined(text.as_str(), link.as_str());
        joined(text.as_str(), "]")
    }

    /// The filter that borrows these patterns.
    pub fn filter_regexes<'a>(&'a self) -> (filter: FilterRegexes<'a>)
        ensures
            filter@ == self.filter_view(),
    {
        FilterRegexes {
            title_regexes: self.title_regexes.as_slice(),
            guid_regexes: self.guid_regexes.as_slice(),
            link_regexes: self.link_regexes.as_slice(),
        }
    }
}

/// The texts that `patterns` were compiled from, with a comma and a space
/// between one and the next.
pub open spec fn sources_joined(patterns: Seq<regex::Regex>) -> Seq<char>
    decreases patterns.len(),
{
    if patterns.len() == 0 {
        Seq::empty()
    } else if patterns.len() == 1 {
        crate::feed::regex_source(patterns[0])
    } else {
        sources_joined(patterns.drop_last()) + ", "@ + crate::feed::regex_source(patterns.last())
    }
}

/// Writes the texts that `patterns` were compiled from, with a comma and a
/// space between one and the next.
pub fn join_sources(patterns: &Vec<regex::Regex>) -> (text: String)
    ensures
        text@ == sources_joined(patterns@),
{
    let mut text = String::new();
    let mut i: usize = 0;
    while i < patterns.len()
        invariant
            i <= patterns.len(),
            text@ == sources_joined(patterns@.take(i as int)),
        decreases patterns.len() - i,
    {
        proof {
            assert(patterns@.take(i + 1).drop_last() == patterns@.take(i as int));
            assert(patterns@.take(i + 1).last() == patterns@[i as int]);
            if i == 0 {
                assert(patterns@.take(1)[0] == patterns@[0]);
                assert(Seq::<char>::empty() + crate::feed::regex_source(patterns@[0])
                    =~= crate::feed::regex_source(patterns@[0]));
            }
        }
        if i > 0 {
            text = joined(text.as_str(), ", ");
        }
        text = joined(text.as_str(), patterns[i].as_str());
        i = i + 1;
    }
    proof {
        assert(patterns@.take(patterns@.len() as int) == patterns@);
    }
    text
}

/// What the parameters of a request ask for: the feed to fetch and the
/// patterns to filter it by.
#[derive(Debug)]
pub struct Params {
    pub regex_params: RegexParams,
    pub url: String,
}

/// What becomes of the values of one parameter.
pub enum Compiled {
    /// Every value is a pattern: the patterns, in the order of the values.
    Patterns(Seq<regex::Regex>),
    /// A value is no UTF-8 once its escapes are resolved.
    Malformed,
    /// A value is no pattern.
    Invalid,
}

/// What becomes of the values that `pairs` gives under `key`, taken in
/// their order: each has its percent escapes resolved and is compiled as a
/// pattern, and the first that fails decides.
pub open spec fn compile_all(pairs: Seq<(Seq<char>, Seq<char>)>, key: Seq<char>) -> Compiled
    decreases pairs.len(),
{
    if pairs.len() == 0 {
        Compiled::Patterns(Seq::empty())
    } else {
        match compile_all(pairs.drop_last(), key) {
            Compiled::Patterns(before) => if pairs.last().0 != key {
                Compiled::Patterns(before)
            } else {
                match percent_decoded(pairs.last().1) {
                    None => Compiled::Malformed,
                    Some(source) => match compiled_regex(source) {
                        None => Compiled::Invalid,
                        Some(pattern) => Compiled::Patterns(before.push(pattern)),
                    },
                }
            },
            failed => failed,
        }
    }
}

/// The value of the first parameter named `url`, if there is one.
pub open spec fn feed_url(pairs: Seq<(Seq<char>, Seq<char>)>) -> Option<Seq<char>>
    decreases pairs.len(),
{
    if pairs.len() == 0 {
        None
    } else if pairs.first().0 == "url"@ {
        Some(pairs.first().1)
    } else {
        feed_url(pairs.drop_first())
    }
}

/// The feed that `pairs` name: the value of the first parameter named `url`,
/// with its percent escapes resolved where `decode` asks for it.
pub open spec fn asked_url(pairs: Seq<(Seq<char>, Seq<char>)>, decode: bool) -> Option<Option<Seq<char>>> {
    match feed_url(pairs) {
        None => Some(None),
        Some(url) => if decode {
            match percent_decoded(url) {
                Some(decoded) => Some(Some(decoded)),
                None => None,
            }
        } else {
            Some(Some(url))
        },
    }
}

/// What the parameters of a query ask for.
pub enum Asked {
    /// A value of the named parameter is no UTF-8.
    Malformed(Seq<char>),
    /// A value of the named parameter is no pattern.
    Invalid(Seq<char>),
    NoParameters,
    NoFilters,
    NoUrl,
    /// The feed, and the patterns for titles, GUIDs and links.
    Valid(Seq<char>, FilterView),
}

/// What `pairs` ask for. The title patterns are read first, then those for
/// GUIDs, then those for links, then the feed, and the first value that
/// fails decides. Then at least one pattern and a feed must be there.
pub open spec fn asked(pairs: Seq<(Seq<char>, Seq<char>)>, decode_url: bool) -> Asked {
    match compile_all(pairs, "title_filter_regex"@) {
        Compiled::Malformed => Asked::Malformed("title_filter_regex"@),
        Compiled::Invalid => Asked::Invalid("title_filter_regex"@),
        Compiled::Patterns(title) => match compile_all(pairs, "guid_filter_regex"@) {
            Compiled::Malformed => Asked::Malformed("guid_filter_regex"@),
            Compiled::Invalid => Asked::Invalid("guid_filter_regex"@),
            Compiled::Patterns(guid) => match compile_all(pairs, "link_filter_regex"@) {
                Compiled::Malformed => Asked::Malformed("link_filter_regex"@),
                Compiled::Invalid => Asked::Invalid("link_filter_regex"@),
                Compiled::Patterns(link) => {
                    let filters = title.len() + guid.len() + link.len() > 0;
                    match asked_url(pairs, decode_url) {
                        None => Asked::Malformed("url"@),
                        Some(None) => if filters {
                            Asked::NoUrl
                        } else {
                            Asked::NoParameters
                        },
                        Some(Some(url)) => if filters {
                            Asked::Valid(url, FilterView { title, guid, link })
                        } else {
                            Asked::NoFilters
                        },
                    }
                },
            },
        },
    }
}

/// Whether `result` is what `outcome` asks for.
pub open spec fn asked_matches(outcome: Asked, result: Result<Params, ValidationError>) -> bool {
    match outcome {
        Asked::Malformed(name) => result is Err && result->Err_0 is MalformedParameter
            && result->Err_0->MalformedParameter_name@ == name,
        Asked::Invalid(name) => result is Err && result->Err_0 is InvalidRegex
            && result->Err_0->InvalidRegex_name@ == name,
        Asked::NoParameters => result is Err && result->Err_0 is NoParametersProvided,
        Asked::NoFilters => result is Err && result->Err_0 is NoFiltersProvided,
        Asked::NoUrl => result is Err && result->Err_0 is NoUrlProvided,
        Asked::Valid(url, filter) => result is Ok && result->Ok_0.url@ == url
            && result->Ok_0.regex_params.filter_view() == filter,
    }
}

/// Whether `result` is what `outcome` asks for, for the parameter `key`.
pub open spec fn compiled_matches(
    outcome: Compiled,
    key: Seq<char>,
    result: Result<Vec<regex::Regex>, ValidationError>,
) -> bool {
    match outcome {
        Compiled::Patterns(patterns) => result is Ok && result->Ok_0@ == patterns,
        Compiled::Malformed => result is Err && result->Err_0 is MalformedParameter
            && result->Err_0->MalformedParameter_name@ == key,
        Compiled::Invalid => result is Err && result->Err_0 is InvalidRegex
            && result->Err_0->InvalidRegex_name@ == key,
    }
}

/// Compiles the values that `pairs` gives under `key`: each has its percent
/// escapes resolved and is compiled as a pattern. The first value that fails
/// ends it.
pub fn decode_and_compile_regex(pairs: &Vec<(String, String)>, key: &'static str) -> (result:
    Result<Vec<regex::Regex>, ValidationError>)
    ensures
        compiled_matches(compile_all(pairs_view(pairs@), key@), key@, result),
{
    let mut patterns: Vec<regex::Regex> = Vec::new();
    let mut i: usize = 0;
    let ghost all = pairs_view(pairs@);
    while i < pairs.len()
        invariant
            i <= pairs.len(),
            all == pairs_view(pairs@),
            compile_all(all.take(i as int), key@) == Compiled::Patterns(patterns@),
        decreases pairs.len() - i,
    {
        proof {
            assert(all.take(i + 1).drop_last() == all.take(i as int));
            assert(all.take(i + 1).last() == (pairs@[i as int].0@, pairs@[i as int].1@));
        }
        if same_text(pairs[i].0.as_str(), key) {
            let source = match percent_decode(pairs[i].1.as_str()) {
                Ok(source) => source,
                Err(why) => {
                    proof {
                        lemma_failure_stays(all, key@, i + 1);
                    }
                    return Err(ValidationError::MalformedParameter { name: key, source: why });
                },
            };
            match regex::Regex::new(source.as_str()) {
                Ok(pattern) => {
                    patterns.push(pattern);
                },
                Err(why) => {
                    proof {
                        lemma_failure_stays(all, key@, i + 1);
                    }
                    return Err(ValidationError::InvalidRegex { name: key, source: why });
                },
            }
        }
        i = i + 1;
    }
    proof {
        assert(all.take(all.len() as int) == all);
    }
    Ok(patterns)
}

/// The parameters of a query as plain values.
pub open spec fn pairs_view(pairs: Seq<(String, String)>) -> Seq<(Seq<char>, Seq<char>)> {
    pairs.map_values(|pair: (String, String)| (pair.0@, pair.1@))
}

/// Once the first `n` values have failed, all of them fail in the same way.
pub proof fn lemma_failure_stays(pairs: Seq<(Seq<char>, Seq<char>)>, key: Seq<char>, n: int)
    requires
        0 <= n <= pairs.len(),
        !(compile_all(pairs.take(n), key) is Patterns),
    ensures
        compile_all(pairs, key) == compile_all(pairs.take(n), key),
    decreases pairs.len() - n,
{
    if n < pairs.len() {
        assert(pairs.take(n + 1).drop_last() == pairs.take(n));
        lemma_failure_stays(pairs, key, n + 1);
    } else {
        assert(pairs.take(n) == pairs);
    }
}

/// Reads what the parameters of a query ask for, taking the value of `url`
/// as it stands.
pub fn validate_pairs(pairs: &Vec<(String, String)>) -> (result: Result<Params, ValidationError>)
    ensures
        asked_matches(asked(pairs_view(pairs@), false), result),
{
    validate_query(pairs, false)
}

/// Reads what the parameters of a query ask for. Where `decode_url` is set,
/// the value of `url` has its percent escapes resolved as the patterns have.
pub fn validate_query(pairs: &Vec<(String, String)>, decode_url: bool) -> (result: Result<
    Params,
    ValidationError,
>)
    ensures
        asked_matches(asked(pairs_view(pairs@), decode_url), result),
{
    let title_regexes = match decode_and_compile_regex(pairs, "title_filter_regex") {
        Ok(patterns) => patterns,
        Err(why) => {
            return Err(why);
        },
    };
    let guid_regexes = match decode_and_compile_regex(pairs, "guid_filter_regex") {
        Ok(patterns) => patterns,
        Err(why) => {
            return Err(why);
        },
    };
    let link_regexes = match decode_and_compile_regex(pairs, "link_filter_regex") {
        Ok(patterns) => patterns,
        Err(why) => {
            return Err(why);
        },
    };
    let url = match find_feed_url(pairs) {
        None => None,
        Some(url) => {
            if decode_url {
                match percent_decode(url.as_str()) {
                    Ok(decoded) => Some(decoded),
                    Err(why) => {
                        return Err(ValidationError::MalformedParameter { name: "url", source: why });
                    },
                }
            } else {
                Some(url)
            }
        },
    };
    let any_filters_provided = title_regexes.len() > 0 || guid_regexes.len() > 0
        || link_regexes.len() > 0;
    match url {
        None => {
            if any_filters_provided {
                Err(ValidationError::NoUrlProvided)
            } else {
                Err(ValidationError::NoParametersProvided)
            }
        },
        Some(url) => {
            if any_filters_provided {
                Ok(Params { regex_params: RegexParams { title_regexes, guid_regexes, link_regexes }, url })
            } else {
                Err(ValidationError::NoFiltersProvided)
            }
        },
    }
}

/// The value of the first parameter named `url`, if there is one.
pub fn find_feed_url(pairs: &Vec<(String, String)>) -> (url: Option<String>)
    ensures
        string_view(url) == feed_url(pairs_view(pairs@)),
{
    let ghost all = pairs_view(pairs@);
    let mut i: usize = 0;
    proof {
        assert(all.skip(0) == all);
    }
    while i < pairs.len()
        invariant
            i <= pairs.len(),
            all == pairs_view(pairs@),
            feed_url(all) == feed_url(all.skip(i as int)),
        decreases pairs.len() - i,
    {
        proof {
            assert(all.skip(i as int).drop_first() == all.skip(i + 1));
            assert(all.skip(i as int).first() == (pairs@[i as int].0@, pairs@[i as int].1@));
        }
        if same_text(pairs[i].0.as_str(), "url") {
            return Some(pairs[i].1.clone());
        }
        i = i + 1;
    }
    None
}

/// A text that may be absent, as a plain value.
pub open spec fn string_view(value: Option<String>) -> Option<Seq<char>> {
    crate::text::string_of(value)
}

/// Reads what the query of `url` asks for.
pub fn validate_parameters(url: &url::Url) -> (result: Result<Params, ValidationError>)
    ensures
        asked_matches(asked(url_query(*url), false), result),
{
    let pairs = query_pairs(url);
    proof {
        assert(pairs_view(pairs@) =~= url_query(*url));
    }
    validate_pairs(&pairs)
}

/// Reads what a request asks for from its address: the address must be a
/// URL, and its query is read as [`validate_parameters`] reads it.
pub fn read_parameters(address: &str) -> (result: Result<Params, ValidationError>)
    ensures
        match crate::query::parsed_url(address@) {
            None => result is Err && result->Err_0 is UrlParseError,
            Some(url) => asked_matches(asked(url_query(url), false), result),
        },
{
    match url::Url::parse(address) {
        Ok(url) => validate_parameters(&url),
        Err(why) => Err(ValidationError::UrlParseError { source: why }),
    }
}

/// What becomes of a request for a filtered feed.
pub enum Handled {
    /// The address of the request is no URL.
    NoUrl,
    /// The parameters ask for nothing that can be done.
    Refused(Asked),
    /// A fixed header is not valid.
    NoHeaders,
    /// The feed is fetched with these patterns, from this address.
    Fetched(FilterView, Seq<char>),
}

/// What becomes of a request to `address`: its parameters are read, and
/// where they are valid the feed is fetched.
pub open spec fn handled(address: Seq<char>, fixed: Seq<(Seq<char>, Seq<char>)>) -> Handled {
    match crate::query::parsed_url(address) {
        None => Handled::NoUrl,
        Some(url) => match asked(url_query(url), false) {
            Asked::Valid(feed, filter) => if crate::request_headers::all_valid(fixed) {
                Handled::Fetched(filter, feed)
            } else {
                Handled::NoHeaders
            },
            refused => Handled::Refused(refused),
        },
    }
}

/// Whether `result` is how a handler hands on what the pipeline made:
/// a response as it is, a failure as a `Processing` error.
pub open spec fn hands_on(
    made: Result<HttpResponse, RssError>,
    result: Result<HttpResponse, RssHandlerError>,
) -> bool {
    match made {
        Ok(response) => result is Ok && result->Ok_0 == response,
        Err(failure) => result is Err && result->Err_0 == RssHandlerError::Processing(
            ProcessingError::Rss(failure),
        ),
    }
}

/// What a front end sends for a request: what the parameters ask for, and
/// the request that fetches the feed.
#[derive(Debug)]
pub struct Planned {
    pub params: Params,
    pub request: crate::http_client::HttpRequest,
}

/// Whether `plan` is what a request to `address` with the headers `headers`
/// comes to before anything is sent.
///
/// An address that is no URL and parameters that are not valid are refused.
/// A fixed header that is not valid is a `RequestBuild` error, and so are
/// headers that take no further value before all fixed headers are set, and
/// nothing else is. An address of the feed that is none is the `Request`
/// error of the pipeline. Else the plan holds the patterns and a GET for the
/// feed with the headers that go on.
pub open spec fn plans(
    address: Seq<char>,
    headers: http::HeaderMap,
    fixed: Seq<(Seq<char>, Seq<char>)>,
    plan: Result<Planned, RssHandlerError>,
) -> bool {
    match handled(address, fixed) {
        Handled::NoUrl => plan is Err && plan->Err_0 is Validation
            && plan->Err_0->Validation_0 is UrlParseError,
        Handled::Refused(refused) => plan is Err && plan->Err_0 is Validation && asked_matches(
            refused,
            Err::<Params, ValidationError>(plan->Err_0->Validation_0),
        ),
        Handled::NoHeaders => plan is Err && plan->Err_0 is Processing
            && plan->Err_0->Processing_0 is RequestBuild,
        Handled::Fetched(filter, feed) => if plan is Err && plan->Err_0 is Processing
            && plan->Err_0->Processing_0 is RequestBuild {
            crate::request_headers::fills_up(header_fields(headers), fixed)
        } else {
            match crate::headers::uri_text(feed) {
                None => plan is Err && plan->Err_0 is Processing && plan->Err_0->Processing_0 is Rss
                    && plan->Err_0->Processing_0->Rss_0 is HttpClient
                    && plan->Err_0->Processing_0->Rss_0->HttpClient_0 is Request
                    && plan->Err_0->Processing_0->Rss_0->HttpClient_0.detail()
                    == "Failed to build request: "@ + crate::headers::uri_fault(feed),
                Some(target) => plan is Ok && plan->Ok_0.params.url@ == feed
                    && plan->Ok_0.params.regex_params.filter_view() == filter
                    && plan->Ok_0.request.method is Get && plan->Ok_0.request.url@ == target
                    && header_fields(plan->Ok_0.request.headers)
                    == crate::request_headers::with_fixed(
                    crate::request_headers::passed_on(header_fields(headers)),
                    fixed,
                ) && plan->Ok_0.request.body@.len() == 0,
            }
        },
    }
}

/// Whether `result` is how a front end hands on what the pipeline makes of
/// the transport's `answer` with the patterns `filter`.
pub open spec fn concludes(
    filter: FilterView,
    answer: Result<HttpResponse, crate::http_client::HttpClientError>,
    result: Result<HttpResponse, RssHandlerError>,
) -> bool {
    exists|made: Result<HttpResponse, RssError>| #[trigger]
        crate::filter::pipeline_matches(filter, answer, made) && hands_on(made, result)
}

/// Whether `result` is the answer to a request to `address` with the
/// headers `headers`, for a front end that fetches through `client`: where
/// the request comes to nothing before anything is sent, that failure; else
/// what the pipeline makes of an answer of `client` to the planned request.
pub open spec fn serves<C: crate::http_client::HttpClient>(
    address: Seq<char>,
    headers: http::HeaderMap,
    fixed: Seq<(Seq<char>, Seq<char>)>,
    client: C,
    result: Result<HttpResponse, RssHandlerError>,
) -> bool {
    exists|plan: Result<Planned, RssHandlerError>| #[trigger]
        plans(address, headers, fixed, plan) && match plan {
            Err(refused) => result is Err && result->Err_0 == refused,
            Ok(planned) => exists|
                answer: Result<HttpResponse, crate::http_client::HttpClientError>,
            | #[trigger]
                client.may_answer(planned.request, answer) && concludes(
                    planned.params.regex_params.filter_view(),
                    answer,
                    result,
                ),
        }
}

/// Reads what a request asks for and makes the request that fetches the
/// feed: the parameters come from the address of the request, the headers
/// that do not go on are held back and the fixed ones are set. Nothing is
/// sent.
pub fn plan_request(address: &str, headers: http::HeaderMap, fixed: &Vec<(String, String)>) -> (plan:
    Result<Planned, RssHandlerError>)
    ensures
        plans(address@, headers, crate::request_headers::fixed_view(fixed@), plan),
{
    let params = match read_parameters(address) {
        Ok(params) => params,
        Err(why) => {
            return Err(RssHandlerError::Validation(why));
        },
    };
    let passed = match crate::request_headers::filter_request_headers(headers, fixed) {
        Ok(passed) => passed,
        Err(why) => {
            return Err(RssHandlerError::Processing(ProcessingError::RequestBuild { source: why }));
        },
    };
    match crate::filter::build_request(params.url.as_str(), passed) {
        Ok(request) => Ok(Planned { params, request }),
        Err(why) => Err(RssHandlerError::Processing(ProcessingError::Rss(why))),
    }
}

/// Makes the answer to a request from the answer of the transport: the
/// response is guarded and filtered with the patterns of `params`, and a
/// failure of the pipeline is handed on as a `Processing` error.
pub fn conclude(
    params: &Params,
    answer: Result<HttpResponse, crate::http_client::HttpClientError>,
) -> (result: Result<HttpResponse, RssHandlerError>)
    ensures
        concludes(params.regex_params.filter_view(), answer, result),
{
    let filter_regexes = params.regex_params.filter_regexes();
    let made = filter_regexes.finish(answer);
    let ghost seen = made;
    let result = match made {
        Ok(response) => Ok(response),
        Err(why) => Err(RssHandlerError::Processing(ProcessingError::Rss(why))),
    };
    proof {
        assert(crate::filter::pipeline_matches(params.regex_params.filter_view(), answer, seen)
            && hands_on(seen, result));
    }
    result
}

/// Answers a request for a filtered feed: plans the request, sends it
/// through `client` and makes the answer from what comes back.
pub fn rss_handler<C: crate::http_client::HttpClient>(
    address: &str,
    headers: http::HeaderMap,
    fixed: &Vec<(String, String)>,
    client: C,
) -> (result: Result<HttpResponse, RssHandlerError>)
    ensures
        serves(address@, headers, crate::request_headers::fixed_view(fixed@), client, result),
{
    let plan = plan_request(address, headers, fixed);
    let ghost planned = plan;
    let Planned { params, request } = match plan {
        Ok(ready) => ready,
        Err(why) => {
            return Err(why);
        },
    };
    let ghost sent = request;
    let answer = client.send(request);
    let result = conclude(&params, answer);
    proof {
        assert(client.may_answer(sent, answer));
        assert(plans(address@, headers, crate::request_headers::fixed_view(fixed@), planned));
    }
    result
}

} // verus!
