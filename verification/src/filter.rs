//! The pipeline: fetch a feed, guard what came back, drop the items that a
//! filter matches, and hand the feed on.

use crate::feed::{
    channel_items, channel_with_items, guid_value, item_guid, item_link, item_title, parse_feed,
    parsed_feed, pretty_feed, regex_matches, set_items, take_items, write_feed,
};
use crate::headers::{
    content_length_value, declared_content_length, header_fields, header_values,
    lemma_content_type_name, request_target, uri_fault, uri_text, values_of,
};
use crate::http_client::{
    is_success_status, HttpClient, HttpClientError, HttpRequest, HttpResponse, Method,
};
use crate::text::{framed, frames, joined, lossy_of, lossy_text, same_text, string_of};
use vstd::prelude::*;

verus! {

/// The largest feed that is accepted, in bytes: 10 MiB.
pub const MAX_RSS_SIZE: u64 = 10 * 1024 * 1024;

/// The error of the standard library for reading and writing.
#[verifier::external_type_specification]
#[verifier::external_body]
pub struct ExIoError(std::io::Error);

/// The error of the standard library for bytes that are no UTF-8.
#[verifier::external_type_specification]
#[verifier::external_body]
pub struct ExFromUtf8Error(std::string::FromUtf8Error);

/// Why a feed could not be fetched or filtered.
#[derive(Debug)]
pub enum RssError {
    /// An HTTP message could not be built.
    Http(http::Error),
    /// The transport failed.
    HttpClient(HttpClientError),
    /// The response declares more bytes than are accepted.
    FeedTooLarge { max_size: u64 },
    /// The response is of a media type that is no feed.
    InvalidContentType { content_type: String },
    /// The body is no feed.
    RSSParse(rss::Error),
    /// The filtered feed could not be written.
    Serialize(rss::Error),
    /// Reading or writing failed.
    IO(std::io::Error),
    /// Bytes were no UTF-8.
    UTF8(std::string::FromUtf8Error),
}

impl RssError {
    /// Whether `text` says what the error is: the kind of the error, then
    /// what it carries.
    pub open spec fn says(self, text: Seq<char>) -> bool {
        match self {
            RssError::Http(source) => frames("HTTP request error: "@, &source, ""@, text),
            RssError::HttpClient(source) => text == "HTTP client error: "@ + source.heading()
                + source.detail(),
            RssError::FeedTooLarge { max_size } => frames(
                "RSS feed is too large (max "@,
                &max_size,
                " bytes)"@,
                text,
            ),
            RssError::InvalidContentType { content_type } => text == "Invalid content type: "@
                + content_type@ + ". Expected XML or RSS content"@,
            RssError::RSSParse(source) => frames("RSS parsing error: "@, &source, ""@, text),
            RssError::Serialize(source) => frames(
                "RSS writing error: "@,
                &source,
                ""@,
                text,
            ),
            RssError::IO(source) => frames("I/O error: "@, &source, ""@, text),
            RssError::UTF8(source) => frames("UTF-8 error: "@, &source, ""@, text),
        }
    }

    /// The error in words.
    pub fn to_string(&self) -> (out: String)
        ensures
            self.says(out@),
    {
        match self {
            RssError::Http(source) => framed("HTTP request error: ", source, ""),
            RssError::HttpClient(source) => {
                let inner = source.to_string();
                let out = joined("HTTP client error: ", inner.as_str());
                assert(out@ == "HTTP client error: "@ + (source.heading() + source.detail()));
                assert(out@ =~= "HTTP client error: "@ + source.heading() + source.detail());
                out
            },
            RssError::FeedTooLarge { max_size } => framed(
                "RSS feed is too large (max ",
                max_size,
                " bytes)",
            ),
            RssError::InvalidContentType { content_type } => {
                let head = joined("Invalid content type: ", content_type.as_str());
                joined(head.as_str(), ". Expected XML or RSS content")
            },
            RssError::RSSParse(source) => framed("RSS parsing error: ", source, ""),
            RssError::Serialize(source) => framed("RSS writing error: ", source, ""),
            RssError::IO(source) => framed("I/O error: ", source, ""),
            RssError::UTF8(source) => framed("UTF-8 error: ", source, ""),
        }
    }
}

/// Whether a declared length is more than is accepted.
pub open spec fn is_too_large(length: Option<u64>) -> bool {
    length matches Some(n) && n > MAX_RSS_SIZE
}

/// The length that the headers of a response declare, if they declare one.
pub open spec fn declared_length(fields: Map<Seq<char>, Seq<Seq<u8>>>) -> Option<u64> {
    if fields.dom().contains("content-length"@) {
        content_length_value(fields["content-length"@])
    } else {
        None
    }
}

/// A header value as text: the text that its bytes encode where they are
/// UTF-8, and else that text with the replacement character in the place of
/// what is no UTF-8.
pub open spec fn shown_value(value: Seq<u8>) -> Seq<char> {
    if vstd::utf8::valid_utf8(value) {
        vstd::utf8::decode_utf8(value)
    } else {
        lossy_of(value)
    }
}

/// The media type that the headers of a response declare: the first value
/// of `content-type` as text, whatever it holds, if there is one.
pub open spec fn declared_type(fields: Map<Seq<char>, Seq<Seq<u8>>>) -> Option<Seq<char>> {
    if values_of(fields, "content-type"@).len() == 0 {
        None
    } else {
        Some(shown_value(values_of(fields, "content-type"@)[0]))
    }
}

/// Whether a media type is that of a feed: one of the four types, letter for
/// letter.
pub open spec fn is_feed_type(media_type: Seq<char>) -> bool {
    ||| media_type == "application/rss+xml"@
    ||| media_type == "application/atom+xml"@
    ||| media_type == "text/xml"@
    ||| media_type == "application/xml"@
}

/// A declared media type in words: the type itself, or `<none>` where none
/// is declared.
pub open spec fn type_text(media_type: Option<Seq<char>>) -> Seq<char> {
    match media_type {
        Some(text) => text,
        None => "<none>"@,
    }
}

/// A text that may be absent, as a plain value.
pub open spec fn text_of(value: Option<&str>) -> Option<Seq<char>> {
    match value {
        Some(text) => Some(text@),
        None => None,
    }
}

/// Refuses a declared length that is over the limit. A length exactly at the
/// limit, and a response that declares none, pass.
pub fn check_declared_size(length: Option<u64>) -> (checked: Result<(), RssError>)
    ensures
        is_too_large(length) ==> checked is Err && checked->Err_0 is FeedTooLarge
            && checked->Err_0->max_size == MAX_RSS_SIZE,
        !is_too_large(length) ==> checked is Ok,
{
    match length {
        Some(n) => {
            if n > MAX_RSS_SIZE {
                Err(RssError::FeedTooLarge { max_size: MAX_RSS_SIZE })
            } else {
                Ok(())
            }
        },
        None => Ok(()),
    }
}

/// Refuses a response that declares more bytes than are accepted.
pub fn validate_response_size(response: &HttpResponse) -> (checked: Result<(), RssError>)
    ensures
        is_too_large(declared_length(header_fields(response.headers))) ==> checked is Err
            && checked->Err_0 is FeedTooLarge && checked->Err_0->max_size == MAX_RSS_SIZE,
        !is_too_large(declared_length(header_fields(response.headers))) ==> checked is Ok,
{
    check_declared_size(declared_content_length(&response.headers))
}

/// Refuses a media type that is not one of the four feed types. The error
/// carries the type that was declared, or `<none>`.
pub fn check_media_type(media_type: Option<String>) -> (checked: Result<(), RssError>)
    ensures
        is_feed_type(type_text(string_of(media_type))) ==> checked is Ok,
        !is_feed_type(type_text(string_of(media_type))) ==> checked is Err
            && checked->Err_0 is InvalidContentType
            && checked->Err_0->content_type@ == type_text(string_of(media_type)),
{
    let content_type = match media_type {
        Some(text) => text,
        None => "<none>".to_owned(),
    };
    let known = same_text(content_type.as_str(), "application/rss+xml") || same_text(
        content_type.as_str(),
        "application/atom+xml",
    ) || same_text(content_type.as_str(), "text/xml") || same_text(
        content_type.as_str(),
        "application/xml",
    );
    if known {
        Ok(())
    } else {
        Err(RssError::InvalidContentType { content_type })
    }
}

/// Refuses a response whose declared media type is no feed type. The first
/// value of `content-type` is compared as it stands and carried in the error;
/// `<none>` stands for a response without that header.
pub fn validate_content_type(response: &HttpResponse) -> (checked: Result<(), RssError>)
    ensures
        is_feed_type(type_text(declared_type(header_fields(response.headers)))) ==> checked is Ok,
        !is_feed_type(type_text(declared_type(header_fields(response.headers)))) ==> checked is Err
            && checked->Err_0 is InvalidContentType && checked->Err_0->content_type@ == type_text(
            declared_type(header_fields(response.headers)),
        ),
{
    let values = header_values(&response.headers, "content-type");
    proof {
        lemma_content_type_name();
    }
    let media_type = if values.len() == 0 {
        None
    } else {
        Some(lossy_text(values[0].as_slice()))
    };
    check_media_type(media_type)
}

/// The patterns of a filter: an item leaves the feed when its title, its
/// GUID or its link matches one of the patterns for that field.
#[derive(Debug)]
pub struct FilterRegexes<'a> {
    pub title_regexes: &'a [regex::Regex],
    pub guid_regexes: &'a [regex::Regex],
    pub link_regexes: &'a [regex::Regex],
}

/// A filter as a plain value: the patterns for each field.
pub struct FilterView {
    pub title: Seq<regex::Regex>,
    pub guid: Seq<regex::Regex>,
    pub link: Seq<regex::Regex>,
}

impl<'a> View for FilterRegexes<'a> {
    type V = FilterView;

    open spec fn view(&self) -> FilterView {
        FilterView { title: self.title_regexes@, guid: self.guid_regexes@, link: self.link_regexes@ }
    }
}

/// Whether one of `regexes` matches somewhere in `text`.
pub open spec fn any_match(regexes: Seq<regex::Regex>, text: Seq<char>) -> bool {
    exists|i: int| 0 <= i < regexes.len() && regex_matches(#[trigger] regexes[i], text)
}

/// Whether a field is matched: it is present and one of `regexes` matches it.
/// A field that is absent is never matched.
pub open spec fn filters_out(regexes: Seq<regex::Regex>, value: Option<Seq<char>>) -> bool {
    value matches Some(text) && any_match(regexes, text)
}

/// The value of the GUID of an item, if it has a GUID.
pub open spec fn item_guid_text(item: rss::Item) -> Option<Seq<char>> {
    match item_guid(item) {
        Some(guid) => Some(guid_value(guid)),
        None => None,
    }
}

/// Whether the filter removes an item: its title, its GUID or its link is
/// matched.
pub open spec fn is_removed(filter: FilterView, item: rss::Item) -> bool {
    ||| filters_out(filter.title, item_title(item))
    ||| filters_out(filter.guid, item_guid_text(item))
    ||| filters_out(filter.link, item_link(item))
}

/// The items that the filter leaves, in their order.
pub open spec fn surviving(filter: FilterView, items: Seq<rss::Item>) -> Seq<rss::Item> {
    items.filter(|item: rss::Item| !is_removed(filter, item))
}

/// The channel that the filter leaves: its surviving items, and all else as
/// it was.
pub open spec fn filtered_channel(filter: FilterView, channel: rss::Channel) -> rss::Channel {
    channel_with_items(
        channel_with_items(channel, Seq::empty()),
        surviving(filter, channel_items(channel)),
    )
}

/// What becomes of a response on its way through the filter.
pub enum Outcome {
    /// The response is handed on as it came.
    Untouched,
    /// The declared media type is no feed type.
    WrongType(Seq<char>),
    /// The body is no feed.
    NoFeed,
    /// The filtered feed could not be written.
    Unwritten,
    /// The response is handed on with the filtered feed for its body.
    Filtered(Seq<u8>),
}

/// What becomes of a feed body: the filtered feed as XML.
pub open spec fn body_outcome(filter: FilterView, body: Seq<u8>) -> Outcome {
    match parsed_feed(body) {
        None => Outcome::NoFeed,
        Some(channel) => match pretty_feed(filtered_channel(filter, channel)) {
            None => Outcome::Unwritten,
            Some(xml) => Outcome::Filtered(xml),
        },
    }
}

/// What becomes of a response: one without a success status is handed on
/// untouched; another has its media type checked and its body filtered.
pub open spec fn response_outcome(filter: FilterView, response: HttpResponse) -> Outcome {
    if !is_success_status(response.status) {
        Outcome::Untouched
    } else if !is_feed_type(type_text(declared_type(header_fields(response.headers)))) {
        Outcome::WrongType(type_text(declared_type(header_fields(response.headers))))
    } else {
        body_outcome(filter, response.body@)
    }
}

/// Whether `result` is what `outcome` asks for, for a body.
pub open spec fn body_matches(outcome: Outcome, result: Result<Vec<u8>, RssError>) -> bool {
    match outcome {
        Outcome::NoFeed => result is Err && result->Err_0 is RSSParse,
        Outcome::Unwritten => result is Err && result->Err_0 is Serialize,
        Outcome::Filtered(xml) => result is Ok && result->Ok_0@ == xml,
        _ => false,
    }
}

/// Whether `result` is what `outcome` asks for, for `response`.
pub open spec fn response_matches(
    outcome: Outcome,
    response: HttpResponse,
    result: Result<HttpResponse, RssError>,
) -> bool {
    match outcome {
        Outcome::Untouched => result is Ok && result->Ok_0 == response,
        Outcome::WrongType(text) => result is Err && result->Err_0 is InvalidContentType
            && result->Err_0->content_type@ == text,
        Outcome::NoFeed => result is Err && result->Err_0 is RSSParse,
        Outcome::Unwritten => result is Err && result->Err_0 is Serialize,
        Outcome::Filtered(xml) => result is Ok && result->Ok_0.status == response.status
            && result->Ok_0.headers == response.headers && result->Ok_0.body@ == xml,
    }
}

/// Whether `result` is what the pipeline makes of the transport's `answer`:
/// a failure of the transport is handed on, a response that declares more
/// bytes than are accepted is refused, any other response is accepted as it
/// came.
pub open spec fn fetch_matches(
    answer: Result<HttpResponse, HttpClientError>,
    result: Result<HttpResponse, RssError>,
) -> bool {
    match answer {
        Err(failure) => result is Err && result->Err_0 == RssError::HttpClient(failure),
        Ok(response) => if is_too_large(declared_length(header_fields(response.headers))) {
            result is Err && result->Err_0 is FeedTooLarge
                && result->Err_0->max_size == MAX_RSS_SIZE
        } else {
            result is Ok && result->Ok_0 == response
        },
    }
}

/// Whether `request` is the request that fetches `target` with `headers`: a
/// GET without a body.
pub open spec fn is_fetch_request(
    request: HttpRequest,
    target: Seq<char>,
    headers: http::HeaderMap,
) -> bool {
    &&& request.method == Method::Get
    &&& request.url@ == target
    &&& request.headers == headers
    &&& request.body@.len() == 0
}

/// Whether `result` is what the whole pipeline makes of the transport's
/// `answer`: what [`fetch_matches`] says where the fetch fails, and else what
/// becomes of the response on its way through the filter.
pub open spec fn pipeline_matches(
    filter: FilterView,
    answer: Result<HttpResponse, HttpClientError>,
    result: Result<HttpResponse, RssError>,
) -> bool {
    match answer {
        Err(failure) => result is Err && result->Err_0 == RssError::HttpClient(failure),
        Ok(response) => if is_too_large(declared_length(header_fields(response.headers))) {
            result is Err && result->Err_0 is FeedTooLarge
                && result->Err_0->max_size == MAX_RSS_SIZE
        } else {
            response_matches(response_outcome(filter, response), response, result)
        },
    }
}

/// The request that fetches `url`: a GET without a body that carries
/// `headers` as they are. It fails where `url` is no address, with the
/// reason.
pub fn build_request(url: &str, headers: http::HeaderMap) -> (built: Result<
    HttpRequest,
    RssError,
>)
    ensures
        match uri_text(url@) {
            Some(target) => built is Ok && built->Ok_0.method == Method::Get
                && built->Ok_0.url@ == target && built->Ok_0.headers == headers
                && built->Ok_0.body@.len() == 0,
            None => built is Err && built->Err_0 is HttpClient
                && built->Err_0->HttpClient_0 is Request
                && built->Err_0->HttpClient_0.detail() == "Failed to build request: "@
                + uri_fault(url@),
        },
{
    match request_target(url) {
        Ok(target) => Ok(
            HttpRequest { method: Method::Get, url: target, headers, body: Vec::new() },
        ),
        Err(why) => Err(
            RssError::HttpClient(
                HttpClientError::Request(joined("Failed to build request: ", why.as_str())),
            ),
        ),
    }
}

/// What the pipeline makes of the answer of the transport: a failure is
/// handed on, a response that declares more bytes than are accepted is
/// refused whatever its status, any other response is accepted as it
/// came.
pub fn accept_answer(answer: Result<HttpResponse, HttpClientError>) -> (result: Result<
    HttpResponse,
    RssError,
>)
    ensures
        fetch_matches(answer, result),
{
    match answer {
        Err(failure) => Err(RssError::HttpClient(failure)),
        Ok(response) => {
            match validate_response_size(&response) {
                Ok(()) => Ok(response),
                Err(refused) => Err(refused),
            }
        },
    }
}

/// How many items a feed had before it was filtered and how many it has
/// after.
#[derive(Debug, Clone, Copy, PartialEq, Eq)]
pub struct FilterCount {
    pub before: usize,
    pub after: usize,
}

impl<'a> FilterRegexes<'a> {
    /// Whether a field is matched: it is present and one of `regexes` matches
    /// somewhere in it.
    pub fn filter_out(&self, regexes: &[regex::Regex], value: Option<&str>) -> (matched: bool)
        ensures
            matched == filters_out(regexes@, text_of(value)),
    {
        match value {
            None => false,
            Some(text) => {
                let mut i: usize = 0;
                while i < regexes.len()
                    invariant
                        i <= regexes.len(),
                        value == Some(text),
                        forall|k: int| 0 <= k < i ==> !regex_matches(#[trigger] regexes@[k], text@),
                    decreases regexes.len() - i,
                {
                    if regexes[i].is_match(text) {
                        assert(regex_matches(regexes@[i as int], text@));
                        return true;
                    }
                    i = i + 1;
                }
                false
            },
        }
    }

    /// Whether the filter removes `item`.
    pub fn removes(&self, item: &rss::Item) -> (removed: bool)
        ensures
            removed == is_removed(self@, *item),
    {
        let guid = match item.guid() {
            Some(guid) => Some(guid.value()),
            None => None,
        };
        self.filter_out(self.title_regexes, item.title()) || self.filter_out(
            self.guid_regexes,
            guid,
        ) || self.filter_out(self.link_regexes, item.link())
    }

    /// Removes from `channel` the items that the filter matches. The items
    /// that stay keep their order, and the rest of the channel is unchanged.
    pub fn filter_items(&self, channel: &mut rss::Channel) -> (count: FilterCount)
        ensures
            *final(channel) == filtered_channel(self@, *old(channel)),
            channel_items(*final(channel)) == surviving(
                self@,
                channel_items(*old(channel)),
            ),
            count.before == channel_items(*old(channel)).len(),
            count.after == channel_items(*final(channel)).len(),
            count.after <= count.before,
    {
        let items = take_items(channel);
        let before = items.len();
        let ghost all = items@;
        let ghost filter = self@;
        let mut kept: Vec<rss::Item> = Vec::new();
        for item in iter: items
            invariant
                iter.seq() == all,
                filter == self@,
                kept@ == surviving(filter, all.take(iter.index() as int)),
                kept@.len() <= iter.index(),
        {
            proof {
                lemma_surviving_step(filter, all, iter.index() as int);
            }
            if !self.removes(&item) {
                kept.push(item);
            }
        }
        proof {
            assert(all.take(all.len() as int) == all);
        }
        let after = kept.len();
        set_items(channel, kept);
        FilterCount { before, after }
    }

    /// Filters `channel` and writes it as XML, indented by two spaces.
    pub fn filter(&self, channel: rss::Channel) -> (result: Result<Vec<u8>, RssError>)
        ensures
            match pretty_feed(filtered_channel(self@, channel)) {
                Some(xml) => result is Ok && result->Ok_0@ == xml,
                None => result is Err && result->Err_0 is Serialize,
            },
    {
        let mut channel = channel;
        let _ = self.filter_items(&mut channel);
        match write_feed(&channel) {
            Ok(xml) => Ok(xml),
            Err(why) => Err(RssError::Serialize(why)),
        }
    }

    /// Reads the body of `response` as a feed, filters it and writes it as
    /// XML.
    pub fn filter_response(&self, response: HttpResponse) -> (result: Result<Vec<u8>, RssError>)
        ensures
            body_matches(body_outcome(self@, response.body@), result),
    {
        match parse_feed(response.body.as_slice()) {
            Ok(channel) => self.filter(channel),
            Err(why) => Err(RssError::RSSParse(why)),
        }
    }

    /// Hands on a response that has no success status as it came. Of any
    /// other response the media type is checked and the body is filtered: the
    /// result has the status and the headers of `response` and the filtered
    /// feed for its body.
    pub fn try_filter_response(&self, response: HttpResponse) -> (result: Result<
        HttpResponse,
        RssError,
    >)
        ensures
            response_matches(response_outcome(self@, response), response, result),
    {
        if !response.is_success() {
            return Ok(response);
        }
        match validate_content_type(&response) {
            Ok(()) => {},
            Err(refused) => {
                return Err(refused);
            },
        }
        match parse_feed(response.body.as_slice()) {
            Err(why) => Err(RssError::RSSParse(why)),
            Ok(channel) => {
                match self.filter(channel) {
                    Err(failed) => Err(failed),
                    Ok(xml) => Ok(
                        HttpResponse { status: response.status, headers: response.headers, body: xml },
                    ),
                }
            },
        }
    }

    /// What the pipeline makes of the answer of a transport: a failure is
    /// handed on, a response that declares more bytes than are accepted is
    /// refused, and any other response is filtered as
    /// [`Self::try_filter_response`] filters it.
    pub fn finish(&self, answer: Result<HttpResponse, HttpClientError>) -> (result: Result<
        HttpResponse,
        RssError,
    >)
        ensures
            pipeline_matches(self@, answer, result),
    {
        match accept_answer(answer) {
            Ok(response) => self.try_filter_response(response),
            Err(refused) => Err(refused),
        }
    }
}

/// Fetches feeds through a transport and filters them.
pub struct RssFilter<'a, C: HttpClient> {
    filter_regexes: &'a FilterRegexes<'a>,
    http_client: C,
}

impl<'a, C: HttpClient> RssFilter<'a, C> {
    /// A filter with the patterns `filter_regexes` that fetches through
    /// `http_client`.
    pub fn new_with_http_client(filter_regexes: &'a FilterRegexes<'a>, http_client: C) -> (filter:
        Self)
        ensures
            filter.regexes() == filter_regexes@,
            forall|request: HttpRequest, answer: Result<HttpResponse, HttpClientError>|
                #[trigger] filter.may_answer(request, answer) == http_client.may_answer(
                    request,
                    answer,
                ),
    {
        Self { filter_regexes, http_client }
    }

    /// The patterns of this filter.
    pub closed spec fn regexes(&self) -> FilterView {
        self.filter_regexes@
    }

    /// Whether the transport of this filter may hand back `answer` for
    /// `request`.
    pub closed spec fn may_answer(
        &self,
        request: HttpRequest,
        answer: Result<HttpResponse, HttpClientError>,
    ) -> bool {
        self.http_client.may_answer(request, answer)
    }

    /// Fetches `url` with `headers` through the transport. Whatever the
    /// transport answers, the result is what [`accept_answer`] makes of
    /// it; where `url` is no address nothing is sent.
    pub fn fetch(&self, url: &str, headers: http::HeaderMap) -> (result: Result<
        HttpResponse,
        RssError,
    >)
        ensures
            match uri_text(url@) {
                None => result is Err && result->Err_0 is HttpClient
                    && result->Err_0->HttpClient_0 is Request
                    && result->Err_0->HttpClient_0.detail() == "Failed to build request: "@
                    + uri_fault(url@),
                Some(target) => exists|
                    request: HttpRequest,
                    answer: Result<HttpResponse, HttpClientError>,
                |
                    is_fetch_request(request, target, headers) && #[trigger] self.may_answer(
                        request,
                        answer,
                    ) && fetch_matches(answer, result),
            },
    {
        let request = match build_request(url, headers) {
            Ok(request) => request,
            Err(refused) => {
                return Err(refused);
            },
        };
        let answer = self.http_client.send(request);
        let result = accept_answer(answer);
        proof {
            assert(self.may_answer(request, answer));
        }
        result
    }

    /// Whether a field is matched: it is present and one of `regexes` matches
    /// somewhere in it.
    pub fn filter_out(&self, regexes: &[regex::Regex], value: Option<&str>) -> (matched: bool)
        ensures
            matched == filters_out(regexes@, text_of(value)),
    {
        self.filter_regexes.filter_out(regexes, value)
    }

    /// Whether the filter removes `item`.
    pub fn removes(&self, item: &rss::Item) -> (removed: bool)
        ensures
            removed == is_removed(self.regexes(), *item),
    {
        self.filter_regexes.removes(item)
    }

    /// Removes from `channel` the items that the filter matches. The items
    /// that stay keep their order, and the rest of the channel is unchanged.
    pub fn filter_items(&self, channel: &mut rss::Channel) -> (count: FilterCount)
        ensures
            *final(channel) == filtered_channel(self.regexes(), *old(channel)),
            channel_items(*final(channel)) == surviving(
                self.regexes(),
                channel_items(*old(channel)),
            ),
            count.before == channel_items(*old(channel)).len(),
            count.after == channel_items(*final(channel)).len(),
            count.after <= count.before,
    {
        self.filter_regexes.filter_items(channel)
    }

    /// Filters `channel` and writes it as XML, indented by two spaces.
    pub fn filter(&self, channel: rss::Channel) -> (result: Result<Vec<u8>, RssError>)
        ensures
            match pretty_feed(filtered_channel(self.regexes(), channel)) {
                Some(xml) => result is Ok && result->Ok_0@ == xml,
                None => result is Err && result->Err_0 is Serialize,
            },
    {
        self.filter_regexes.filter(channel)
    }

    /// Reads the body of `response` as a feed, filters it and writes it as
    /// XML.
    pub fn filter_response(&self, response: HttpResponse) -> (result: Result<Vec<u8>, RssError>)
        ensures
            body_matches(body_outcome(self.regexes(), response.body@), result),
    {
        self.filter_regexes.filter_response(response)
    }

    /// Hands on a response that has no success status as it came. Of any
    /// other response the media type is checked and the body is filtered: the
    /// result has the status and the headers of `response` and the filtered
    /// feed for its body.
    pub fn try_filter_response(&self, response: HttpResponse) -> (result: Result<
        HttpResponse,
        RssError,
    >)
        ensures
            response_matches(response_outcome(self.regexes(), response), response, result),
    {
        self.filter_regexes.try_filter_response(response)
    }

    /// Fetches `url` with `headers` and filters what comes back: the result
    /// is what the pipeline makes of the answer of the transport to a GET
    /// for `url`. Where `url` is no address nothing is sent.
    pub fn fetch_and_filter_with_headers(&self, url: &str, headers: http::HeaderMap) -> (result:
        Result<HttpResponse, RssError>)
        ensures
            match uri_text(url@) {
                None => result is Err && result->Err_0 is HttpClient
                    && result->Err_0->HttpClient_0 is Request
                    && result->Err_0->HttpClient_0.detail() == "Failed to build request: "@
                    + uri_fault(url@),
                Some(target) => exists|
                    request: HttpRequest,
                    answer: Result<HttpResponse, HttpClientError>,
                |
                    is_fetch_request(request, target, headers) && #[trigger] self.may_answer(
                        request,
                        answer,
                    ) && pipeline_matches(self.regexes(), answer, result),
            },
    {
        let response = match self.fetch(url, headers) {
            Ok(response) => response,
            Err(refused) => {
                return Err(refused);
            },
        };
        self.try_filter_response(response)
    }

    /// Fetches `url` without headers of the caller's and filters what comes
    /// back.
    pub fn fetch_and_filter(&self, url: &str) -> (result: Result<HttpResponse, RssError>)
        ensures
            match uri_text(url@) {
                None => result is Err && result->Err_0 is HttpClient
                    && result->Err_0->HttpClient_0 is Request
                    && result->Err_0->HttpClient_0.detail() == "Failed to build request: "@
                    + uri_fault(url@),
                Some(target) => exists|
                    request: HttpRequest,
                    answer: Result<HttpResponse, HttpClientError>,
                |
                    request.method == Method::Get && request.url@ == target && header_fields(
                        request.headers,
                    ) == crate::headers::no_fields() && request.body@.len() == 0
                        && #[trigger] self.may_answer(request, answer) && pipeline_matches(
                        self.regexes(),
                        answer,
                        result,
                    ),
            },
    {
        self.fetch_and_filter_with_headers(url, crate::headers::new_headers())
    }
}

/// The items that survive among the first `i + 1` are those that survive
/// among the first `i`, and the item at `i` behind them if it survives.
pub proof fn lemma_surviving_step(filter: FilterView, items: Seq<rss::Item>, i: int)
    requires
        0 <= i < items.len(),
    ensures
        surviving(filter, items.take(i + 1)) == if is_removed(filter, items[i]) {
            surviving(filter, items.take(i))
        } else {
            surviving(filter, items.take(i)).push(items[i])
        },
        surviving(filter, items.take(0)) == Seq::<rss::Item>::empty(),
{
    reveal(Seq::filter);
    assert(items.take(i + 1).drop_last() == items.take(i));
    assert(items.take(0) == Seq::<rss::Item>::empty());
}

/// Whether `kept` is made of the items of `items` at `places`, and `places`
/// rise from one item to the next.
pub open spec fn keeps_order(kept: Seq<rss::Item>, items: Seq<rss::Item>, places: Seq<int>) -> bool {
    &&& places.len() == kept.len()
    &&& forall|k: int|
        0 <= k < kept.len() ==> 0 <= #[trigger] places[k] < items.len() && kept[k]
            == items[places[k]]
    &&& forall|k: int, l: int| 0 <= k < l < kept.len() ==> #[trigger] places[k] < #[trigger] places[l]
}

/// A filter without patterns removes nothing: the items that survive are the
/// items of the feed, in their order.
pub proof fn law_empty_filter_keeps_all(filter: FilterView, items: Seq<rss::Item>)
    requires
        filter.title.len() == 0,
        filter.guid.len() == 0,
        filter.link.len() == 0,
    ensures
        surviving(filter, items) == items,
    decreases items.len(),
{
    reveal(Seq::filter);
    if items.len() > 0 {
        law_empty_filter_keeps_all(filter, items.drop_last());
        assert(!is_removed(filter, items.last()));
        assert(items.drop_last().push(items.last()) == items);
    }
}

/// Filtering only removes: no more items survive than the feed has, and of
/// an item that survives no pattern for titles matches the title, none for
/// GUIDs the GUID and none for links the link.
pub proof fn law_filter_only_removes(filter: FilterView, items: Seq<rss::Item>)
    ensures
        surviving(filter, items).len() <= items.len(),
        forall|i: int|
            0 <= i < surviving(filter, items).len() ==> !is_removed(
                filter,
                #[trigger] surviving(filter, items)[i],
            ),
        forall|i: int, j: int|
            0 <= i < surviving(filter, items).len() && 0 <= j < filter.title.len() && item_title(
                surviving(filter, items)[i],
            ) is Some ==> !regex_matches(
                #[trigger] filter.title[j],
                item_title(#[trigger] surviving(filter, items)[i])->0,
            ),
        forall|i: int, j: int|
            0 <= i < surviving(filter, items).len() && 0 <= j < filter.guid.len() && item_guid_text(
                surviving(filter, items)[i],
            ) is Some ==> !regex_matches(
                #[trigger] filter.guid[j],
                item_guid_text(#[trigger] surviving(filter, items)[i])->0,
            ),
        forall|i: int, j: int|
            0 <= i < surviving(filter, items).len() && 0 <= j < filter.link.len() && item_link(
                surviving(filter, items)[i],
            ) is Some ==> !regex_matches(
                #[trigger] filter.link[j],
                item_link(#[trigger] surviving(filter, items)[i])->0,
            ),
{
    let stays = |item: rss::Item| !is_removed(filter, item);
    items.lemma_filter_len(stays);
    assert forall|i: int| 0 <= i < surviving(filter, items).len() implies !is_removed(
        filter,
        #[trigger] surviving(filter, items)[i],
    ) by {
        items.lemma_filter_pred(stays, i);
    }
}

/// An item that the filter does not remove survives.
pub proof fn law_unmatched_items_survive(filter: FilterView, items: Seq<rss::Item>, i: int)
    requires
        0 <= i < items.len(),
        !is_removed(filter, items[i]),
    ensures
        surviving(filter, items).contains(items[i]),
{
    let stays = |item: rss::Item| !is_removed(filter, item);
    items.lemma_filter_contains(stays, i);
}

/// The items that survive stand in the order in which they stood in the
/// feed: they are the items at places that rise from one to the next.
pub proof fn law_survivors_keep_order(filter: FilterView, items: Seq<rss::Item>) -> (places: Seq<int>)
    ensures
        keeps_order(surviving(filter, items), items, places),
    decreases items.len(),
{
    reveal(Seq::filter);
    if items.len() == 0 {
        Seq::empty()
    } else {
        let before = law_survivors_keep_order(filter, items.drop_last());
        law_filter_only_removes(filter, items.drop_last());
        if is_removed(filter, items.last()) {
            before
        } else {
            let places = before.push(items.len() - 1);
            let kept = surviving(filter, items);
            assert(kept == surviving(filter, items.drop_last()).push(items.last()));
            assert forall|k: int| 0 <= k < kept.len() implies 0 <= #[trigger] places[k]
                < items.len() && kept[k] == items[places[k]] by {
                if k < kept.len() - 1 {
                    assert(places[k] == before[k]);
                    assert(items.drop_last()[before[k]] == items[before[k]]);
                }
            }
            places
        }
    }
}

/// A response that has no success status passes through untouched, whatever
/// the filter.
pub proof fn law_other_status_passes(filter: FilterView, response: HttpResponse)
    requires
        !is_success_status(response.status),
    ensures
        response_outcome(filter, response) is Untouched,
        forall|result: Result<HttpResponse, RssError>|
            response_matches(response_outcome(filter, response), response, result) ==> result
                == Ok::<HttpResponse, RssError>(response),
{
}

/// A declared length is refused exactly when it is over the limit: the limit
/// itself passes, one byte more does not.
pub proof fn law_size_limit()
    ensures
        !is_too_large(Some(MAX_RSS_SIZE)),
        is_too_large(Some((MAX_RSS_SIZE + 1) as u64)),
        !is_too_large(None),
        forall|n: u64| is_too_large(Some(n)) <==> n > 10 * 1024 * 1024,
{
}

/// Of a response with a success status the media type decides first: it
/// passes exactly when it is one of the four feed types, and a response that
/// declares another type, or none, is refused with that type.
pub proof fn law_media_type_decides(filter: FilterView, response: HttpResponse)
    requires
        is_success_status(response.status),
    ensures
        response_outcome(filter, response) is WrongType <==> !is_feed_type(
            type_text(declared_type(header_fields(response.headers))),
        ),
        is_feed_type("application/rss+xml"@),
        is_feed_type("application/atom+xml"@),
        is_feed_type("text/xml"@),
        is_feed_type("application/xml"@),
        !is_feed_type(Seq::empty()),
        !is_feed_type(type_text(None)),
{
    reveal_strlit("application/rss+xml");
    reveal_strlit("application/atom+xml");
    reveal_strlit("text/xml");
    reveal_strlit("application/xml");
    reveal_strlit("<none>");
    lemma_body_is_not_typed(filter, response.body@);
    assert("application/rss+xml"@.len() > 0);
    assert("application/atom+xml"@.len() > 0);
    assert("text/xml"@.len() > 0);
    assert("application/xml"@.len() > 0);
    assert(Seq::<char>::empty().len() == 0);
    assert("<none>"@[0] == '<');
    assert("application/rss+xml"@[0] == 'a');
    assert("application/atom+xml"@[0] == 'a');
    assert("text/xml"@[0] == 't');
    assert("application/xml"@[0] == 'a');
}

/// The same response and the same filter give the same result: where one run
/// hands back a response, so does any other, with the same status, headers
/// and bytes.
pub proof fn law_same_input_same_output(
    filter: FilterView,
    response: HttpResponse,
    first: Result<HttpResponse, RssError>,
    second: Result<HttpResponse, RssError>,
)
    requires
        response_matches(response_outcome(filter, response), response, first),
        response_matches(response_outcome(filter, response), response, second),
    ensures
        first is Ok <==> second is Ok,
        first is Ok ==> first->Ok_0.status == second->Ok_0.status && first->Ok_0.headers
            == second->Ok_0.headers && first->Ok_0.body@ == second->Ok_0.body@,
{
}

/// What is handed back has the status and the headers that came from
/// upstream, whether the body was filtered or not.
pub proof fn law_status_and_headers_are_kept(
    filter: FilterView,
    response: HttpResponse,
    result: Result<HttpResponse, RssError>,
)
    requires
        response_matches(response_outcome(filter, response), response, result),
        result is Ok,
    ensures
        result->Ok_0.status == response.status,
        result->Ok_0.headers == response.headers,
{
}

/// The order of the patterns does not matter: two lists that hold the same
/// patterns match the same fields.
pub proof fn law_pattern_order_is_irrelevant(
    first: Seq<regex::Regex>,
    second: Seq<regex::Regex>,
    value: Option<Seq<char>>,
)
    requires
        first.to_multiset() == second.to_multiset(),
    ensures
        filters_out(first, value) == filters_out(second, value),
{
    if let Some(text) = value {
        lemma_any_match_of_superset(first, second, text);
        lemma_any_match_of_superset(second, first, text);
    }
}

/// Where every pattern of `first` is among those of `second` and one of
/// `first` matches, one of `second` matches.
pub proof fn lemma_any_match_of_superset(
    first: Seq<regex::Regex>,
    second: Seq<regex::Regex>,
    text: Seq<char>,
)
    requires
        first.to_multiset() == second.to_multiset(),
    ensures
        any_match(first, text) ==> any_match(second, text),
{
    if any_match(first, text) {
        let i = choose|i: int| 0 <= i < first.len() && regex_matches(#[trigger] first[i], text);
        first.to_multiset_ensures();
        second.to_multiset_ensures();
        assert(first.contains(first[i]));
        assert(first.to_multiset().count(first[i]) > 0);
        assert(second.contains(first[i]));
        let j = choose|j: int| 0 <= j < second.len() && second[j] == first[i];
        assert(regex_matches(second[j], text));
    }
}

/// What becomes of a body never speaks of a media type or of a response
/// that passes untouched.
pub proof fn lemma_body_is_not_typed(filter: FilterView, body: Seq<u8>)
    ensures
        !(body_outcome(filter, body) is WrongType),
        !(body_outcome(filter, body) is Untouched),
{
}

} // verus!
