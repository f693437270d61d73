//! The values of the `cf-cache-status` and `x-rssfilter-cache-status` headers.

use crate::headers::{
    found_values, header_fields, header_key, header_texts, headers_full, is_header_name,
    is_header_value, one_value, parse_header_value, set_header, value_text,
};
use crate::text::{same_text, uppercase_of};
use vstd::prelude::*;
use vstd::string::StringSliceAdditionalSpecFns;

verus! {

/// How a cache answered a request.
#[derive(Debug, Clone, PartialEq, Eq)]
pub enum CfCacheStatus {
    /// Served from the cache.
    Hit,
    /// Not in the cache, fetched from the origin.
    Miss,
    /// Dynamic content that bypassed the cache.
    Dynamic,
    /// Expired content served while revalidating.
    Expired,
    /// Revalidated and served from the cache.
    Revalidated,
    /// Being updated in the cache.
    Updating,
    /// The cache was bypassed by configuration.
    Bypass,
    /// Any other token, kept as it was received.
    Other(String),
}

/// A cache status as a plain value.
pub enum CacheStatusView {
    Hit,
    Miss,
    Dynamic,
    Expired,
    Revalidated,
    Updating,
    Bypass,
    Other(Seq<char>),
}

impl View for CfCacheStatus {
    type V = CacheStatusView;

    open spec fn view(&self) -> CacheStatusView {
        match self {
            CfCacheStatus::Hit => CacheStatusView::Hit,
            CfCacheStatus::Miss => CacheStatusView::Miss,
            CfCacheStatus::Dynamic => CacheStatusView::Dynamic,
            CfCacheStatus::Expired => CacheStatusView::Expired,
            CfCacheStatus::Revalidated => CacheStatusView::Revalidated,
            CfCacheStatus::Updating => CacheStatusView::Updating,
            CfCacheStatus::Bypass => CacheStatusView::Bypass,
            CfCacheStatus::Other(token) => CacheStatusView::Other(token@),
        }
    }
}

/// The text of a status: the upper-case name of a known status, the token
/// itself otherwise.
pub open spec fn status_text(status: CacheStatusView) -> Seq<char> {
    match status {
        CacheStatusView::Hit => "HIT"@,
        CacheStatusView::Miss => "MISS"@,
        CacheStatusView::Dynamic => "DYNAMIC"@,
        CacheStatusView::Expired => "EXPIRED"@,
        CacheStatusView::Revalidated => "REVALIDATED"@,
        CacheStatusView::Updating => "UPDATING"@,
        CacheStatusView::Bypass => "BYPASS"@,
        CacheStatusView::Other(token) => token,
    }
}

/// The status that a text stands for, given its upper-case form: a known
/// status where the upper-case form is its name, the text itself otherwise.
pub open spec fn status_of(upper: Seq<char>, text: Seq<char>) -> CacheStatusView {
    if upper == "HIT"@ {
        CacheStatusView::Hit
    } else if upper == "MISS"@ {
        CacheStatusView::Miss
    } else if upper == "DYNAMIC"@ {
        CacheStatusView::Dynamic
    } else if upper == "EXPIRED"@ {
        CacheStatusView::Expired
    } else if upper == "REVALIDATED"@ {
        CacheStatusView::Revalidated
    } else if upper == "UPDATING"@ {
        CacheStatusView::Updating
    } else if upper == "BYPASS"@ {
        CacheStatusView::Bypass
    } else {
        CacheStatusView::Other(text)
    }
}

/// The bytes that a status puts into a header: its text, or `INVALID` where
/// the token of an unknown status cannot stand in a header value.
pub open spec fn status_header_bytes(status: CacheStatusView) -> Seq<u8> {
    match status {
        CacheStatusView::Other(token) => if is_header_value(vstd::utf8::encode_utf8(token)) {
            vstd::utf8::encode_utf8(token)
        } else {
            "INVALID".spec_bytes()
        },
        _ => vstd::utf8::encode_utf8(status_text(status)),
    }
}

/// The status that the values of a header decode to: that of the first
/// value, if there is one and it is visible ASCII.
pub open spec fn decoded_status(values: Seq<Seq<u8>>) -> Option<CacheStatusView> {
    if values.len() == 0 {
        None
    } else {
        match value_text(values[0]) {
            Some(text) => Some(status_of(uppercase_of(text), text)),
            None => None,
        }
    }
}

/// A header whose values decode to no status.
#[derive(Debug, Clone, Copy, PartialEq, Eq)]
pub struct InvalidHeader;

impl CfCacheStatus {
    /// The name of the header that carries this status.
    pub fn name() -> (name: &'static str)
        ensures
            name@ == "cf-cache-status"@,
    {
        "cf-cache-status"
    }

    /// Renders the status as it is written in a header.
    pub fn to_string(&self) -> (out: String)
        ensures
            out@ == status_text(self@),
    {
        match self {
            CfCacheStatus::Hit => "HIT".to_owned(),
            CfCacheStatus::Miss => "MISS".to_owned(),
            CfCacheStatus::Dynamic => "DYNAMIC".to_owned(),
            CfCacheStatus::Expired => "EXPIRED".to_owned(),
            CfCacheStatus::Revalidated => "REVALIDATED".to_owned(),
            CfCacheStatus::Updating => "UPDATING".to_owned(),
            CfCacheStatus::Bypass => "BYPASS".to_owned(),
            CfCacheStatus::Other(token) => token.clone(),
        }
    }

    /// Tells the status from a text and the upper-case form of that text.
    pub fn from_upper(upper: &str, text: &str) -> (status: CfCacheStatus)
        ensures
            status@ == status_of(upper@, text@),
    {
        if same_text(upper, "HIT") {
            CfCacheStatus::Hit
        } else if same_text(upper, "MISS") {
            CfCacheStatus::Miss
        } else if same_text(upper, "DYNAMIC") {
            CfCacheStatus::Dynamic
        } else if same_text(upper, "EXPIRED") {
            CfCacheStatus::Expired
        } else if same_text(upper, "REVALIDATED") {
            CfCacheStatus::Revalidated
        } else if same_text(upper, "UPDATING") {
            CfCacheStatus::Updating
        } else if same_text(upper, "BYPASS") {
            CfCacheStatus::Bypass
        } else {
            CfCacheStatus::Other(text.to_owned())
        }
    }

    /// Parses a status, whatever the case of its letters. Every text is a
    /// status: one that names no known status is kept as it is.
    pub fn from_str(text: &str) -> (parsed: Result<CfCacheStatus, InvalidHeader>)
        ensures
            parsed is Ok,
            parsed->Ok_0@ == status_of(uppercase_of(text@), text@),
    {
        let upper = text.to_uppercase();
        Ok(CfCacheStatus::from_upper(upper.as_str(), text))
    }

    /// Decodes the status from the values of its header, each given as the
    /// text it holds or `None` where it is not visible ASCII. The first value
    /// counts; without one, or where it is no text, there is no status.
    pub fn decode(values: &Vec<Option<String>>) -> (decoded: Result<CfCacheStatus, InvalidHeader>)
        ensures
            values.len() == 0 ==> decoded is Err,
            values.len() > 0 ==> match values[0] {
                Some(text) => decoded is Ok && decoded->Ok_0@ == status_of(
                    uppercase_of(text@),
                    text@,
                ),
                None => decoded is Err,
            },
    {
        if values.len() == 0 {
            return Err(InvalidHeader);
        }
        match &values[0] {
            Some(text) => CfCacheStatus::from_str(text.as_str()),
            None => Err(InvalidHeader),
        }
    }

    /// The bytes of the header value that carries this status.
    pub fn encode(&self) -> (value: Vec<u8>)
        ensures
            value@ == status_header_bytes(self@),
            is_header_value(value@),
    {
        let text = self.to_string();
        match parse_header_value(text.as_str()) {
            Ok(bytes) => bytes,
            Err(_) => {
                let fallback = "INVALID";
                proof {
                    if !(self@ is Other) {
                        lemma_known_status_is_value(self@);
                    }
                    lemma_invalid_is_value();
                }
                vstd::slice::slice_to_vec(fallback.as_bytes())
            },
        }
    }

    /// The status that `headers` carry under `cf-cache-status`, if their
    /// values decode to one.
    pub fn typed_get(headers: &http::HeaderMap) -> (found: Option<CfCacheStatus>)
        ensures
            view_of(found) == decoded_status(
                found_values(header_fields(*headers), "cf-cache-status"@),
            ),
    {
        status_under(headers, CfCacheStatus::name())
    }

    /// Sets `cf-cache-status` in `headers` to this status, in the place of
    /// what the name carried. Where the headers take no further value they
    /// stay as they were, and the answer is `false`.
    pub fn typed_insert(&self, headers: &mut http::HeaderMap) -> (done: bool)
        ensures
            done == !headers_full(*old(headers)),
            done ==> header_fields(*final(headers)) == header_fields(*old(headers)).insert(
                "cf-cache-status"@,
                one_value(status_header_bytes(self@)),
            ),
            !done ==> header_fields(*final(headers)) == header_fields(*old(headers)),
    {
        proof {
            lemma_status_names();
        }
        set_status(self, headers, CfCacheStatus::name())
    }
}

/// The names of the two status headers are header names in lower case.
pub proof fn lemma_status_names()
    ensures
        is_header_name("cf-cache-status"@),
        header_key("cf-cache-status"@) == "cf-cache-status"@,
        is_header_name("x-rssfilter-cache-status"@),
        header_key("x-rssfilter-cache-status"@) == "x-rssfilter-cache-status"@,
{
    reveal_strlit("cf-cache-status");
    reveal_strlit("x-rssfilter-cache-status");
    assert(header_key("cf-cache-status"@) =~= "cf-cache-status"@);
    assert(header_key("x-rssfilter-cache-status"@) =~= "x-rssfilter-cache-status"@);
}

/// The status that `headers` carry under `name`, if their values decode to
/// one.
fn status_under(headers: &http::HeaderMap, name: &str) -> (found: Option<CfCacheStatus>)
    ensures
        view_of(found) == decoded_status(found_values(header_fields(*headers), name@)),
{
    let texts = header_texts(headers, name);
    match CfCacheStatus::decode(&texts) {
        Ok(status) => Some(status),
        Err(_) => None,
    }
}

/// Sets the header `name` to `status`, in the place of what the name carried.
fn set_status(status: &CfCacheStatus, headers: &mut http::HeaderMap, name: &str) -> (done: bool)
    requires
        is_header_name(name@),
    ensures
        done == !headers_full(*old(headers)),
        done ==> header_fields(*final(headers)) == header_fields(*old(headers)).insert(
            header_key(name@),
            one_value(status_header_bytes(status@)),
        ),
        !done ==> header_fields(*final(headers)) == header_fields(*old(headers)),
{
    let text = status.to_string();
    proof {
        if !(status@ is Other) {
            lemma_known_status_is_value(status@);
        }
        lemma_invalid_is_value();
    }
    let set = match parse_header_value(text.as_str()) {
        Ok(_) => set_header(headers, name, text.as_str()),
        Err(_) => set_header(headers, name, "INVALID"),
    };
    set.is_ok()
}

/// A status that may be absent, as a plain value.
pub open spec fn view_of(status: Option<CfCacheStatus>) -> Option<CacheStatusView> {
    match status {
        Some(status) => Some(status@),
        None => None,
    }
}

/// The name of a known status is made of upper-case letters, so it can stand
/// in a header value.
pub proof fn lemma_known_status_is_value(status: CacheStatusView)
    requires
        !(status is Other),
    ensures
        is_header_value(vstd::utf8::encode_utf8(status_text(status))),
{
    reveal_strlit("HIT");
    reveal_strlit("MISS");
    reveal_strlit("DYNAMIC");
    reveal_strlit("EXPIRED");
    reveal_strlit("REVALIDATED");
    reveal_strlit("UPDATING");
    reveal_strlit("BYPASS");
    let text = status_text(status);
    assert(vstd::utf8::is_ascii_chars(text));
    vstd::utf8::is_ascii_chars_encode_utf8(text);
}

/// `INVALID` can stand in a header value.
pub proof fn lemma_invalid_is_value()
    ensures
        is_header_value("INVALID".spec_bytes()),
{
    reveal_strlit("INVALID");
    assert(vstd::utf8::is_ascii_chars("INVALID"@));
    vstd::utf8::is_ascii_chars_encode_utf8("INVALID"@);
}

/// The cache status that this library reports in its own header.
#[derive(Debug, Clone, PartialEq, Eq)]
pub struct RssFilterCacheStatus(pub CfCacheStatus);

impl View for RssFilterCacheStatus {
    type V = CacheStatusView;

    open spec fn view(&self) -> CacheStatusView {
        self.0@
    }
}

impl RssFilterCacheStatus {
    /// The name of the header that carries this status.
    pub fn name() -> (name: &'static str)
        ensures
            name@ == "x-rssfilter-cache-status"@,
    {
        "x-rssfilter-cache-status"
    }

    /// Renders the status as it is written in a header.
    pub fn to_string(&self) -> (out: String)
        ensures
            out@ == status_text(self@),
    {
        self.0.to_string()
    }

    /// Parses a status, whatever the case of its letters.
    pub fn from_str(text: &str) -> (parsed: Result<RssFilterCacheStatus, InvalidHeader>)
        ensures
            parsed is Ok,
            parsed->Ok_0@ == status_of(uppercase_of(text@), text@),
    {
        match CfCacheStatus::from_str(text) {
            Ok(status) => Ok(RssFilterCacheStatus(status)),
            Err(invalid) => Err(invalid),
        }
    }

    /// Decodes the status from the values of its header, as
    /// [`CfCacheStatus::decode`] does.
    pub fn decode(values: &Vec<Option<String>>) -> (decoded: Result<
        RssFilterCacheStatus,
        InvalidHeader,
    >)
        ensures
            values.len() == 0 ==> decoded is Err,
            values.len() > 0 ==> match values[0] {
                Some(text) => decoded is Ok && decoded->Ok_0@ == status_of(
                    uppercase_of(text@),
                    text@,
                ),
                None => decoded is Err,
            },
    {
        if values.len() == 0 {
            return Err(InvalidHeader);
        }
        match &values[0] {
            Some(text) => RssFilterCacheStatus::from_str(text.as_str()),
            None => Err(InvalidHeader),
        }
    }

    /// The bytes of the header value that carries this status.
    pub fn encode(&self) -> (value: Vec<u8>)
        ensures
            value@ == status_header_bytes(self@),
            is_header_value(value@),
    {
        self.0.encode()
    }

    /// The status that `headers` carry under `x-rssfilter-cache-status`, if
    /// their values decode to one.
    pub fn typed_get(headers: &http::HeaderMap) -> (found: Option<RssFilterCacheStatus>)
        ensures
            match found {
                Some(status) => Some(status@),
                None => None,
            } == decoded_status(found_values(header_fields(*headers), "x-rssfilter-cache-status"@)),
    {
        match status_under(headers, RssFilterCacheStatus::name()) {
            Some(status) => Some(RssFilterCacheStatus(status)),
            None => None,
        }
    }

    /// Sets `x-rssfilter-cache-status` in `headers` to this status, in the
    /// place of what the name carried. Where the headers take no further
    /// value they stay as they were, and the answer is `false`.
    pub fn typed_insert(&self, headers: &mut http::HeaderMap) -> (done: bool)
        ensures
            done == !headers_full(*old(headers)),
            done ==> header_fields(*final(headers)) == header_fields(*old(headers)).insert(
                "x-rssfilter-cache-status"@,
                one_value(status_header_bytes(self@)),
            ),
            !done ==> header_fields(*final(headers)) == header_fields(*old(headers)),
    {
        proof {
            lemma_status_names();
        }
        set_status(&self.0, headers, RssFilterCacheStatus::name())
    }
}

} // verus!
