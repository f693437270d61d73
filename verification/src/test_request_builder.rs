//! Builds requests to a front end, for tests.

use crate::headers::{header_fields, new_headers, no_fields, request_target, uri_text};
use crate::http_client::{HttpRequest, Method};
use crate::query::{percent_encode, percent_encoded};
use crate::text::joined;
use vstd::prelude::*;

verus! {

/// A request in the making: a path, the parameters of a query and a method.
pub struct RequestBuilder {
    path: String,
    query_params: Vec<(String, String)>,
    method: Method,
}

/// The parameters of a query as they are written: each name and value with
/// percent escapes and `=` between them, and `&` between one and the next.
pub open spec fn query_text(params: Seq<(Seq<char>, Seq<char>)>) -> Seq<char>
    decreases params.len(),
{
    if params.len() == 0 {
        Seq::empty()
    } else if params.len() == 1 {
        percent_encoded(params[0].0) + "="@ + percent_encoded(params[0].1)
    } else {
        query_text(params.drop_last()) + "&"@ + percent_encoded(params.last().0) + "="@
            + percent_encoded(params.last().1)
    }
}

/// The address of a request to the test host for `path` with `params`.
pub open spec fn address_text(path: Seq<char>, params: Seq<(Seq<char>, Seq<char>)>) -> Seq<char> {
    if params.len() == 0 {
        "https://test.example.com"@ + path
    } else {
        "https://test.example.com"@ + path + "?"@ + query_text(params)
    }
}

impl Default for RequestBuilder {
    /// A GET for `/` without parameters.
    fn default() -> (builder: RequestBuilder)
        ensures
            builder.path() == "/"@,
            builder.params().len() == 0,
            builder.method() == Method::Get,
    {
        RequestBuilder { path: "/".to_owned(), query_params: Vec::new(), method: Method::Get }
    }
}

impl RequestBuilder {
    /// The path of the request.
    pub closed spec fn path(&self) -> Seq<char> {
        self.path@
    }

    /// The parameters of the query, in the order in which they were added.
    pub closed spec fn params(&self) -> Seq<(Seq<char>, Seq<char>)> {
        self.query_params@.map_values(|pair: (String, String)| (pair.0@, pair.1@))
    }

    /// The method of the request.
    pub closed spec fn method(&self) -> Method {
        self.method
    }

    /// A GET for `/` without parameters.
    pub fn new() -> (builder: RequestBuilder)
        ensures
            builder.path() == "/"@,
            builder.params().len() == 0,
            builder.method() == Method::Get,
    {
        RequestBuilder::default()
    }

    /// The builder with one more parameter.
    fn with_param(self, name: &str, value: &str) -> (builder: RequestBuilder)
        ensures
            builder.path() == self.path(),
            builder.method() == self.method(),
            builder.params() == self.params().push((name@, value@)),
    {
        let mut builder = self;
        builder.query_params.push((name.to_owned(), value.to_owned()));
        proof {
            assert(builder.params() =~= self.params().push((name@, value@)));
        }
        builder
    }

    /// The builder with the parameter `url`.
    pub fn with_feed_url(self, feed_url: &str) -> (builder: RequestBuilder)
        ensures
            builder.path() == self.path(),
            builder.method() == self.method(),
            builder.params() == self.params().push(("url"@, feed_url@)),
    {
        self.with_param("url", feed_url)
    }

    /// The builder with the parameter `title_filter_regex`.
    pub fn with_title_filter_regex(self, title_regex: &str) -> (builder: RequestBuilder)
        ensures
            builder.path() == self.path(),
            builder.method() == self.method(),
            builder.params() == self.params().push(("title_filter_regex"@, title_regex@)),
    {
        self.with_param("title_filter_regex", title_regex)
    }

    /// The builder with the parameter `uid_filter_regex`.
    pub fn with_guid_filter_regex(self, uid_regex: &str) -> (builder: RequestBuilder)
        ensures
            builder.path() == self.path(),
            builder.method() == self.method(),
            builder.params() == self.params().push(("uid_filter_regex"@, uid_regex@)),
    {
        self.with_param("uid_filter_regex", uid_regex)
    }

    /// The builder with another path.
    pub fn with_path(self, path: &str) -> (builder: RequestBuilder)
        ensures
            builder.path() == path@,
            builder.method() == self.method(),
            builder.params() == self.params(),
    {
        let mut builder = self;
        builder.path = path.to_owned();
        builder
    }

    /// The builder with another method.
    pub fn with_method(self, method: Method) -> (builder: RequestBuilder)
        ensures
            builder.path() == self.path(),
            builder.method() == method,
            builder.params() == self.params(),
    {
        let mut builder = self;
        builder.method = method;
        builder
    }

    /// Writes the query.
    fn write_query(&self) -> (text: String)
        ensures
            text@ == query_text(self.params()),
    {
        let ghost all = self.params();
        let mut text = String::new();
        let mut i: usize = 0;
        while i < self.query_params.len()
            invariant
                i <= self.query_params.len(),
                all == self.params(),
                text@ == query_text(all.take(i as int)),
            decreases self.query_params.len() - i,
        {
            proof {
                assert(all.take(i + 1).drop_last() == all.take(i as int));
                assert(all.take(i + 1).last() == (
                    self.query_params@[i as int].0@,
                    self.query_params@[i as int].1@,
                ));
                if i == 0 {
                    assert(all.take(1)[0] == all.take(1).last());
                }
            }
            let ghost before = text@;
            if i > 0 {
                text = joined(text.as_str(), "&");
            }
            let name = percent_encode(self.query_params[i].0.as_str());
            let value = percent_encode(self.query_params[i].1.as_str());
            text = joined(text.as_str(), name.as_str());
            text = joined(text.as_str(), "=");
            text = joined(text.as_str(), value.as_str());
            proof {
                if i == 0 {
                    assert(text@ =~= name@ + "="@ + value@);
                } else {
                    assert(text@ =~= before + "&"@ + name@ + "="@ + value@);
                }
            }
            i = i + 1;
        }
        proof {
            assert(all.take(all.len() as int) == all);
        }
        text
    }

    /// The request: the method of the builder, the address of the test host
    /// with the path and the query, no headers and no body. It fails, with
    /// the reason, where that address is none.
    pub fn build(self) -> (built: Result<HttpRequest, String>)
        ensures
            match uri_text(address_text(self.path(), self.params())) {
                Some(target) => built is Ok && built->Ok_0.method == self.method()
                    && built->Ok_0.url@ == target && header_fields(built->Ok_0.headers)
                    == no_fields() && built->Ok_0.body@.len() == 0,
                None => built is Err,
            },
    {
        let mut url = joined("https://test.example.com", self.path.as_str());
        if self.query_params.len() > 0 {
            let query = self.write_query();
            url = joined(url.as_str(), "?");
            url = joined(url.as_str(), query.as_str());
        }
        match request_target(url.as_str()) {
            Ok(target) => Ok(
                HttpRequest {
                    method: self.method,
                    url: target,
                    headers: new_headers(),
                    body: Vec::new(),
                },
            ),
            Err(why) => Err(why),
        }
    }
}

} // verus!
