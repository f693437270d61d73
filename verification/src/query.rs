//! What the library knows of the `url` and `urlencoding` crates: the
//! parameters of a query and their decoding. Nothing in this file is proved:
//! each function states what the outside crate does.

use vstd::prelude::*;

verus! {

/// A URL as the `url` crate holds it.
#[verifier::external_type_specification]
#[verifier::external_body]
pub struct ExUrl(url::Url);

/// The reason why the `url` crate reads no URL from a text.
#[verifier::external_type_specification]
#[verifier::external_body]
pub struct ExUrlParseError(url::ParseError);

/// The URL that the `url` crate reads from a text, if it reads one.
pub uninterp spec fn parsed_url(text: Seq<char>) -> Option<url::Url>;

/// The parameters of the query of a URL, each a name and a value, in the
/// order of the query.
pub uninterp spec fn url_query(url: url::Url) -> Seq<(Seq<char>, Seq<char>)>;

/// A text with its percent escapes resolved, if what they give is UTF-8.
pub uninterp spec fn percent_decoded(text: Seq<char>) -> Option<Seq<char>>;

/// A byte that is written as it is: a letter, a digit, `-`, `.`, `_` or `~`.
pub open spec fn is_unreserved(b: u8) -> bool {
    ||| 0x30 <= b <= 0x39
    ||| 0x41 <= b <= 0x5a
    ||| 0x61 <= b <= 0x7a
    ||| b == 0x2d || b == 0x2e || b == 0x5f || b == 0x7e
}

/// The character of a hexadecimal digit, in upper case.
pub open spec fn upper_hex_digit(d: int) -> char {
    if 0 <= d < 10 {
        (0x30 + d) as u8 as char
    } else {
        (0x41 - 10 + d) as u8 as char
    }
}

/// One byte as it is written: itself, or `%` and its two hexadecimal digits.
pub open spec fn escaped_byte(b: u8) -> Seq<char> {
    if is_unreserved(b) {
        Seq::empty().push(b as char)
    } else {
        Seq::empty().push('%').push(upper_hex_digit(b as int / 16)).push(
            upper_hex_digit(b as int % 16),
        )
    }
}

/// Bytes with every byte but letters, digits, `-`, `.`, `_` and `~` written
/// as a percent escape.
pub open spec fn escaped_bytes(bytes: Seq<u8>) -> Seq<char>
    decreases bytes.len(),
{
    if bytes.len() == 0 {
        Seq::empty()
    } else {
        escaped_bytes(bytes.drop_last()) + escaped_byte(bytes.last())
    }
}

/// A text with every byte of its UTF-8 form but letters, digits, `-`, `.`,
/// `_` and `~` written as a percent escape.
pub open spec fn percent_encoded(text: Seq<char>) -> Seq<char> {
    escaped_bytes(vstd::utf8::encode_utf8(text))
}

/// `Url::parse`: the URL that the text holds, or why it holds none.
pub assume_specification[ url::Url::parse ](input: &str) -> (parsed: Result<url::Url, url::ParseError>)
    ensures
        parsed.ok() == parsed_url(input@),
;

/// `Url::query_pairs`: every parameter of the query, as its name and its
/// value, in the order of the query.
#[verifier::external_body]
pub(crate) fn query_pairs(url: &url::Url) -> (pairs: Vec<(String, String)>)
    ensures
        pairs.len() == url_query(*url).len(),
        forall|i: int| 0 <= i < pairs.len() ==> (#[trigger] pairs[i]).0@ == url_query(*url)[i].0
            && pairs[i].1@ == url_query(*url)[i].1,
{
    url.query_pairs().map(|(name, value)| (name.into_owned(), value.into_owned())).collect()
}

/// `urlencoding::decode`: the text with its percent escapes resolved, or why
/// what they give is no UTF-8.
#[verifier::external_body]
pub(crate) fn percent_decode(text: &str) -> (decoded: Result<String, std::string::FromUtf8Error>)
    ensures
        decoded is Ok == percent_decoded(text@) is Some,
        decoded is Ok ==> decoded->Ok_0@ == percent_decoded(text@)->0,
{
    urlencoding::decode(text).map(|decoded| decoded.into_owned())
}

/// `urlencoding::encode`: the text with percent escapes.
#[verifier::external_body]
pub(crate) fn percent_encode(text: &str) -> (encoded: String)
    ensures
        encoded@ == percent_encoded(text@),
{
    urlencoding::encode(text).into_owned()
}

} // verus!
