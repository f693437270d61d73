//! What the library knows of the `rss` and `regex` crates.
//!
//! A feed is kept as the `rss` crate parsed it and a pattern as the `regex`
//! crate compiled it. Contracts speak of them through the names below.
//! Nothing in this file is proved: each function states what the outside
//! crate does.

use vstd::prelude::*;

verus! {

/// A compiled pattern of the `regex` crate.
#[verifier::external_type_specification]
#[verifier::external_body]
pub struct ExRegex(regex::Regex);

/// The reason why the `regex` crate compiles no pattern from a text.
#[verifier::external_type_specification]
#[verifier::external_body]
pub struct ExRegexError(regex::Error);

/// A feed as the `rss` crate holds it.
#[verifier::external_type_specification]
#[verifier::external_body]
pub struct ExChannel(rss::Channel);

/// One item of a feed, as the `rss` crate holds it.
#[verifier::external_type_specification]
#[verifier::external_body]
pub struct ExItem(rss::Item);

/// The GUID of an item, as the `rss` crate holds it.
#[verifier::external_type_specification]
#[verifier::external_body]
pub struct ExGuid(rss::Guid);

/// The reason why the `rss` crate reads or writes no feed.
#[verifier::external_type_specification]
#[verifier::external_body]
pub struct ExRssError(rss::Error);

/// Whether `pattern` matches somewhere in `text`.
pub uninterp spec fn regex_matches(pattern: regex::Regex, text: Seq<char>) -> bool;

/// The text that a pattern was compiled from.
pub uninterp spec fn regex_source(pattern: regex::Regex) -> Seq<char>;

/// The pattern that `regex::Regex::new` compiles from `source`, if it is one.
pub uninterp spec fn compiled_regex(source: Seq<char>) -> Option<regex::Regex>;

/// The title of an item, if it has one.
pub uninterp spec fn item_title(item: rss::Item) -> Option<Seq<char>>;

/// The link of an item, if it has one.
pub uninterp spec fn item_link(item: rss::Item) -> Option<Seq<char>>;

/// The GUID of an item, if it has one.
pub uninterp spec fn item_guid(item: rss::Item) -> Option<rss::Guid>;

/// The value of a GUID.
pub uninterp spec fn guid_value(guid: rss::Guid) -> Seq<char>;

/// The items of a channel, in the order of the feed.
pub uninterp spec fn channel_items(channel: rss::Channel) -> Seq<rss::Item>;

/// The channel that has `items` for its items and is `channel` in all else.
pub uninterp spec fn channel_with_items(channel: rss::Channel, items: Seq<rss::Item>) -> rss::Channel;

/// The channel that the `rss` crate reads from `body`, if it reads one.
pub uninterp spec fn parsed_feed(body: Seq<u8>) -> Option<rss::Channel>;

/// The XML that the `rss` crate writes for `channel`, indented by two
/// spaces, if it can write it.
pub uninterp spec fn pretty_feed(channel: rss::Channel) -> Option<Seq<u8>>;

/// `Regex::is_match`: whether the pattern matches anywhere in the text.
pub assume_specification[ regex::Regex::is_match ](pattern: &regex::Regex, haystack: &str) -> (found: bool)
    ensures
        found == regex_matches(*pattern, haystack@),
;

/// `Regex::as_str`: the text that the pattern was compiled from.
pub assume_specification<'a>[ regex::Regex::as_str ](pattern: &'a regex::Regex) -> (source: &'a str)
    ensures
        source@ == regex_source(*pattern),
;

/// `Regex::new`: the compiled pattern, or why `source` is none.
pub assume_specification[ regex::Regex::new ](source: &str) -> (compiled: Result<regex::Regex, regex::Error>)
    ensures
        compiled.ok() == compiled_regex(source@),
;

/// `Item::title`: the title of the item, if it has one.
pub assume_specification<'a>[ rss::Item::title ](item: &'a rss::Item) -> (title: Option<&'a str>)
    ensures
        title is Some == item_title(*item) is Some,
        title is Some ==> title->0@ == item_title(*item)->0,
;

/// `Item::link`: the link of the item, if it has one.
pub assume_specification<'a>[ rss::Item::link ](item: &'a rss::Item) -> (link: Option<&'a str>)
    ensures
        link is Some == item_link(*item) is Some,
        link is Some ==> link->0@ == item_link(*item)->0,
;

/// `Item::guid`: the GUID of the item, if it has one.
pub assume_specification<'a>[ rss::Item::guid ](item: &'a rss::Item) -> (guid: Option<&'a rss::Guid>)
    ensures
        guid is Some == item_guid(*item) is Some,
        guid is Some ==> *guid->0 == item_guid(*item)->0,
;

/// `Guid::value`: the value of the GUID.
pub assume_specification<'a>[ rss::Guid::value ](guid: &'a rss::Guid) -> (value: &'a str)
    ensures
        value@ == guid_value(*guid),
;

/// `Channel::read_from` on a slice of bytes: the channel that the bytes
/// hold, or why they hold none.
#[verifier::external_body]
pub(crate) fn parse_feed(body: &[u8]) -> (parsed: Result<rss::Channel, rss::Error>)
    ensures
        parsed.ok() == parsed_feed(body@),
{
    rss::Channel::read_from(body)
}

/// Takes the items out of a channel: they are handed back in the order of
/// the feed, and the channel is left without items and unchanged in all else.
#[verifier::external_body]
pub(crate) fn take_items(channel: &mut rss::Channel) -> (items: Vec<rss::Item>)
    ensures
        items@ == channel_items(*old(channel)),
        *final(channel) == channel_with_items(*old(channel), Seq::empty()),
{
    std::mem::take(&mut channel.items)
}

/// `Channel::set_items`: the channel has `items` for its items and is
/// unchanged in all else.
#[verifier::external_body]
pub(crate) fn set_items(channel: &mut rss::Channel, items: Vec<rss::Item>)
    ensures
        *final(channel) == channel_with_items(*old(channel), items@),
        channel_items(*final(channel)) == items@,
{
    channel.set_items(items)
}

/// `Channel::pretty_write_to` into an empty buffer, with an indent of two
/// spaces: the XML of the channel, or why it could not be written.
#[verifier::external_body]
pub(crate) fn write_feed(channel: &rss::Channel) -> (written: Result<Vec<u8>, rss::Error>)
    ensures
        written is Ok == pretty_feed(*channel) is Some,
        written is Ok ==> written->Ok_0@ == pretty_feed(*channel)->0,
{
    channel.pretty_write_to(Vec::new(), b' ', 2)
}

} // verus!
