//! What the library knows of the `http` crate: header maps and addresses.
//!
//! A header map is kept as the `http` crate built it. Contracts speak of it
//! through [`header_fields`]: for each name that is present, the list of its
//! values in the order in which they were added. But for the lemmas at its
//! end, nothing in this file is proved: each function states what the
//! `http` or `headers` crate does.

use crate::text::string_of;
use vstd::prelude::*;
use vstd::string::StringSliceAdditionalSpecFns;

verus! {

/// The header map of the `http` crate, kept as that crate made it.
#[verifier::external_type_specification]
#[verifier::external_body]
#[verifier::reject_recursive_types(T)]
pub struct ExHeaderMap<T>(http::HeaderMap<T>);

/// The error that the `http` crate gives for a message it cannot build.
#[verifier::external_type_specification]
#[verifier::external_body]
pub struct ExHttpError(http::Error);

/// One header value of the `http` crate.
#[verifier::external_type_specification]
#[verifier::external_body]
pub struct ExHeaderValue(http::HeaderValue);

/// The fields of a header map: each name that is present, as the map holds
/// it, with the values it carries, oldest first.
pub uninterp spec fn header_fields(map: http::HeaderMap) -> Map<Seq<char>, Seq<Seq<u8>>>;

/// The values of a header map with their names, in the order in which the
/// map hands them out. The `http` crate leaves that order open, but it is
/// the same for the same map.
pub uninterp spec fn header_order(map: http::HeaderMap) -> Seq<(Seq<char>, Seq<u8>)>;

/// Whether the map has reached the size at which the `http` crate refuses to
/// take another value.
pub uninterp spec fn headers_full(map: http::HeaderMap) -> bool;

/// The length that the values of a `content-length` header declare, as the
/// `headers` crate reads them.
pub uninterp spec fn content_length_value(values: Seq<Seq<u8>>) -> Option<u64>;

/// The address that the `http` crate reads from a text, printed again, if
/// the text is an address.
pub uninterp spec fn uri_text(url: Seq<char>) -> Option<Seq<char>>;

/// The `http` crate's message for a text that is no address.
pub uninterp spec fn uri_fault(url: Seq<char>) -> Seq<char>;

/// A character that may stand in a header name.
pub open spec fn is_name_char(c: char) -> bool {
    ||| 'a' <= c <= 'z'
    ||| 'A' <= c <= 'Z'
    ||| '0' <= c <= '9'
    ||| c == '!' || c == '#' || c == '$' || c == '%' || c == '&' || c == '\''
    ||| c == '*' || c == '+' || c == '-' || c == '.' || c == '^' || c == '_'
    ||| c == '`' || c == '|' || c == '~'
}

/// A character that may stand in the name of a field of a header map: a
/// name character that is no upper-case letter, or a double quote, which can
/// stand in a name that was made in lower case from the start.
pub open spec fn is_stored_char(c: char) -> bool {
    (is_name_char(c) && !('A' <= c <= 'Z')) || c == '"'
}

/// Whether `name` can be the name of a field of a header map.
pub open spec fn is_stored_name(name: Seq<char>) -> bool {
    &&& 1 <= name.len() <= 65535
    &&& forall|i: int| 0 <= i < name.len() ==> is_stored_char(#[trigger] name[i])
}

/// The lower-case form of an ASCII letter; any other character is unchanged.
pub open spec fn lower_char(c: char) -> char {
    if 'A' <= c <= 'Z' {
        ((c as u8) + 32) as u8 as char
    } else {
        c
    }
}

/// Whether `name` can be a header name: 1 to 65535 characters, each of them
/// allowed in a name.
pub open spec fn is_header_name(name: Seq<char>) -> bool {
    &&& 1 <= name.len() <= 65535
    &&& forall|i: int| 0 <= i < name.len() ==> is_name_char(#[trigger] name[i])
}

/// The name under which a header map files `name`: its lower-case form.
pub open spec fn header_key(name: Seq<char>) -> Seq<char> {
    name.map_values(|c: char| lower_char(c))
}

/// A byte that may stand in a header value.
pub open spec fn is_value_byte(b: u8) -> bool {
    (b >= 32 && b != 127) || b == 9
}

/// Whether `value` can be a header value.
pub open spec fn is_header_value(value: Seq<u8>) -> bool {
    forall|i: int| 0 <= i < value.len() ==> is_value_byte(#[trigger] value[i])
}

/// A byte of visible ASCII, as a header value must be made of to be read as
/// text.
pub open spec fn is_visible_byte(b: u8) -> bool {
    (32 <= b < 127) || b == 9
}

/// The text of a header value: its bytes as characters where all of them are
/// visible ASCII, nothing otherwise.
pub open spec fn value_text(value: Seq<u8>) -> Option<Seq<char>> {
    if forall|i: int| 0 <= i < value.len() ==> is_visible_byte(#[trigger] value[i]) {
        Some(value.map_values(|b: u8| b as char))
    } else {
        None
    }
}

/// A header map's fields when it holds none.
pub open spec fn no_fields() -> Map<Seq<char>, Seq<Seq<u8>>> {
    Map::empty()
}

/// The values that `fields` holds under `name`, none if the name is absent.
pub open spec fn values_of(fields: Map<Seq<char>, Seq<Seq<u8>>>, name: Seq<char>) -> Seq<Seq<u8>> {
    if fields.dom().contains(name) {
        fields[name]
    } else {
        Seq::empty()
    }
}

/// The values that a search for `name` finds in `fields`: those filed under
/// its lower-case form, none where `name` is no header name.
pub open spec fn found_values(fields: Map<Seq<char>, Seq<Seq<u8>>>, name: Seq<char>) -> Seq<Seq<u8>> {
    if is_header_name(name) {
        values_of(fields, header_key(name))
    } else {
        Seq::empty()
    }
}

/// The values of a name that carries `value` alone.
pub open spec fn one_value(value: Seq<u8>) -> Seq<Seq<u8>> {
    Seq::empty().push(value)
}

/// The values that `order` gives under `name`, in their order.
pub open spec fn values_named(order: Seq<(Seq<char>, Seq<u8>)>, name: Seq<char>) -> Seq<Seq<u8>>
    decreases order.len(),
{
    if order.len() == 0 {
        Seq::empty()
    } else if order.last().0 == name {
        values_named(order.drop_last(), name).push(order.last().1)
    } else {
        values_named(order.drop_last(), name)
    }
}

/// The values of a header map with their names, as plain values.
pub open spec fn entry_views(entries: Seq<(String, Vec<u8>)>) -> Seq<(Seq<char>, Seq<u8>)> {
    entries.map_values(|entry: (String, Vec<u8>)| (entry.0@, entry.1@))
}

/// The message with which a value is refused: for a name that is none, for
/// a value that is none, or for a map that is full, in this order.
pub open spec fn append_fault(map: http::HeaderMap, name: Seq<char>, value: Seq<u8>) -> Seq<char> {
    if !is_header_name(name) {
        "invalid HTTP header name"@
    } else if !is_header_value(value) {
        "failed to parse header value"@
    } else {
        "max size reached"@
    }
}

/// `fields` with `value` added behind the values that `name` already has.
pub open spec fn with_value(
    fields: Map<Seq<char>, Seq<Seq<u8>>>,
    name: Seq<char>,
    value: Seq<u8>,
) -> Map<Seq<char>, Seq<Seq<u8>>> {
    fields.insert(name, values_of(fields, name).push(value))
}

/// `http::HeaderMap::new`: a map without fields, which hands out no value
/// and is not full.
#[verifier::external_body]
pub(crate) fn new_headers() -> (map: http::HeaderMap)
    ensures
        header_fields(map) == no_fields(),
        header_order(map).len() == 0,
        !headers_full(map),
{
    http::HeaderMap::new()
}

/// `HeaderMap::keys`: each name that is present, once, in an order that the
/// `http` crate leaves open. Each is a name as a header map holds it.
#[verifier::external_body]
pub(crate) fn header_names(map: &http::HeaderMap) -> (names: Vec<String>)
    ensures
        forall|n: Seq<char>|
            header_fields(*map).dom().contains(n) <==> exists|i: int|
                0 <= i < names.len() && (#[trigger] names[i])@ == n,
        forall|i: int, j: int|
            0 <= i < j < names.len() ==> (#[trigger] names[i])@ != (#[trigger] names[j])@,
        forall|i: int| 0 <= i < names.len() ==> is_stored_name((#[trigger] names[i])@),
{
    map.keys().map(|name| name.as_str().to_owned()).collect()
}

/// `HeaderMap::iter`: every value with its name, in the order of the map.
/// The values of one name come in the order in which the name carries them.
#[verifier::external_body]
pub(crate) fn header_entries(map: &http::HeaderMap) -> (entries: Vec<(String, Vec<u8>)>)
    ensures
        entries.len() == header_order(*map).len(),
        forall|i: int| 0 <= i < entries.len() ==> (#[trigger] entries[i]).0@ == header_order(*map)[i].0
            && entries[i].1@ == header_order(*map)[i].1,
        forall|n: Seq<char>| #[trigger] values_named(entry_views(entries@), n)
            == values_of(header_fields(*map), n),
{
    map.iter().map(|(name, value)| (name.as_str().to_owned(), value.as_bytes().to_vec())).collect()
}

/// `HeaderMap::get_all` with a `&str` key, and `HeaderValue::to_str` on each
/// value found: the values filed under the lower-case form of `name`, oldest
/// first, each as the text it holds, or `None` where it is not visible ASCII.
/// No value where `name` is no header name or is absent.
#[verifier::external_body]
pub(crate) fn header_texts(map: &http::HeaderMap, name: &str) -> (texts: Vec<Option<String>>)
    ensures
        texts.len() == found_values(header_fields(*map), name@).len(),
        forall|i: int| 0 <= i < texts.len() ==> string_of(#[trigger] texts[i])
            == value_text(found_values(header_fields(*map), name@)[i]),
{
    map.get_all(name).iter().map(|value| value.to_str().ok().map(str::to_owned)).collect()
}

/// `HeaderName::from_bytes`: the lower-case form of a valid header name, or
/// the `http` crate's message where `name` is no header name.
#[verifier::external_body]
pub(crate) fn parse_header_name(name: &str) -> (parsed: Result<String, String>)
    ensures
        parsed.is_ok() == is_header_name(name@),
        parsed is Ok ==> parsed->Ok_0@ == header_key(name@),
        parsed is Err ==> parsed->Err_0@ == "invalid HTTP header name"@,
{
    match http::HeaderName::from_bytes(name.as_bytes()) {
        Ok(name) => Ok(name.as_str().to_owned()),
        Err(invalid) => Err(invalid.to_string()),
    }
}

/// `HeaderValue::from_str`: the bytes of a text that can be a header value,
/// or the `http` crate's message where it cannot.
#[verifier::external_body]
pub(crate) fn parse_header_value(value: &str) -> (parsed: Result<Vec<u8>, String>)
    ensures
        parsed.is_ok() == is_header_value(value.spec_bytes()),
        parsed is Ok ==> parsed->Ok_0@ == value.spec_bytes(),
        parsed is Err ==> parsed->Err_0@ == "failed to parse header value"@,
{
    match http::HeaderValue::from_str(value) {
        Ok(value) => Ok(value.as_bytes().to_vec()),
        Err(invalid) => Err(invalid.to_string()),
    }
}

/// `HeaderName::from_lowercase` and `HeaderMap::remove`: the field of that
/// name leaves the map with all its values, and the other fields stay. A
/// text that cannot be the name of a field changes nothing.
#[verifier::external_body]
pub(crate) fn remove_header(map: &mut http::HeaderMap, name: &str)
    ensures
        header_fields(*final(map)) == if is_stored_name(name@) {
            header_fields(*old(map)).remove(name@)
        } else {
            header_fields(*old(map))
        },
{
    if let Ok(name) = http::HeaderName::from_lowercase(name.as_bytes()) {
        map.remove(name);
    }
}

/// `HeaderName::from_bytes`, `HeaderValue::from_bytes` and
/// `HeaderMap::try_append`, as `http`'s message builders chain them in their
/// `header` method: the value is added behind those that the name already
/// carries. It fails, and leaves the fields as they were, exactly when the
/// name or the value is not valid or the map is full, with the `http`
/// crate's message for the first of these that holds.
#[verifier::external_body]
pub(crate) fn append_header(map: &mut http::HeaderMap, name: &str, value: &[u8]) -> (done: Result<(), String>)
    ensures
        done.is_ok() == (is_header_name(name@) && is_header_value(value@)
            && !headers_full(*old(map))),
        done is Ok ==> header_fields(*final(map))
            == with_value(header_fields(*old(map)), header_key(name@), value@),
        done is Err ==> header_fields(*final(map)) == header_fields(*old(map)),
        done is Err ==> done->Err_0@ == append_fault(*old(map), name@, value@),
{
    let name = http::HeaderName::from_bytes(name.as_bytes()).map_err(|e| e.to_string())?;
    let value = http::HeaderValue::from_bytes(value).map_err(|e| e.to_string())?;
    map.try_append(name, value).map_err(|e| e.to_string())?;
    Ok(())
}

/// `HeaderName::from_bytes`, `HeaderValue::from_str` and
/// `HeaderMap::try_insert`: the value takes the place of those that the name
/// carried. It fails, and leaves the fields as they were, exactly when the
/// name or the value is not valid or the map is full.
#[verifier::external_body]
pub(crate) fn set_header(map: &mut http::HeaderMap, name: &str, value: &str) -> (done: Result<(), http::Error>)
    ensures
        done.is_ok() == (is_header_name(name@) && is_header_value(value.spec_bytes())
            && !headers_full(*old(map))),
        done is Ok ==> header_fields(*final(map))
            == header_fields(*old(map)).insert(header_key(name@), one_value(value.spec_bytes())),
        done is Err ==> header_fields(*final(map)) == header_fields(*old(map)),
{
    let name = http::HeaderName::from_bytes(name.as_bytes())?;
    let value = http::HeaderValue::from_str(value)?;
    map.try_insert(name, value)?;
    Ok(())
}

/// `HeaderMap::clone`: a map with the same fields, which hands them out in
/// the same order and is full where the first one is.
#[verifier::external_body]
pub(crate) fn clone_headers(map: &http::HeaderMap) -> (copy: http::HeaderMap)
    ensures
        header_fields(copy) == header_fields(*map),
        header_order(copy) == header_order(*map),
        headers_full(copy) == headers_full(*map),
{
    map.clone()
}

/// `HeaderMapExt::typed_get::<ContentLength>`: the length that the
/// `content-length` values declare; `None` where the header is absent or its
/// values declare none.
#[verifier::external_body]
pub(crate) fn declared_content_length(map: &http::HeaderMap) -> (length: Option<u64>)
    ensures
        length == if header_fields(*map).dom().contains("content-length"@) {
            content_length_value(header_fields(*map)["content-length"@])
        } else {
            None
        },
{
    headers::HeaderMapExt::typed_get::<headers::ContentLength>(map).map(|length| length.0)
}

/// `HeaderMap::get_all` with a `&str` key, and `HeaderValue::as_bytes` on
/// each value found: the values filed under the lower-case form of `name`,
/// oldest first. No value where `name` is no header name or is absent.
#[verifier::external_body]
pub(crate) fn header_values(map: &http::HeaderMap, name: &str) -> (values: Vec<Vec<u8>>)
    ensures
        values.len() == found_values(header_fields(*map), name@).len(),
        forall|i: int| 0 <= i < values.len() ==> (#[trigger] values[i])@
            == found_values(header_fields(*map), name@)[i],
{
    map.get_all(name).iter().map(|value| value.as_bytes().to_vec()).collect()
}

/// `Uri::from_str` and the `Display` of what it reads: the address that the
/// text holds, or the `http` crate's message where it holds none.
#[verifier::external_body]
pub(crate) fn request_target(url: &str) -> (target: Result<String, String>)
    ensures
        target is Ok == uri_text(url@) is Some,
        target is Ok ==> target->Ok_0@ == uri_text(url@)->0,
        target is Err ==> target->Err_0@ == uri_fault(url@),
{
    match url.parse::<http::Uri>() {
        Ok(uri) => Ok(uri.to_string()),
        Err(invalid) => Err(invalid.to_string()),
    }
}

/// `content-type` is a header name in lower case.
pub proof fn lemma_content_type_name()
    ensures
        is_header_name("content-type"@),
        header_key("content-type"@) == "content-type"@,
{
    reveal_strlit("content-type");
    assert(header_key("content-type"@) =~= "content-type"@);
}

/// The lower-case form of a header name is a header name, and is its own
/// lower-case form.
pub proof fn lemma_key_is_name(name: Seq<char>)
    requires
        is_header_name(name),
    ensures
        is_header_name(header_key(name)),
        header_key(header_key(name)) == header_key(name),
{
    let key = header_key(name);
    assert forall|i: int| 0 <= i < key.len() implies is_name_char(#[trigger] key[i])
        && lower_char(key[i]) == key[i] by {
        lemma_lower_char(name[i]);
    }
    assert(header_key(key) =~= key);
}

/// The lower-case form of a name character is a name character that has no
/// other lower-case form.
pub proof fn lemma_lower_char(c: char)
    requires
        is_name_char(c),
    ensures
        is_name_char(lower_char(c)),
        lower_char(lower_char(c)) == lower_char(c),
{
    if 'A' <= c <= 'Z' {
        let b = c as u8;
        assert(65 <= b <= 90);
        let low = ((b + 32) as u8) as char;
        assert(low as u8 == b + 32);
        assert(97 <= low as u8 <= 122);
        assert('a' <= low <= 'z');
    }
}

} // verus!
