//! Small services on strings that the rest of the library shares.

use std::collections::hash_map::DefaultHasher;
use std::hash::Hash;
use vstd::prelude::*;
use vstd::string::StringExecFns;

verus! {

/// What `str::to_uppercase` makes of a text.
pub uninterp spec fn uppercase_of(text: Seq<char>) -> Seq<char>;

/// What `str::to_lowercase` makes of a text.
pub uninterp spec fn lowercase_of(text: Seq<char>) -> Seq<char>;

/// The writes that a hasher has seen once a text was hashed into it, given
/// those it had seen before.
pub uninterp spec fn text_hashed(writes: Seq<Seq<u8>>, text: Seq<char>) -> Seq<Seq<u8>>;

/// The writes that a hasher has seen once a slice of bytes was hashed into
/// it, given those it had seen before.
pub uninterp spec fn bytes_hashed(writes: Seq<Seq<u8>>, bytes: Seq<u8>) -> Seq<Seq<u8>>;

/// The standard library's message for bytes that are no UTF-8.
pub uninterp spec fn utf8_fault(bytes: Seq<u8>) -> Seq<char>;

/// The text that the standard library reads from bytes when it puts the
/// replacement character in the place of what is no UTF-8.
pub uninterp spec fn lossy_of(bytes: Seq<u8>) -> Seq<char>;

/// The character of a hexadecimal digit, in lower case.
pub open spec fn hex_digit(d: nat) -> char {
    if d == 0 {
        '0'
    } else if d == 1 {
        '1'
    } else if d == 2 {
        '2'
    } else if d == 3 {
        '3'
    } else if d == 4 {
        '4'
    } else if d == 5 {
        '5'
    } else if d == 6 {
        '6'
    } else if d == 7 {
        '7'
    } else if d == 8 {
        '8'
    } else if d == 9 {
        '9'
    } else if d == 10 {
        'a'
    } else if d == 11 {
        'b'
    } else if d == 12 {
        'c'
    } else if d == 13 {
        'd'
    } else if d == 14 {
        'e'
    } else {
        'f'
    }
}

/// A number in hexadecimal digits, lower case, without a prefix and without
/// zeros before it.
pub open spec fn hex_text(value: nat) -> Seq<char>
    decreases value,
{
    if value < 16 {
        Seq::empty().push(hex_digit(value))
    } else {
        hex_text(value / 16).push(hex_digit(value % 16))
    }
}

/// A text that may be absent, as a plain value.
pub open spec fn string_of(value: Option<String>) -> Option<Seq<char>> {
    match value {
        Some(text) => Some(text@),
        None => None,
    }
}

/// Whether `text` is what `value` shows of itself when it is printed.
pub open spec fn shows<T: std::fmt::Display>(value: &T, text: Seq<char>) -> bool {
    exists|printed: String| #[trigger]
        vstd::string::to_string_from_display_ensures::<T>(value, printed) && printed@ == text
}

/// Whether `text` is `head`, then what `value` shows of itself when it is
/// printed, then `tail`.
pub open spec fn frames<T: std::fmt::Display>(
    head: Seq<char>,
    value: &T,
    tail: Seq<char>,
    text: Seq<char>,
) -> bool {
    exists|shown: Seq<char>| #[trigger] shows(value, shown) && text == head + shown + tail
}

/// `str`'s own `==`: two string slices are equal exactly when they hold the
/// same characters.
pub assume_specification[ <str as PartialEq>::eq ](a: &str, b: &str) -> (same: bool)
    ensures
        same == (a@ == b@),
;

/// `str::to_uppercase`: the upper-case form that Unicode gives the text.
pub assume_specification[ str::to_uppercase ](text: &str) -> (upper: String)
    ensures
        upper@ == uppercase_of(text@),
;

/// `str::to_lowercase`: the lower-case form that Unicode gives the text.
pub assume_specification[ str::to_lowercase ](text: &str) -> (lower: String)
    ensures
        lower@ == lowercase_of(text@),
;

/// `Hash::hash` of a `str` into a `DefaultHasher`: what is written depends on
/// the text alone.
#[verifier::external_body]
pub(crate) fn hash_text(state: &mut DefaultHasher, text: &str)
    ensures
        final(state)@ == text_hashed(old(state)@, text@),
{
    text.hash(state)
}

/// `Hash::hash` of a slice of bytes into a `DefaultHasher`: what is written
/// depends on the bytes alone.
#[verifier::external_body]
pub(crate) fn hash_bytes(state: &mut DefaultHasher, bytes: &[u8])
    ensures
        final(state)@ == bytes_hashed(old(state)@, bytes@),
{
    bytes.hash(state)
}

/// `std::str::from_utf8`: the text that the bytes encode, or the standard
/// library's message where they are no UTF-8.
#[verifier::external_body]
pub(crate) fn utf8_text(bytes: &[u8]) -> (text: Result<String, String>)
    ensures
        text.is_ok() == vstd::utf8::valid_utf8(bytes@),
        text is Ok ==> text->Ok_0@ == vstd::utf8::decode_utf8(bytes@),
        text is Err ==> text->Err_0@ == utf8_fault(bytes@),
{
    match std::str::from_utf8(bytes) {
        Ok(text) => Ok(text.to_owned()),
        Err(invalid) => Err(invalid.to_string()),
    }
}

/// `String::from_utf8_lossy`: the text that the bytes encode, with the
/// replacement character in the place of what is no UTF-8. Bytes that are
/// UTF-8 give the text that they encode.
#[verifier::external_body]
pub(crate) fn lossy_text(bytes: &[u8]) -> (text: String)
    ensures
        text@ == lossy_of(bytes@),
        vstd::utf8::valid_utf8(bytes@) ==> text@ == vstd::utf8::decode_utf8(bytes@),
{
    String::from_utf8_lossy(bytes).into_owned()
}

/// The text of one hexadecimal digit, in lower case.
pub fn hex_digit_text(d: u64) -> (text: &'static str)
    requires
        d < 16,
    ensures
        text@ == Seq::<char>::empty().push(hex_digit(d as nat)),
{
    proof {
        reveal_strlit("0");
        reveal_strlit("1");
        reveal_strlit("2");
        reveal_strlit("3");
        reveal_strlit("4");
        reveal_strlit("5");
        reveal_strlit("6");
        reveal_strlit("7");
        reveal_strlit("8");
        reveal_strlit("9");
        reveal_strlit("a");
        reveal_strlit("b");
        reveal_strlit("c");
        reveal_strlit("d");
        reveal_strlit("e");
        reveal_strlit("f");
    }
    let text = if d == 0 {
        "0"
    } else if d == 1 {
        "1"
    } else if d == 2 {
        "2"
    } else if d == 3 {
        "3"
    } else if d == 4 {
        "4"
    } else if d == 5 {
        "5"
    } else if d == 6 {
        "6"
    } else if d == 7 {
        "7"
    } else if d == 8 {
        "8"
    } else if d == 9 {
        "9"
    } else if d == 10 {
        "a"
    } else if d == 11 {
        "b"
    } else if d == 12 {
        "c"
    } else if d == 13 {
        "d"
    } else if d == 14 {
        "e"
    } else {
        "f"
    };
    assert(text@ =~= Seq::<char>::empty().push(hex_digit(d as nat)));
    text
}

/// Writes a number in hexadecimal digits, lower case.
pub fn lower_hex(value: u64) -> (digits: String)
    ensures
        digits@ == hex_text(value as nat),
{
    let mut digits = hex_digit_text(value % 16).to_owned();
    let mut rest = value / 16;
    while rest > 0
        invariant
            rest > 0 ==> hex_text(value as nat) == hex_text(rest as nat) + digits@,
            rest == 0 ==> hex_text(value as nat) == digits@,
        decreases rest,
    {
        let ghost before = digits@;
        digits = joined(hex_digit_text(rest % 16), digits.as_str());
        proof {
            let d = Seq::<char>::empty().push(hex_digit((rest % 16) as nat));
            if rest < 16 {
                assert(hex_text(rest as nat) == d);
            } else {
                assert(hex_text(rest as nat) == hex_text((rest / 16) as nat).push(
                    hex_digit((rest % 16) as nat),
                ));
                assert(hex_text((rest / 16) as nat).push(hex_digit((rest % 16) as nat)) + before
                    =~= hex_text((rest / 16) as nat) + (d + before));
            }
        }
        rest = rest / 16;
    }
    digits
}

/// Whether two texts hold the same characters.
pub fn same_text(a: &str, b: &str) -> (same: bool)
    ensures
        same == (a@ == b@),
{
    *a == *b
}

/// `head`, then `value` as it prints itself, then `tail`.
pub fn framed<T: std::fmt::Display>(head: &str, value: &T, tail: &str) -> (whole: String)
    ensures
        frames(head@, value, tail@, whole@),
{
    let shown = value.to_string();
    let start = joined(head, shown.as_str());
    let whole = joined(start.as_str(), tail);
    proof {
        assert(shows(value, shown@));
    }
    whole
}

/// `head` followed by `tail`.
pub fn joined(head: &str, tail: &str) -> (whole: String)
    ensures
        whole@ == head@ + tail@,
{
    head.to_owned().concat(tail)
}

} // verus!
