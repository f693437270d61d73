//! Which headers of a caller's request go on to the feed's server.

use crate::headers::{
    header_fields, header_key, header_names, headers_full, is_header_name, is_header_value,
    is_stored_name, one_value, remove_header, set_header,
};
use crate::text::same_text;
use vstd::prelude::*;
use vstd::string::StrSliceExecFns;

verus! {

/// Whether a header of the caller is held back: `host`, which belongs to
/// this service, and every header whose name starts with `x-`.
pub open spec fn is_stripped(name: Seq<char>) -> bool {
    name == "host"@ || (name.len() >= 2 && name[0] == 'x' && name[1] == '-')
}

/// The fields that go on: those of `fields` that are not held back.
pub open spec fn passed_on(fields: Map<Seq<char>, Seq<Seq<u8>>>) -> Map<Seq<char>, Seq<Seq<u8>>> {
    Map::new(
        |name: Seq<char>| fields.dom().contains(name) && !is_stripped(name),
        |name: Seq<char>| fields[name],
    )
}

/// `fields` with each of `fixed` set, one after the other: the value of a
/// fixed header takes the place of what its name carried.
pub open spec fn with_fixed(
    fields: Map<Seq<char>, Seq<Seq<u8>>>,
    fixed: Seq<(Seq<char>, Seq<char>)>,
) -> Map<Seq<char>, Seq<Seq<u8>>>
    decreases fixed.len(),
{
    if fixed.len() == 0 {
        fields
    } else {
        with_fixed(fields, fixed.drop_last()).insert(
            header_key(fixed.last().0),
            one_value(vstd::utf8::encode_utf8(fixed.last().1)),
        )
    }
}

/// Whether every fixed header has a valid name and a valid value.
pub open spec fn all_valid(fixed: Seq<(Seq<char>, Seq<char>)>) -> bool {
    forall|i: int|
        0 <= i < fixed.len() ==> is_header_name((#[trigger] fixed[i]).0) && is_header_value(
            vstd::utf8::encode_utf8(fixed[i].1),
        )
}

/// Whether the headers take no further value before all of `fixed` are set:
/// some header map is full that holds the fields that go on and the first
/// few of the fixed headers.
pub open spec fn fills_up(
    fields: Map<Seq<char>, Seq<Seq<u8>>>,
    fixed: Seq<(Seq<char>, Seq<char>)>,
) -> bool {
    exists|map: http::HeaderMap, set: int|
        0 <= set < fixed.len() && #[trigger] headers_full(map) && header_fields(map)
            == #[trigger] with_fixed(passed_on(fields), fixed.take(set))
}

/// The fixed headers as plain values.
pub open spec fn fixed_view(fixed: Seq<(String, String)>) -> Seq<(Seq<char>, Seq<char>)> {
    fixed.map_values(|pair: (String, String)| (pair.0@, pair.1@))
}

/// Whether `name` is one of the first `upto` of `names`.
pub open spec fn among(names: Seq<String>, upto: int, name: Seq<char>) -> bool {
    exists|k: int| 0 <= k < upto && (#[trigger] names[k])@ == name
}

/// Whether a header of the caller is held back.
pub fn should_strip_header(name: &str) -> (strip: bool)
    ensures
        strip == is_stripped(name@),
{
    if same_text(name, "host") {
        return true;
    }
    name.unicode_len() >= 2 && name.get_char(0) == 'x' && name.get_char(1) == '-'
}

/// The headers that go on to the feed's server: those of the caller but for
/// the ones that are held back, and the fixed headers of this service, each
/// in the place of what the caller sent under its name.
///
/// It fails where a fixed header has no valid name or value, and else only
/// where the header map, with some of the fixed headers set, takes no further
/// value.
pub fn filter_request_headers(headers: http::HeaderMap, fixed: &Vec<(String, String)>) -> (result:
    Result<http::HeaderMap, http::Error>)
    ensures
        result is Ok ==> header_fields(result->Ok_0) == with_fixed(
            passed_on(header_fields(headers)),
            fixed_view(fixed@),
        ),
        result is Ok ==> all_valid(fixed_view(fixed@)),
        !all_valid(fixed_view(fixed@)) ==> result is Err,
        result is Err && all_valid(fixed_view(fixed@)) ==> fills_up(
            header_fields(headers),
            fixed_view(fixed@),
        ),
{
    let ghost start = header_fields(headers);
    let mut kept = headers;
    let names = header_names(&kept);
    let mut i: usize = 0;
    proof {
        assert forall|n: Seq<char>| #[trigger] start.dom().contains(n) <==> among(
            names@,
            names.len() as int,
            n,
        ) by {
            if start.dom().contains(n) {
                let k = choose|k: int| 0 <= k < names.len() && (#[trigger] names[k])@ == n;
                assert(names@[k]@ == n);
            }
        }
    }
    while i < names.len()
        invariant
            i <= names.len(),
            forall|n: Seq<char>|
                #[trigger] start.dom().contains(n) <==> among(names@, names.len() as int, n),
            forall|k: int| 0 <= k < names.len() ==> is_stored_name((#[trigger] names[k])@),
            forall|n: Seq<char>|
                #[trigger] header_fields(kept).dom().contains(n) <==> start.dom().contains(n)
                    && !(is_stripped(n) && among(names@, i as int, n)),
            forall|n: Seq<char>|
                header_fields(kept).dom().contains(n) ==> #[trigger] header_fields(kept)[n]
                    == start[n],
        decreases names.len() - i,
    {
        let ghost before = header_fields(kept);
        let ghost name = names[i as int]@;
        proof {
            assert forall|n: Seq<char>| among(names@, i + 1, n) <==> among(names@, i as int, n)
                || n == name by {
                if among(names@, i + 1, n) {
                    let k = choose|k: int| 0 <= k < i + 1 && (#[trigger] names@[k])@ == n;
                    if k < i {
                        assert(among(names@, i as int, n));
                    }
                }
                if among(names@, i as int, n) {
                    let k = choose|k: int| 0 <= k < i && (#[trigger] names@[k])@ == n;
                    assert(0 <= k < i + 1 && names@[k]@ == n);
                }
                if n == name {
                    assert(names@[i as int]@ == n);
                }
            }
        }
        if should_strip_header(names[i].as_str()) {
            remove_header(&mut kept, names[i].as_str());
            assert(header_fields(kept) == before.remove(name));
        }
        i = i + 1;
    }
    proof {
        assert(header_fields(kept) =~= passed_on(start));
    }
    let ghost base = header_fields(kept);
    let ghost all = fixed_view(fixed@);
    let mut j: usize = 0;
    while j < fixed.len()
        invariant
            j <= fixed.len(),
            all == fixed_view(fixed@),
            base == passed_on(header_fields(headers)),
            header_fields(kept) == with_fixed(base, all.take(j as int)),
            all_valid(all.take(j as int)),
        decreases fixed.len() - j,
    {
        proof {
            assert(all.take(j + 1).drop_last() == all.take(j as int));
            assert(all.take(j + 1).last() == (fixed@[j as int].0@, fixed@[j as int].1@));
            assert(all[j as int] == (fixed@[j as int].0@, fixed@[j as int].1@));
        }
        let ghost before = kept;
        match set_header(&mut kept, fixed[j].0.as_str(), fixed[j].1.as_str()) {
            Ok(()) => {},
            Err(why) => {
                proof {
                    if all_valid(all) {
                        assert(is_header_name(all[j as int].0));
                        assert(headers_full(before));
                        assert(header_fields(before) == with_fixed(
                            passed_on(header_fields(headers)),
                            fixed_view(fixed@).take(j as int),
                        ));
                    }
                }
                return Err(why);
            },
        }
        proof {
            assert forall|k: int| 0 <= k < j + 1 implies is_header_name(
                (#[trigger] all.take(j + 1)[k]).0,
            ) && is_header_value(vstd::utf8::encode_utf8(all.take(j + 1)[k].1)) by {
                if k < j {
                    assert(all.take(j as int)[k] == all.take(j + 1)[k]);
                }
            }
        }
        j = j + 1;
    }
    proof {
        assert(all.take(all.len() as int) == all);
    }
    Ok(kept)
}

} // verus!
