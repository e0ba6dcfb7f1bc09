//! Header names, header values and the multimap that holds them, as `hyper` has them.

use crate::http::error::HttpError;
use hyper::header::{
    HeaderName, HeaderValue, InvalidHeaderName, InvalidHeaderValue, MaxSizeReached, ToStrError,
};
use hyper::HeaderMap;
use vstd::prelude::*;
use vstd::string::StringSliceAdditionalSpecFns;

verus! {

/// The multimap of headers.
#[verifier::external_type_specification]
#[verifier::external_body]
#[verifier::reject_recursive_types(T)]
pub struct ExHeaderMap<T>(hyper::HeaderMap<T>);

/// A checked header name.
#[verifier::external_type_specification]
#[verifier::external_body]
pub struct ExHeaderName(hyper::header::HeaderName);

/// A checked header value.
#[verifier::external_type_specification]
#[verifier::external_body]
pub struct ExHeaderValue(hyper::header::HeaderValue);

/// The refusal of a header name.
#[verifier::external_type_specification]
#[verifier::external_body]
pub struct ExInvalidHeaderName(hyper::header::InvalidHeaderName);

/// The refusal of a header value.
#[verifier::external_type_specification]
#[verifier::external_body]
pub struct ExInvalidHeaderValue(hyper::header::InvalidHeaderValue);

/// The refusal to read a header value as text.
#[verifier::external_type_specification]
#[verifier::external_body]
pub struct ExToStrError(hyper::header::ToStrError);

/// The refusal of one more header.
#[verifier::external_type_specification]
#[verifier::external_body]
pub struct ExMaxSizeReached(hyper::header::MaxSizeReached);

/// What a header map holds: for each name, in lower case, its values in the order in which
/// they were appended.
pub uninterp spec fn header_map(map: hyper::HeaderMap<hyper::header::HeaderValue>) -> Map<
    Seq<u8>,
    Seq<Seq<u8>>,
>;

/// The bytes of a header name, in lower case.
pub uninterp spec fn header_name_bytes(name: hyper::header::HeaderName) -> Seq<u8>;

/// The bytes of a header value.
pub uninterp spec fn header_value_bytes(value: hyper::header::HeaderValue) -> Seq<u8>;

/// A byte that may stand in a header name.
pub open spec fn header_name_byte(b: u8) -> bool {
    ||| 0x21 <= b <= 0x27  // ! " # $ % & '
    ||| b == 0x2a || b == 0x2b || b == 0x2d || b == 0x2e  // * + - .
    ||| 0x30 <= b <= 0x39  // digits
    ||| 0x41 <= b <= 0x5a  // upper case letters
    ||| 0x5e <= b <= 0x7a  // ^ _ ` and lower case letters
    ||| b == 0x7c || b == 0x7e  // | ~
}

/// A header name: at least one byte, at most 65535, each of them allowed.
pub open spec fn valid_header_name(name: Seq<u8>) -> bool {
    &&& 0 < name.len() <= 65535
    &&& forall|i: int| 0 <= i < name.len() ==> header_name_byte(#[trigger] name[i])
}

/// A byte that may stand in a header value: no control character but the tab.
pub open spec fn header_value_byte(b: u8) -> bool {
    (b >= 0x20 && b != 0x7f) || b == 0x09
}

/// A header value: every byte allowed.
pub open spec fn valid_header_value(value: Seq<u8>) -> bool {
    forall|i: int| 0 <= i < value.len() ==> header_value_byte(#[trigger] value[i])
}

/// A byte that a header value may hold to be readable as text.
pub open spec fn visible_ascii(b: u8) -> bool {
    (0x20 <= b < 0x7f) || b == 0x09
}

/// A header value that can be read as text.
pub open spec fn readable(value: Seq<u8>) -> bool {
    forall|i: int| 0 <= i < value.len() ==> visible_ascii(#[trigger] value[i])
}

/// Bytes as text, each byte the character of that number.
pub open spec fn latin_text(bytes: Seq<u8>) -> Seq<char> {
    bytes.map_values(|b: u8| b as char)
}

/// An ASCII letter in lower case, any other byte as it is.
pub open spec fn lower(b: u8) -> u8 {
    if 0x41 <= b <= 0x5a {
        (b + 0x20) as u8
    } else {
        b
    }
}

/// A header name as it is kept and compared.
pub open spec fn lower_bytes(name: Seq<u8>) -> Seq<u8> {
    name.map_values(|b: u8| lower(b))
}

/// No header at all.
pub open spec fn no_headers() -> Map<Seq<u8>, Seq<Seq<u8>>> {
    Map::empty()
}

/// The values of a name.
pub open spec fn values_of(map: Map<Seq<u8>, Seq<Seq<u8>>>, name: Seq<u8>) -> Seq<Seq<u8>> {
    if map.contains_key(name) {
        map[name]
    } else {
        Seq::empty()
    }
}

/// A value that stands first among the values of a name.
pub open spec fn is_first_value(value: Seq<u8>, values: Seq<Seq<u8>>) -> bool {
    values.len() > 0 && values[0] == value
}

/// A header map after one more value was appended under a name.
pub open spec fn with_appended(
    map: Map<Seq<u8>, Seq<Seq<u8>>>,
    name: Seq<u8>,
    value: Seq<u8>,
) -> Map<Seq<u8>, Seq<Seq<u8>>> {
    map.insert(name, values_of(map, name).push(value))
}

/// The values that a list of headers gives a name, in order.
pub open spec fn values_named(pairs: Seq<(Seq<u8>, Seq<u8>)>, name: Seq<u8>) -> Seq<Seq<u8>>
    decreases pairs.len(),
{
    if pairs.len() == 0 {
        Seq::empty()
    } else if pairs.last().0 == name {
        values_named(pairs.drop_last(), name).push(pairs.last().1)
    } else {
        values_named(pairs.drop_last(), name)
    }
}

/// A list of headers by its bytes.
pub open spec fn pair_bytes(pairs: Seq<(Vec<u8>, Vec<u8>)>) -> Seq<(Seq<u8>, Seq<u8>)> {
    pairs.map_values(|pair: (Vec<u8>, Vec<u8>)| (pair.0@, pair.1@))
}

/// The number of distinct names below which a header map always takes another header.
pub open spec fn header_room() -> nat {
    6554
}

/// The number of slots that a header map can have.
pub open spec fn header_slots() -> nat {
    32768
}

/// `HeaderName::from_bytes` accepts exactly the valid names and puts them in lower case.
#[verifier::external_body]
pub(crate) fn header_name(name: &[u8]) -> (r: Result<HeaderName, InvalidHeaderName>)
    ensures
        r is Ok <==> valid_header_name(name@),
        r matches Ok(n) ==> header_name_bytes(n) == lower_bytes(name@),
{
    HeaderName::from_bytes(name)
}

/// `HeaderValue::from_bytes` accepts exactly the valid values and keeps their bytes.
#[verifier::external_body]
pub(crate) fn header_value(value: &[u8]) -> (r: Result<HeaderValue, InvalidHeaderValue>)
    ensures
        r is Ok <==> valid_header_value(value@),
        r matches Ok(v) ==> header_value_bytes(v) == value@,
{
    HeaderValue::from_bytes(value)
}

/// `HeaderValue::as_bytes` gives the bytes of a value.
#[verifier::external_body]
pub(crate) fn value_bytes(value: &HeaderValue) -> (bytes: &[u8])
    ensures
        bytes@ == header_value_bytes(*value),
{
    value.as_bytes()
}

/// `HeaderValue::to_str` reads a value as text where all of its bytes are visible ASCII
/// characters or tabs, and refuses it otherwise.
#[verifier::external_body]
pub(crate) fn value_text(value: &HeaderValue) -> (r: Result<&str, ToStrError>)
    ensures
        r is Ok <==> readable(header_value_bytes(*value)),
        r matches Ok(text) ==> text@ == latin_text(header_value_bytes(*value)),
{
    value.to_str()
}

/// `HeaderMap::new` gives a map without headers.
#[verifier::external_body]
pub(crate) fn new_headers() -> (headers: HeaderMap)
    ensures
        header_map(headers) == no_headers(),
{
    HeaderMap::new()
}

/// `HeaderMap::get` looks a name up without regard to case and gives its first value. Text
/// that is no header name is under no name.
#[verifier::external_body]
pub(crate) fn get_header<'a>(map: &'a HeaderMap, name: &str) -> (r: Option<&'a HeaderValue>)
    ensures
        r is Some <==> header_map(*map).contains_key(lower_bytes(name.spec_bytes())),
        r matches Some(value) ==> is_first_value(
            header_value_bytes(*value),
            header_map(*map)[lower_bytes(name.spec_bytes())],
        ),
{
    map.get(name)
}

/// `HeaderMap::try_append` adds a value behind the others of its name, and answers whether
/// the name was there. A map that cannot grow any more refuses it and stays as it is. That
/// takes at least a fifth of the slots that a map can have: with fewer names it succeeds.
#[verifier::external_body]
pub(crate) fn append_header(map: &mut HeaderMap, name: HeaderName, value: HeaderValue) -> (r:
    Result<bool, MaxSizeReached>)
    ensures
        match r {
            Ok(present) => {
                &&& present == header_map(*old(map)).contains_key(header_name_bytes(name))
                &&& header_map(*final(map)) == with_appended(
                    header_map(*old(map)),
                    header_name_bytes(name),
                    header_value_bytes(value),
                )
            },
            Err(_) => header_map(*final(map)) == header_map(*old(map)),
        },
        header_map(*old(map)).dom().finite() && header_map(*old(map)).dom().len() < header_room()
            ==> r is Ok,
{
    map.try_append(name, value)
}

/// `HeaderMap::try_reserve` makes room for more names. It keeps the headers, of which there
/// are finitely many, and refuses exactly where the names would not fit into the slots that
/// a map can have.
#[verifier::external_body]
pub(crate) fn reserve_headers(map: &mut HeaderMap, additional: usize) -> (r: Result<
    (),
    MaxSizeReached,
>)
    ensures
        header_map(*final(map)) == header_map(*old(map)),
        header_map(*final(map)).dom().finite(),
        r is Ok <==> header_map(*old(map)).dom().len() + additional <= header_slots(),
{
    map.try_reserve(additional)
}

/// `HeaderMap::iter` visits every header. The names come in no particular order, the
/// values of one name in the order in which they were appended.
#[verifier::external_body]
pub(crate) fn all_headers(map: &HeaderMap) -> (pairs: Vec<(Vec<u8>, Vec<u8>)>)
    ensures
        forall|name: Seq<u8>|
            #[trigger] values_named(pair_bytes(pairs@), name) == values_of(header_map(*map), name),
{
    map.iter().map(|(name, value)| (name.as_str().as_bytes().to_vec(), value.as_bytes().to_vec())).collect()
}

/// A header map after a list of headers was appended, one by one.
pub open spec fn with_all_appended(
    map: Map<Seq<u8>, Seq<Seq<u8>>>,
    pairs: Seq<(Seq<u8>, Seq<u8>)>,
) -> Map<Seq<u8>, Seq<Seq<u8>>>
    decreases pairs.len(),
{
    if pairs.len() == 0 {
        map
    } else {
        with_appended(
            with_all_appended(map, pairs.drop_last()),
            lower_bytes(pairs.last().0),
            pairs.last().1,
        )
    }
}

/// Every header of a list is valid.
pub open spec fn all_valid(pairs: Seq<(Seq<u8>, Seq<u8>)>) -> bool {
    forall|i: int|
        0 <= i < pairs.len() ==> valid_header_name((#[trigger] pairs[i]).0) && valid_header_value(
            pairs[i].1,
        )
}

/// A list of headers that are texts, by the bytes of the texts.
pub open spec fn text_bytes(pairs: Seq<(String, String)>) -> Seq<(Seq<u8>, Seq<u8>)> {
    pairs.map_values(
        |pair: (String, String)|
            (vstd::utf8::encode_utf8(pair.0@), vstd::utf8::encode_utf8(pair.1@)),
    )
}

/// There certainly is room for so many more headers.
pub open spec fn has_room(map: Map<Seq<u8>, Seq<Seq<u8>>>, additional: nat) -> bool {
    map.dom().finite() && map.dom().len() + additional <= header_room()
}

/// Each appended header adds at most one name.
proof fn lemma_names_grow(
    map: Map<Seq<u8>, Seq<Seq<u8>>>,
    pairs: Seq<(Seq<u8>, Seq<u8>)>,
)
    requires
        map.dom().finite(),
    ensures
        with_all_appended(map, pairs).dom().finite(),
        with_all_appended(map, pairs).dom().len() <= map.dom().len() + pairs.len(),
    decreases pairs.len(),
{
    if pairs.len() > 0 {
        lemma_names_grow(map, pairs.drop_last());
        let before = with_all_appended(map, pairs.drop_last());
        let name = lower_bytes(pairs.last().0);
        assert(with_all_appended(map, pairs).dom() =~= before.dom().insert(name));
    }
}

/// Appends one header.
pub(crate) fn append_one(map: &mut HeaderMap, name: &[u8], value: &[u8]) -> (r: Result<(), HttpError>)
    requires
        valid_header_name(name@),
        valid_header_value(value@),
    ensures
        match r {
            Ok(()) => header_map(*final(map)) == with_appended(
                header_map(*old(map)),
                lower_bytes(name@),
                value@,
            ),
            Err(error) => {
                &&& error == HttpError::HeaderMapFull
                &&& header_map(*final(map)) == header_map(*old(map))
            },
        },
        !may_be_full(header_map(*old(map))) ==> r is Ok,
{
    match (header_name(name), header_value(value)) {
        (Ok(name), Ok(value)) => match append_header(map, name, value) {
            Ok(_) => Ok(()),
            Err(_) => Err(HttpError::HeaderMapFull),
        },
        _ => Err(HttpError::HeaderMapFull),
    }
}

/// Appends a list of headers, in order, up to the first for which there is no room.
pub(crate) fn append_pairs(map: &mut HeaderMap, pairs: &Vec<(Vec<u8>, Vec<u8>)>) -> (r: Result<
    (),
    HttpError,
>)
    requires
        all_valid(pair_bytes(pairs@)),
    ensures
        appended(header_map(*old(map)), header_map(*final(map)), pair_bytes(pairs@), r),
{
    let ghost before = header_map(*map);
    let ghost all = pair_bytes(pairs@);
    let mut i: usize = 0;
    while i < pairs.len()
        invariant
            i <= pairs.len(),
            before == header_map(*old(map)),
            all == pair_bytes(pairs@),
            all_valid(all),
            header_map(*map) == with_all_appended(before, all.take(i as int)),
        decreases pairs.len() - i,
    {
        assert(all[i as int] == (pairs@[i as int].0@, pairs@[i as int].1@));
        assert(all.take(i + 1).drop_last() =~= all.take(i as int));
        proof {
            if before.dom().finite() {
                lemma_names_grow(before, all.take(i as int));
            }
        }
        match append_one(map, pairs[i].0.as_slice(), pairs[i].1.as_slice()) {
            Ok(()) => {},
            Err(error) => {
                return Err(error);
            },
        }
        i += 1;
    }
    assert(all.take(i as int) =~= all);
    Ok(())
}

/// Appends a list of headers that are texts, in order, up to the first for which there is
/// no room.
pub(crate) fn append_texts(map: &mut HeaderMap, pairs: &Vec<(String, String)>) -> (r: Result<(), HttpError>)
    requires
        all_valid(text_bytes(pairs@)),
    ensures
        appended(header_map(*old(map)), header_map(*final(map)), text_bytes(pairs@), r),
{
    let ghost before = header_map(*map);
    let ghost all = text_bytes(pairs@);
    let mut i: usize = 0;
    while i < pairs.len()
        invariant
            i <= pairs.len(),
            before == header_map(*old(map)),
            all == text_bytes(pairs@),
            all_valid(all),
            header_map(*map) == with_all_appended(before, all.take(i as int)),
        decreases pairs.len() - i,
    {
        assert(all[i as int] == (
            vstd::utf8::encode_utf8(pairs@[i as int].0@),
            vstd::utf8::encode_utf8(pairs@[i as int].1@),
        ));
        assert(all.take(i + 1).drop_last() =~= all.take(i as int));
        proof {
            if before.dom().finite() {
                lemma_names_grow(before, all.take(i as int));
            }
        }
        match append_one(map, pairs[i].0.as_str().as_bytes(), pairs[i].1.as_str().as_bytes()) {
            Ok(()) => {},
            Err(error) => {
                return Err(error);
            },
        }
        i += 1;
    }
    assert(all.take(i as int) =~= all);
    Ok(())
}

/// There may be no room for another header: a header map takes another one as long as it has
/// fewer names than that.
pub open spec fn may_be_full(map: Map<Seq<u8>, Seq<Seq<u8>>>) -> bool {
    !(map.dom().finite() && map.dom().len() < header_room())
}

/// How appending a list of headers can end: with all of them appended; or, where there may
/// be no room for all of them, with an error, those before some header appended, and so many
/// names in the map that it may take no more.
pub open spec fn appended(
    before: Map<Seq<u8>, Seq<Seq<u8>>>,
    after: Map<Seq<u8>, Seq<Seq<u8>>>,
    pairs: Seq<(Seq<u8>, Seq<u8>)>,
    result: Result<(), HttpError>,
) -> bool {
    match result {
        Ok(()) => after == with_all_appended(before, pairs),
        Err(error) => {
            &&& error == HttpError::HeaderMapFull
            &&& !has_room(before, pairs.len())
            &&& may_be_full(after)
            &&& exists|k: int|
                0 <= k < pairs.len() && after == with_all_appended(before, #[trigger] pairs.take(k))
        },
    }
}

/// A header that was appended is found under its name, in whatever case, behind the values
/// that were there before. The values of other names stay as they were.
pub proof fn law_appended_header_is_found(
    map: Map<Seq<u8>, Seq<Seq<u8>>>,
    name: Seq<u8>,
    value: Seq<u8>,
    other: Seq<u8>,
)
    ensures
        ({
            let after = with_appended(map, lower_bytes(name), value);
            &&& after.contains_key(lower_bytes(name))
            &&& values_of(after, lower_bytes(name)) == values_of(map, lower_bytes(name)).push(value)
            &&& lower_bytes(other) != lower_bytes(name) ==> values_of(after, lower_bytes(other))
                == values_of(map, lower_bytes(other))
        }),
{
}

/// The case of a header name makes no difference, and putting it in lower case again changes
/// nothing.
pub proof fn law_case_is_irrelevant(name: Seq<u8>)
    ensures
        lower_bytes(lower_bytes(name)) == lower_bytes(name),
        valid_header_name(name) ==> valid_header_name(lower_bytes(name)),
{
    assert(lower_bytes(lower_bytes(name)) =~= lower_bytes(name));
    if valid_header_name(name) {
        assert forall|i: int| 0 <= i < lower_bytes(name).len() implies header_name_byte(
            #[trigger] lower_bytes(name)[i],
        ) by {
            assert(header_name_byte(name[i]));
        }
    }
}

/// A list of headers with their names in lower case.
pub open spec fn lower_names(pairs: Seq<(Seq<u8>, Seq<u8>)>) -> Seq<(Seq<u8>, Seq<u8>)> {
    pairs.map_values(|pair: (Seq<u8>, Seq<u8>)| (lower_bytes(pair.0), pair.1))
}

/// After a list of headers was appended, every name has the values that it had, followed by
/// those that the list gives it, in the order of the list.
pub proof fn law_appended_headers_keep_order(
    map: Map<Seq<u8>, Seq<Seq<u8>>>,
    pairs: Seq<(Seq<u8>, Seq<u8>)>,
    name: Seq<u8>,
)
    ensures
        values_of(with_all_appended(map, pairs), name) == values_of(map, name) + values_named(
            lower_names(pairs),
            name,
        ),
    decreases pairs.len(),
{
    if pairs.len() == 0 {
        assert(values_of(map, name) + values_named(lower_names(pairs), name) =~= values_of(
            map,
            name,
        ));
    } else {
        law_appended_headers_keep_order(map, pairs.drop_last(), name);
        assert(lower_names(pairs).drop_last() =~= lower_names(pairs.drop_last()));
        assert(values_of(with_all_appended(map, pairs), name) =~= values_of(map, name)
            + values_named(lower_names(pairs), name));
    }
}

/// The names that a list gives a map in part are among those that it gives it as a whole.
proof fn lemma_prefix_has_fewer_names(
    map: Map<Seq<u8>, Seq<Seq<u8>>>,
    pairs: Seq<(Seq<u8>, Seq<u8>)>,
    k: int,
)
    requires
        0 <= k <= pairs.len(),
    ensures
        with_all_appended(map, pairs.take(k)).dom().subset_of(with_all_appended(map, pairs).dom()),
    decreases pairs.len(),
{
    if k == pairs.len() {
        assert(pairs.take(k) =~= pairs);
    } else {
        lemma_prefix_has_fewer_names(map, pairs.drop_last(), k);
        assert(pairs.drop_last().take(k) =~= pairs.take(k));
    }
}

/// It is the names that fill a map, not the values: a list that leaves the map with few enough
/// distinct names is never refused, however long it is.
pub proof fn law_few_names_always_fit(
    before: Map<Seq<u8>, Seq<Seq<u8>>>,
    after: Map<Seq<u8>, Seq<Seq<u8>>>,
    pairs: Seq<(Seq<u8>, Seq<u8>)>,
    result: Result<(), HttpError>,
)
    requires
        appended(before, after, pairs, result),
        !may_be_full(with_all_appended(before, pairs)),
    ensures
        result is Ok,
{
    if result is Err {
        let k = choose|k: int|
            0 <= k < pairs.len() && after == with_all_appended(before, #[trigger] pairs.take(k));
        lemma_prefix_has_fewer_names(before, pairs, k);
        vstd::set_lib::lemma_len_subset(after.dom(), with_all_appended(before, pairs).dom());
    }
}

/// To append a list of headers is to append them one by one, in order: an empty list changes
/// nothing, and a list has the effect of all its headers but the last, followed by the last.
pub proof fn law_list_is_appended_one_by_one(
    map: Map<Seq<u8>, Seq<Seq<u8>>>,
    pairs: Seq<(Seq<u8>, Seq<u8>)>,
    name: Seq<u8>,
    value: Seq<u8>,
)
    ensures
        with_all_appended(map, Seq::empty()) == map,
        with_all_appended(map, pairs.push((name, value))) == with_appended(
            with_all_appended(map, pairs),
            lower_bytes(name),
            value,
        ),
{
    assert(pairs.push((name, value)).drop_last() =~= pairs);
}

/// What a list of headers leaves in the map, by what appending it answers. On success every name
/// has the values that it had, followed by those that the list gives it, in order. Otherwise
/// the map has at least 6554 names, and the same holds of the list up to some header that is
/// missing.
pub proof fn law_appending_a_list(
    before: Map<Seq<u8>, Seq<Seq<u8>>>,
    after: Map<Seq<u8>, Seq<Seq<u8>>>,
    pairs: Seq<(Seq<u8>, Seq<u8>)>,
    result: Result<(), HttpError>,
    name: Seq<u8>,
)
    requires
        appended(before, after, pairs, result),
    ensures
        result is Ok ==> values_of(after, name) == values_of(before, name) + values_named(
            lower_names(pairs),
            name,
        ),
        result matches Err(error) ==> {
            &&& error == HttpError::HeaderMapFull
            &&& after.dom().finite() ==> after.dom().len() >= 6554
            &&& exists|k: int|
                0 <= k < pairs.len() && values_of(after, name) == values_of(before, name)
                    + values_named(lower_names(#[trigger] pairs.take(k)), name)
        },
{
    if result is Ok {
        law_appended_headers_keep_order(before, pairs, name);
    } else {
        let k = choose|k: int|
            0 <= k < pairs.len() && after == with_all_appended(before, #[trigger] pairs.take(k));
        law_appended_headers_keep_order(before, pairs.take(k), name);
    }
}

/// The values that a list gives a name: none where the list is empty, and one more for every
/// header of that name, at the end, but none for any other header.
pub proof fn law_values_named_in_order(
    pairs: Seq<(Seq<u8>, Seq<u8>)>,
    name: Seq<u8>,
    other: Seq<u8>,
    value: Seq<u8>,
)
    ensures
        values_named(Seq::empty(), name).len() == 0,
        values_named(pairs.push((name, value)), name) == values_named(pairs, name).push(value),
        other != name ==> values_named(pairs.push((other, value)), name) == values_named(
            pairs,
            name,
        ),
{
    assert(pairs.push((name, value)).drop_last() =~= pairs);
    assert(pairs.push((other, value)).drop_last() =~= pairs);
}

/// There may be no room for another header only from 6554 names on.
pub proof fn law_when_there_is_room(map: Map<Seq<u8>, Seq<Seq<u8>>>, additional: nat)
    requires
        map.dom().finite(),
    ensures
        may_be_full(map) <==> map.dom().len() >= 6554,
        has_room(map, additional) <==> map.dom().len() + additional <= 6554,
        header_slots() == 32768,
{
}

/// A list of headers is looked at by the bytes of each name and each value, in order.
pub proof fn law_lists_are_looked_at_by_bytes(
    pairs: Seq<(Vec<u8>, Vec<u8>)>,
    texts: Seq<(String, String)>,
    i: int,
)
    ensures
        pair_bytes(pairs).len() == pairs.len(),
        0 <= i < pairs.len() ==> pair_bytes(pairs)[i] == (pairs[i].0@, pairs[i].1@),
        text_bytes(texts).len() == texts.len(),
        0 <= i < texts.len() ==> text_bytes(texts)[i] == (
            vstd::utf8::encode_utf8(texts[i].0@),
            vstd::utf8::encode_utf8(texts[i].1@),
        ),
{
}

/// A list of headers is valid exactly where each of its headers is.
pub proof fn law_lists_are_valid_header_by_header(
    pairs: Seq<(Seq<u8>, Seq<u8>)>,
    name: Seq<u8>,
    value: Seq<u8>,
)
    ensures
        all_valid(Seq::empty()),
        all_valid(pairs.push((name, value))) <==> all_valid(pairs) && valid_header_name(name)
            && valid_header_value(value),
{
    let longer = pairs.push((name, value));
    if all_valid(longer) {
        assert(longer[pairs.len() as int] == (name, value));
        assert forall|i: int| 0 <= i < pairs.len() implies valid_header_name(
            (#[trigger] pairs[i]).0,
        ) && valid_header_value(pairs[i].1) by {
            assert(longer[i] == pairs[i]);
        }
    }
}

/// A name in lower case has the same length; its ASCII capitals are replaced by the small
/// letters 32 above them, and every other byte is the same.
pub proof fn law_lower_case_byte_by_byte(name: Seq<u8>, i: int)
    requires
        0 <= i < name.len(),
    ensures
        lower_bytes(name).len() == name.len(),
        0x41 <= name[i] <= 0x5a ==> lower_bytes(name)[i] == name[i] + 0x20,
        !(0x41 <= name[i] <= 0x5a) ==> lower_bytes(name)[i] == name[i],
{
}

} // verus!
