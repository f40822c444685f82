//! The header map of the `http` crate, as the rest of the library sees it: a map
//! from lowercase header names to the values stored under them, first value first.
use vstd::prelude::*;

use http::header::{HeaderMap, HeaderValue};
use vstd::string::StringSliceAdditionalSpecFns;

verus! {

/// A header map of the `http` crate.
#[verifier::external_type_specification]
#[verifier::external_body]
#[verifier::reject_recursive_types(T)]
pub struct ExHeaderMap<T>(HeaderMap<T>);

/// A header value of the `http` crate.
#[verifier::external_type_specification]
#[verifier::external_body]
pub struct ExHeaderValue(HeaderValue);

/// What a header map holds: for each header name (lowercase bytes), the values
/// stored under it, in insertion order.
pub uninterp spec fn header_entries(m: HeaderMap) -> Map<Seq<u8>, Seq<Seq<u8>>>;

/// The bytes that a header value holds.
pub uninterp spec fn header_value_bytes(v: HeaderValue) -> Seq<u8>;

/// The key under which a header map looks up a long or non-ASCII name given as
/// a string, or `None` where the string is no valid header name.
pub uninterp spec fn header_name_key(name: Seq<char>) -> Option<Seq<u8>>;

/// A token character of RFC 9110, which a header name is made of.
pub open spec fn is_token_char(c: char) -> bool {
    ||| ('a' <= c && c <= 'z')
    ||| ('A' <= c && c <= 'Z')
    ||| ('0' <= c && c <= '9')
    ||| c == '!' || c == '#' || c == '$' || c == '%' || c == '&' || c == '\''
    ||| c == '*' || c == '+' || c == '-' || c == '.' || c == '^' || c == '_'
    ||| c == '`' || c == '|' || c == '~'
}

/// An ASCII character's byte, with upper-case letters made lower-case.
pub open spec fn ascii_lower_byte(c: char) -> u8 {
    if 'A' <= c && c <= 'Z' {
        (c as u8 + 32) as u8
    } else {
        c as u8
    }
}

/// How the map reads a short ASCII name: the name must be made of token
/// characters, and is then looked up by its lower-case bytes.
pub open spec fn short_name_key(name: Seq<char>) -> Option<Seq<u8>> {
    if forall|i: int| 0 <= i < name.len() ==> is_token_char(#[trigger] name[i]) {
        Some(name.map_values(|c: char| ascii_lower_byte(c)))
    } else {
        None
    }
}

/// A name of one to 64 ASCII characters, whose key the map computes in a small
/// table.
pub open spec fn is_short_ascii_name(name: Seq<char>) -> bool {
    &&& 1 <= name.len() <= 64
    &&& vstd::utf8::is_ascii_chars(name)
}

/// The key under which a header map looks up a name given as a string, or
/// `None` where the string is no valid header name: an empty name is none, and
/// a short ASCII name follows the map's character table.
pub open spec fn name_key(name: Seq<char>) -> Option<Seq<u8>> {
    key_of_name(name, header_name_key(name))
}

/// The key of a name, given the key that the map's parser makes of a long or
/// non-ASCII name.
pub open spec fn key_of_name(name: Seq<char>, parsed: Option<Seq<u8>>) -> Option<Seq<u8>> {
    if name.len() == 0 {
        None
    } else if is_short_ascii_name(name) {
        short_name_key(name)
    } else {
        parsed
    }
}

/// The first value stored under a name, if the map holds any.
pub open spec fn first_value(m: Map<Seq<u8>, Seq<Seq<u8>>>, name: Seq<char>) -> Option<Seq<u8>> {
    first_value_at(m, name_key(name))
}

/// The first value stored under a key, if the map holds any.
pub open spec fn first_value_at(m: Map<Seq<u8>, Seq<Seq<u8>>>, key: Option<Seq<u8>>) -> Option<
    Seq<u8>,
> {
    match key {
        Some(k) => if m.dom().contains(k) && m[k].len() > 0 {
            Some(m[k][0])
        } else {
            None
        },
        None => None,
    }
}

/// The map with every value stored under a name removed.
pub open spec fn remove_name(m: Map<Seq<u8>, Seq<Seq<u8>>>, name: Seq<char>) -> Map<
    Seq<u8>,
    Seq<Seq<u8>>,
> {
    remove_at(m, name_key(name))
}

/// The map with every value stored under a key removed.
pub open spec fn remove_at(m: Map<Seq<u8>, Seq<Seq<u8>>>, key: Option<Seq<u8>>) -> Map<
    Seq<u8>,
    Seq<Seq<u8>>,
> {
    match key {
        Some(k) => m.remove(k),
        None => m,
    }
}

/// Every name in the map holds at least one value: the map stores a name
/// together with its first value, and further values only beside it.
pub open spec fn values_nonempty(m: Map<Seq<u8>, Seq<Seq<u8>>>) -> bool {
    forall|k: Seq<u8>| #[trigger] m.dom().contains(k) ==> m[k].len() > 0
}

/// `HeaderMap::remove` with a `&str` name: removes every value stored under the
/// name and returns the first. A name that is no valid header name removes
/// nothing. The key of a short ASCII name follows the map's character table.
#[verifier::external_body]
pub(crate) fn header_map_remove(headers: &mut HeaderMap, name: &str) -> (r: Option<HeaderValue>)
    ensures
        header_entries(*final(headers)) == remove_at(
            header_entries(*old(headers)),
            key_of_name(name@, header_name_key(name@)),
        ),
        values_nonempty(header_entries(*old(headers))),
        values_nonempty(header_entries(*final(headers))),
        match r {
            Some(v) => first_value_at(
                header_entries(*old(headers)),
                key_of_name(name@, header_name_key(name@)),
            ) == Some(header_value_bytes(v)),
            None => first_value_at(
                header_entries(*old(headers)),
                key_of_name(name@, header_name_key(name@)),
            ) is None,
        },
{
    headers.remove(name)
}

/// `HeaderMap::get` with a `&str` name: the first value stored under the name.
#[verifier::external_body]
pub(crate) fn header_map_get<'a>(headers: &'a HeaderMap, name: &str) -> (r: Option<
    &'a HeaderValue,
>)
    ensures
        match r {
            Some(v) => first_value_at(
                header_entries(*headers),
                key_of_name(name@, header_name_key(name@)),
            ) == Some(header_value_bytes(*v)) && values_nonempty(header_entries(*headers)),
            None => first_value_at(
                header_entries(*headers),
                key_of_name(name@, header_name_key(name@)),
            ) is None && values_nonempty(header_entries(*headers)),
        },
{
    headers.get(name)
}

/// `HeaderValue == str`: whether the value holds exactly the string's bytes.
#[verifier::external_body]
pub(crate) fn header_value_eq_str(v: &HeaderValue, s: &str) -> (r: bool)
    ensures
        r == (header_value_bytes(*v) == s.spec_bytes()),
{
    v == s
}

/// A byte that `HeaderValue::to_str` accepts: visible ASCII or a tab.
pub open spec fn is_visible_ascii(b: u8) -> bool {
    (32 <= b && b < 127) || b == 9
}

/// Every byte is one that `HeaderValue::to_str` accepts.
pub open spec fn all_visible_ascii(s: Seq<u8>) -> bool {
    forall|i: int| 0 <= i < s.len() ==> is_visible_ascii(#[trigger] s[i])
}

/// ASCII bytes read as characters.
pub open spec fn ascii_chars(s: Seq<u8>) -> Seq<char> {
    s.map_values(|b: u8| b as char)
}

/// `HeaderValue::to_str`: the value as a string where every byte is visible
/// ASCII or a tab, and nothing otherwise.
#[verifier::external_body]
pub(crate) fn header_value_to_str(v: &HeaderValue) -> (r: Option<&str>)
    ensures
        r is Some <==> all_visible_ascii(header_value_bytes(*v)),
        r matches Some(s) ==> s@ == ascii_chars(header_value_bytes(*v)),
{
    v.to_str().ok()
}

} // verus!
