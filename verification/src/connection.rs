//! Removal of connection-specific headers, which HTTP/2 forbids (RFC 9113,
//! section 8.2.2; the list of such headers is that of RFC 9110, section 7.6.1).
use vstd::prelude::*;

use http::header::HeaderMap;
use vstd::string::{StrSliceExecFns, StringSliceAdditionalSpecFns};

use crate::header_map::{
    all_visible_ascii, ascii_chars, ascii_lower_byte, first_value, header_entries, header_map_get,
    header_map_remove, header_value_eq_str, header_value_to_str, is_token_char, name_key, values_nonempty,
    remove_name,
};

verus! {

broadcast use vstd::string::is_ascii_spec_bytes;

/// What a header map holds, by name.
pub type HeaderEntries = Map<Seq<u8>, Seq<Seq<u8>>>;

/// The white space that a visible-ASCII string can hold.
pub open spec fn is_trim_space(c: char) -> bool {
    c == ' ' || c == '\t'
}

/// The string without its leading white space.
pub open spec fn trim_start(s: Seq<char>) -> Seq<char>
    decreases s.len(),
{
    if s.len() > 0 && is_trim_space(s[0]) {
        trim_start(s.drop_first())
    } else {
        s
    }
}

/// The string without its trailing white space.
pub open spec fn trim_end(s: Seq<char>) -> Seq<char>
    decreases s.len(),
{
    if s.len() > 0 && is_trim_space(s.last()) {
        trim_end(s.drop_last())
    } else {
        s
    }
}

/// The string without its leading and trailing white space, as `str::trim`
/// leaves a visible-ASCII string.
pub open spec fn trim(s: Seq<char>) -> Seq<char> {
    trim_end(trim_start(s))
}

/// The pieces of a string between its commas, as `str::split(',')` yields
/// them: one more piece than there are commas, empty ones included.
pub open spec fn split_commas(s: Seq<char>) -> Seq<Seq<char>>
    decreases s.len(),
{
    if s.len() == 0 {
        seq![Seq::empty()]
    } else {
        let pieces = split_commas(s.drop_last());
        if s.last() == ',' {
            pieces.push(Seq::empty())
        } else {
            pieces.update(pieces.len() - 1, pieces.last().push(s.last()))
        }
    }
}

/// Splitting yields at least one piece.
pub proof fn lemma_split_commas_nonempty(s: Seq<char>)
    ensures
        split_commas(s).len() >= 1,
    decreases s.len(),
{
    if s.len() > 0 {
        lemma_split_commas_nonempty(s.drop_last());
    }
}

/// The header names that a `Connection` value lists: its comma-separated
/// pieces, trimmed.
pub open spec fn listed_names(value: Seq<char>) -> Seq<Seq<char>> {
    split_commas(value).map_values(|p: Seq<char>| trim(p))
}

/// The map with the values stored under each of the names removed, in order.
pub open spec fn remove_names(m: HeaderEntries, names: Seq<Seq<char>>) -> HeaderEntries
    decreases names.len(),
{
    if names.len() == 0 {
        m
    } else {
        remove_name(remove_names(m, names.drop_last()), names.last())
    }
}

/// The map without the connection headers that are always illegal in HTTP/2.
pub open spec fn without_fixed_headers(m: HeaderEntries) -> HeaderEntries {
    remove_name(
        remove_name(
            remove_name(remove_name(m, "keep-alive"@), "proxy-connection"@),
            "transfer-encoding"@,
        ),
        "upgrade"@,
    )
}

/// The map without an illegal `TE` header: a request may keep `TE: trailers`
/// (judged by the first value), a response keeps none.
pub open spec fn without_illegal_te(m: HeaderEntries, is_request: bool) -> HeaderEntries {
    if is_request {
        match first_value(m, "te"@) {
            Some(v) => if v != "trailers".spec_bytes() {
                remove_name(m, "te"@)
            } else {
                m
            },
            None => m,
        }
    } else {
        remove_name(m, "te"@)
    }
}

/// The map without its `Connection` header and, where the first `Connection`
/// value is visible ASCII, without each header that it lists.
pub open spec fn without_connection_header(m: HeaderEntries) -> HeaderEntries {
    let rest = remove_name(m, "connection"@);
    match first_value(m, "connection"@) {
        Some(v) => if all_visible_ascii(v) {
            remove_names(rest, listed_names(ascii_chars(v)))
        } else {
            rest
        },
        None => rest,
    }
}

/// The headers that remain once the connection-specific ones are stripped.
pub open spec fn stripped_headers(m: HeaderEntries, is_request: bool) -> HeaderEntries {
    without_connection_header(without_illegal_te(without_fixed_headers(m), is_request))
}

/// Removes the headers that HTTP/2 forbids: `Keep-Alive`, `Proxy-Connection`,
/// `Transfer-Encoding`, `Upgrade`, `TE` (a request may keep `TE: trailers`),
/// and `Connection` together with every header that its value lists.
pub fn strip_connection_headers(headers: &mut HeaderMap, is_request: bool)
    ensures
        header_entries(*final(headers)) == stripped_headers(
            header_entries(*old(headers)),
            is_request,
        ),
        values_nonempty(header_entries(*old(headers))),
        values_nonempty(header_entries(*final(headers))),
{
    let ghost start = header_entries(*headers);
    let _ = header_map_remove(headers, "keep-alive");
    let _ = header_map_remove(headers, "proxy-connection");
    let _ = header_map_remove(headers, "transfer-encoding");
    let _ = header_map_remove(headers, "upgrade");
    let ghost fixed = header_entries(*headers);

    if is_request {
        let illegal_te = match header_map_get(headers, "te") {
            Some(te) => !header_value_eq_str(te, "trailers"),
            None => false,
        };
        if illegal_te {
            let _ = header_map_remove(headers, "te");
        }
    } else {
        let _ = header_map_remove(headers, "te");
    }
    assert(header_entries(*headers) == without_illegal_te(fixed, is_request));

    if let Some(header) = header_map_remove(headers, "connection") {
        if let Some(contents) = header_value_to_str(&header) {
            remove_listed_headers(headers, contents);
        }
    }
    proof {
        let end = header_entries(*headers);
        lemma_strip_keeps_other_headers(start, is_request);
        assert forall|k: Seq<u8>| #[trigger] end.dom().contains(k) implies end[k].len() > 0 by {
            assert(start.dom().contains(k));
        }
    }
}

/// Removes each header that a comma-separated list of names names.
fn remove_listed_headers(headers: &mut HeaderMap, list: &str)
    requires
        vstd::string::is_ascii(list),
    ensures
        header_entries(*final(headers)) == remove_names(
            header_entries(*old(headers)),
            listed_names(list@),
        ),
{
    let ghost start_entries = header_entries(*headers);
    let bytes = list.as_bytes();
    let n = bytes.len();
    let mut start: usize = 0;
    let mut i: usize = 0;
    while i < n
        invariant
            bytes@ == list.spec_bytes(),
            n == bytes@.len(),
            n == list@.len(),
            vstd::string::is_ascii(list),
            start <= i <= n,
            split_commas(list@.take(i as int)).last() == list@.subrange(start as int, i as int),
            header_entries(*headers) == remove_names(
                start_entries,
                split_commas(list@.take(i as int)).drop_last().map_values(|p: Seq<char>| trim(p)),
            ),
        decreases n - i,
    {
        let ghost before = split_commas(list@.take(i as int));
        proof {
            lemma_split_commas_nonempty(list@.take(i as int));
            assert(list@.take(i as int + 1).drop_last() =~= list@.take(i as int));
            assert(list@.take(i as int + 1).last() == list@[i as int]);
        }
        if bytes[i] == 44u8 {
            assert(list@[i as int] == ',');
            remove_trimmed(headers, list, start, i);
            proof {
                let after = split_commas(list@.take(i as int + 1));
                assert(after == before.push(Seq::<char>::empty()));
                assert(after.drop_last() =~= before);
                let trimmed = before.map_values(|p: Seq<char>| trim(p));
                assert(trimmed.drop_last() =~= before.drop_last().map_values(|p: Seq<char>| trim(p)));
                assert(trimmed.last() == trim(before.last()));
                assert(list@.subrange(i as int + 1, i as int + 1) =~= Seq::<char>::empty());
            }
            start = i + 1;
        } else {
            assert(list@[i as int] != ',');
            proof {
                let after = split_commas(list@.take(i as int + 1));
                assert(after.drop_last() =~= before.drop_last());
                assert(after.last() =~= list@.subrange(start as int, i as int + 1));
            }
        }
        i = i + 1;
    }
    remove_trimmed(headers, list, start, n);
    proof {
        let all = split_commas(list@.take(n as int));
        lemma_split_commas_nonempty(list@.take(n as int));
        assert(list@.take(n as int) =~= list@);
        let trimmed = all.map_values(|p: Seq<char>| trim(p));
        assert(trimmed.drop_last() =~= all.drop_last().map_values(|p: Seq<char>| trim(p)));
        assert(trimmed.last() == trim(all.last()));
    }
}

/// Removes the header named by a piece of the list, trimmed.
fn remove_trimmed(headers: &mut HeaderMap, list: &str, from: usize, to: usize)
    requires
        vstd::string::is_ascii(list),
        from <= to <= list@.len(),
    ensures
        header_entries(*final(headers)) == remove_name(
            header_entries(*old(headers)),
            trim(list@.subrange(from as int, to as int)),
        ),
{
    let bytes = list.as_bytes();
    let mut a = from;
    while a < to && (bytes[a] == 32u8 || bytes[a] == 9u8)
        invariant
            bytes@ == list.spec_bytes(),
            vstd::string::is_ascii(list),
            from <= a <= to <= list@.len(),
            trim_start(list@.subrange(from as int, to as int)) == trim_start(
                list@.subrange(a as int, to as int),
            ),
        decreases to - a,
    {
        assert(is_trim_space(list@[a as int]));
        assert(list@.subrange(a as int, to as int).drop_first() =~= list@.subrange(
            a as int + 1,
            to as int,
        ));
        a = a + 1;
    }
    proof {
        let t = list@.subrange(a as int, to as int);
        if t.len() > 0 {
            assert(t[0] == list@[a as int]);
        }
    }
    let mut b = to;
    while b > a && (bytes[b - 1] == 32u8 || bytes[b - 1] == 9u8)
        invariant
            bytes@ == list.spec_bytes(),
            vstd::string::is_ascii(list),
            from <= a <= b <= to <= list@.len(),
            trim(list@.subrange(from as int, to as int)) == trim_end(
                list@.subrange(a as int, b as int),
            ),
        decreases b - a,
    {
        assert(is_trim_space(list@[b - 1]));
        assert(list@.subrange(a as int, b as int).drop_last() =~= list@.subrange(
            a as int,
            b - 1,
        ));
        b = b - 1;
    }
    proof {
        let t = list@.subrange(a as int, b as int);
        if t.len() > 0 {
            assert(t.last() == list@[b - 1]);
        }
    }
    let name = list.substring_ascii(a, b);
    let _ = header_map_remove(headers, name);
}

/// The bytes of an ASCII name: one byte per character, with its code.
pub open spec fn ascii_bytes(name: Seq<char>) -> Seq<u8> {
    name.map_values(|c: char| c as u8)
}

/// A name made of lower-case letters and hyphens is looked up by its own bytes.
pub proof fn lemma_lowercase_name_key(name: Seq<char>)
    requires
        1 <= name.len() <= 64,
        forall|i: int| 0 <= i < name.len() ==> (('a' <= #[trigger] name[i] && name[i] <= 'z') || name[i] == '-'),
    ensures
        name_key(name) == Some(ascii_bytes(name)),
{
    assert(vstd::utf8::is_ascii_chars(name));
    assert(forall|i: int| 0 <= i < name.len() ==> is_token_char(#[trigger] name[i]));
    assert(name.map_values(|c: char| ascii_lower_byte(c)) =~= ascii_bytes(name));
}

/// Removing a name keeps every other entry as it was.
pub proof fn lemma_remove_name_submap(m: HeaderEntries, name: Seq<char>)
    ensures
        remove_name(m, name).submap_of(m),
{
}

/// Removing names keeps every other entry as it was.
pub proof fn lemma_remove_names_submap(m: HeaderEntries, names: Seq<Seq<char>>)
    ensures
        remove_names(m, names).submap_of(m),
    decreases names.len(),
{
    if names.len() > 0 {
        lemma_remove_names_submap(m, names.drop_last());
    }
}

/// Dropping the `Connection` header and what it lists keeps every other entry.
pub proof fn lemma_without_connection_submap(t: HeaderEntries)
    ensures
        without_connection_header(t).submap_of(t),
{
    let rest = remove_name(t, "connection"@);
    assert(rest.submap_of(t));
    match first_value(t, "connection"@) {
        Some(v) => if all_visible_ascii(v) {
            let s = remove_names(rest, listed_names(ascii_chars(v)));
            lemma_remove_names_submap(rest, listed_names(ascii_chars(v)));
            assert forall|k: Seq<u8>| #[trigger] s.dom().contains(k) implies t.dom().contains(k)
                && s[k] == t[k] by {
                assert(rest.dom().contains(k));
            }
        },
        None => {},
    }
}

/// Stripping only removes headers: every header that remains keeps all of its
/// values, in order.
pub proof fn lemma_strip_keeps_other_headers(m: HeaderEntries, is_request: bool)
    ensures
        stripped_headers(m, is_request).submap_of(m),
{
    let f = without_fixed_headers(m);
    let t = without_illegal_te(f, is_request);
    let s = without_connection_header(t);
    lemma_without_connection_submap(t);
    assert(t.submap_of(f));
    assert(f.submap_of(m));
    assert forall|k: Seq<u8>| #[trigger] s.dom().contains(k) implies m.dom().contains(k) && s[k]
        == m[k] by {
        assert(t.dom().contains(k));
        assert(f.dom().contains(k));
    }
}

/// The keys of the headers that HTTP/2 never carries.
pub proof fn lemma_forbidden_keys()
    ensures
        name_key("keep-alive"@) == Some(ascii_bytes("keep-alive"@)),
        name_key("proxy-connection"@) == Some(ascii_bytes("proxy-connection"@)),
        name_key("transfer-encoding"@) == Some(ascii_bytes("transfer-encoding"@)),
        name_key("upgrade"@) == Some(ascii_bytes("upgrade"@)),
        name_key("connection"@) == Some(ascii_bytes("connection"@)),
        name_key("te"@) == Some(ascii_bytes("te"@)),
{
    reveal_strlit("keep-alive");
    reveal_strlit("proxy-connection");
    reveal_strlit("transfer-encoding");
    reveal_strlit("upgrade");
    reveal_strlit("connection");
    reveal_strlit("te");
    lemma_lowercase_name_key("keep-alive"@);
    lemma_lowercase_name_key("proxy-connection"@);
    lemma_lowercase_name_key("transfer-encoding"@);
    lemma_lowercase_name_key("upgrade"@);
    lemma_lowercase_name_key("connection"@);
    lemma_lowercase_name_key("te"@);
}

proof fn lemma_absent_in_submap(a: HeaderEntries, b: HeaderEntries, k: Seq<u8>)
    requires
        a.submap_of(b),
    ensures
        !b.dom().contains(k) ==> !a.dom().contains(k),
{
    if a.dom().contains(k) {
        assert(b.dom().contains(k));
    }
}

/// After stripping, no `Keep-Alive`, `Proxy-Connection`, `Transfer-Encoding`,
/// `Upgrade` or `Connection` header remains, and a response keeps no `TE`.
pub proof fn lemma_strip_removes_forbidden(m: HeaderEntries, is_request: bool)
    ensures
        ({
            let s = stripped_headers(m, is_request);
            &&& !s.dom().contains(ascii_bytes("keep-alive"@))
            &&& !s.dom().contains(ascii_bytes("proxy-connection"@))
            &&& !s.dom().contains(ascii_bytes("transfer-encoding"@))
            &&& !s.dom().contains(ascii_bytes("upgrade"@))
            &&& !s.dom().contains(ascii_bytes("connection"@))
            &&& !is_request ==> !s.dom().contains(ascii_bytes("te"@))
        }),
{
    lemma_forbidden_keys();
    let f = without_fixed_headers(m);
    let t = without_illegal_te(f, is_request);
    let s = without_connection_header(t);
    lemma_without_connection_submap(t);
    let m1 = remove_name(m, "keep-alive"@);
    let m2 = remove_name(m1, "proxy-connection"@);
    let m3 = remove_name(m2, "transfer-encoding"@);
    assert(f == remove_name(m3, "upgrade"@));
    assert(!m1.dom().contains(ascii_bytes("keep-alive"@)));
    assert(!m2.dom().contains(ascii_bytes("keep-alive"@)));
    assert(!m2.dom().contains(ascii_bytes("proxy-connection"@)));
    assert(!m3.dom().contains(ascii_bytes("keep-alive"@)));
    assert(!m3.dom().contains(ascii_bytes("proxy-connection"@)));
    assert(!m3.dom().contains(ascii_bytes("transfer-encoding"@)));
    assert(!f.dom().contains(ascii_bytes("keep-alive"@)));
    assert(!f.dom().contains(ascii_bytes("proxy-connection"@)));
    assert(!f.dom().contains(ascii_bytes("transfer-encoding"@)));
    assert(!f.dom().contains(ascii_bytes("upgrade"@)));
    assert(t.submap_of(f));
    assert(!is_request ==> !t.dom().contains(ascii_bytes("te"@)));
    let rest = remove_name(t, "connection"@);
    assert(!rest.dom().contains(ascii_bytes("connection"@)));
    assert(rest.submap_of(t));
    match first_value(t, "connection"@) {
        Some(v) => if all_visible_ascii(v) {
            lemma_remove_names_submap(rest, listed_names(ascii_chars(v)));
        },
        None => {},
    }
    assert(s.submap_of(rest));
    lemma_absent_in_submap(t, f, ascii_bytes("keep-alive"@));
    lemma_absent_in_submap(t, f, ascii_bytes("proxy-connection"@));
    lemma_absent_in_submap(t, f, ascii_bytes("transfer-encoding"@));
    lemma_absent_in_submap(t, f, ascii_bytes("upgrade"@));
    lemma_absent_in_submap(rest, t, ascii_bytes("keep-alive"@));
    lemma_absent_in_submap(rest, t, ascii_bytes("proxy-connection"@));
    lemma_absent_in_submap(rest, t, ascii_bytes("transfer-encoding"@));
    lemma_absent_in_submap(rest, t, ascii_bytes("upgrade"@));
    lemma_absent_in_submap(rest, t, ascii_bytes("te"@));
    lemma_absent_in_submap(s, rest, ascii_bytes("keep-alive"@));
    lemma_absent_in_submap(s, rest, ascii_bytes("proxy-connection"@));
    lemma_absent_in_submap(s, rest, ascii_bytes("transfer-encoding"@));
    lemma_absent_in_submap(s, rest, ascii_bytes("upgrade"@));
    lemma_absent_in_submap(s, rest, ascii_bytes("connection"@));
    lemma_absent_in_submap(s, rest, ascii_bytes("te"@));
    assert(!s.dom().contains(ascii_bytes("keep-alive"@)));
    assert(!s.dom().contains(ascii_bytes("proxy-connection"@)));
    assert(!s.dom().contains(ascii_bytes("transfer-encoding"@)));
    assert(!s.dom().contains(ascii_bytes("upgrade"@)));
    assert(!s.dom().contains(ascii_bytes("connection"@)));
    assert(!is_request ==> !s.dom().contains(ascii_bytes("te"@)));
}

/// Stripping a second time changes nothing.
pub proof fn lemma_strip_idempotent(m: HeaderEntries, is_request: bool)
    ensures
        stripped_headers(stripped_headers(m, is_request), is_request) == stripped_headers(
            m,
            is_request,
        ),
{
    lemma_forbidden_keys();
    lemma_strip_removes_forbidden(m, is_request);
    let f = without_fixed_headers(m);
    let t = without_illegal_te(f, is_request);
    let s = stripped_headers(m, is_request);
    lemma_without_connection_submap(t);
    assert(s.submap_of(t));
    assert(without_fixed_headers(s) =~= s);
    let te = ascii_bytes("te"@);
    if is_request && s.dom().contains(te) {
        assert(t.dom().contains(te));
        assert(s[te] == t[te]);
        assert(f.dom().contains(te));
    }
    assert(without_illegal_te(s, is_request) =~= s);
    assert(first_value(s, "connection"@) is None);
    assert(remove_name(s, "connection"@) =~= s);
}

/// Removing names leaves none of their keys behind.
pub proof fn lemma_remove_names_absent(m: HeaderEntries, names: Seq<Seq<char>>, i: int)
    requires
        0 <= i < names.len(),
    ensures
        name_key(names[i]) matches Some(k) ==> !remove_names(m, names).dom().contains(k),
    decreases names.len(),
{
    let rest = remove_names(m, names.drop_last());
    lemma_remove_name_submap(rest, names.last());
    if i < names.len() - 1 {
        lemma_remove_names_absent(m, names.drop_last(), i);
        assert(names.drop_last()[i] == names[i]);
        if let Some(k) = name_key(names[i]) {
            lemma_absent_in_submap(remove_names(m, names), rest, k);
        }
    }
}

/// Every header that the first `Connection` value lists is gone after
/// stripping, where that value is visible ASCII and the listed name is a valid
/// header name.
pub proof fn lemma_strip_removes_listed(m: HeaderEntries, is_request: bool, i: int)
    requires
        ({
            let t = without_illegal_te(without_fixed_headers(m), is_request);
            first_value(t, "connection"@) matches Some(v) && all_visible_ascii(v) && 0 <= i
                < listed_names(ascii_chars(v)).len()
        }),
    ensures
        ({
            let t = without_illegal_te(without_fixed_headers(m), is_request);
            let v = first_value(t, "connection"@)->Some_0;
            name_key(listed_names(ascii_chars(v))[i]) matches Some(k) ==> !stripped_headers(
                m,
                is_request,
            ).dom().contains(k)
        }),
{
    let t = without_illegal_te(without_fixed_headers(m), is_request);
    let v = first_value(t, "connection"@)->Some_0;
    lemma_remove_names_absent(remove_name(t, "connection"@), listed_names(ascii_chars(v)), i);
}

/// The `Connection` entry passes untouched through the removal of the fixed
/// connection headers and of an illegal `TE`.
proof fn lemma_connection_entry_kept(m: HeaderEntries, is_request: bool)
    ensures
        ({
            let t = without_illegal_te(without_fixed_headers(m), is_request);
            let c = ascii_bytes("connection"@);
            &&& t.dom().contains(c) == m.dom().contains(c)
            &&& m.dom().contains(c) ==> t[c] == m[c]
            &&& first_value(t, "connection"@) == first_value(m, "connection"@)
        }),
{
    lemma_forbidden_keys();
    reveal_strlit("keep-alive");
    reveal_strlit("proxy-connection");
    reveal_strlit("transfer-encoding");
    reveal_strlit("upgrade");
    reveal_strlit("connection");
    reveal_strlit("te");
    let c = ascii_bytes("connection"@);
    assert(c.len() == 10 && c[0] == 99u8);
    assert(ascii_bytes("keep-alive"@)[0] == 107u8);
    assert(ascii_bytes("keep-alive"@) != c);
    assert(ascii_bytes("proxy-connection"@).len() == 16);
    assert(ascii_bytes("transfer-encoding"@).len() == 17);
    assert(ascii_bytes("upgrade"@).len() == 7);
    assert(ascii_bytes("te"@).len() == 2);
    let m1 = remove_name(m, "keep-alive"@);
    let m2 = remove_name(m1, "proxy-connection"@);
    let m3 = remove_name(m2, "transfer-encoding"@);
    let f = remove_name(m3, "upgrade"@);
    assert(f == without_fixed_headers(m));
    let t = without_illegal_te(f, is_request);
    assert(m1.dom().contains(c) == m.dom().contains(c));
    assert(m2.dom().contains(c) == m.dom().contains(c));
    assert(m3.dom().contains(c) == m.dom().contains(c));
    assert(f.dom().contains(c) == m.dom().contains(c));
    assert(t.dom().contains(c) == m.dom().contains(c));
    if m.dom().contains(c) {
        assert(m1[c] == m[c]);
        assert(m2[c] == m[c]);
        assert(m3[c] == m[c]);
        assert(f[c] == m[c]);
        assert(t[c] == m[c]);
    }
}

/// Every header that the first `Connection` value names is gone after
/// stripping: where that value is visible ASCII, each of its comma-separated
/// pieces, with leading and trailing spaces and tabs removed, names no header
/// that remains.
pub proof fn lemma_strip_removes_each_named_piece(m: HeaderEntries, is_request: bool, i: int)
    requires
        first_value(m, "connection"@) matches Some(v) && all_visible_ascii(v) && 0 <= i
            < split_commas(ascii_chars(v)).len(),
    ensures
        ({
            let v = first_value(m, "connection"@)->Some_0;
            let piece = split_commas(ascii_chars(v))[i];
            name_key(trim_end(trim_start(piece))) matches Some(k) ==> !stripped_headers(
                m,
                is_request,
            ).dom().contains(k)
        }),
{
    lemma_connection_entry_kept(m, is_request);
    let v = first_value(m, "connection"@)->Some_0;
    let pieces = split_commas(ascii_chars(v));
    assert(listed_names(ascii_chars(v)).len() == pieces.len());
    assert(listed_names(ascii_chars(v))[i] == trim_end(trim_start(pieces[i])));
    lemma_strip_removes_listed(m, is_request, i);
}

/// A request keeps a `TE` header only where its first value is `trailers`.
pub proof fn lemma_strip_request_te_is_trailers(m: HeaderEntries)
    requires
        values_nonempty(m),
    ensures
        ({
            let s = stripped_headers(m, true);
            let te = ascii_bytes("te"@);
            s.dom().contains(te) ==> s[te].len() > 0 && s[te][0] == "trailers".spec_bytes()
        }),
{
    lemma_forbidden_keys();
    let f = without_fixed_headers(m);
    let t = without_illegal_te(f, true);
    let s = without_connection_header(t);
    let te = ascii_bytes("te"@);
    lemma_without_connection_submap(t);
    let m1 = remove_name(m, "keep-alive"@);
    let m2 = remove_name(m1, "proxy-connection"@);
    let m3 = remove_name(m2, "transfer-encoding"@);
    assert(m1.submap_of(m));
    assert(m2.submap_of(m1));
    assert(m3.submap_of(m2));
    assert(f.submap_of(m3));
    if s.dom().contains(te) {
        assert(t.dom().contains(te));
        assert(s[te] == t[te]);
        assert(f.dom().contains(te));
        assert(m3.dom().contains(te));
        assert(m2.dom().contains(te));
        assert(m1.dom().contains(te));
        assert(m.dom().contains(te));
        assert(f[te] == m[te]);
        assert(f[te].len() > 0);
        assert(first_value(f, "te"@) == Some(f[te][0]));
        assert(t == f);
    }
}

} // verus!
