//! The credential header that accompanies every request.

use reqwest::header::{HeaderMap, HeaderValue, InvalidHeaderValue};
use vstd::prelude::*;
use vstd::string::*;
use vstd::utf8::*;

use crate::error::ClientError;

verus! {

/// `http::HeaderValue`, which `reqwest` hands on: some bytes and a mark. Its
/// inside is not looked at here; [`header_value_bytes`] and
/// [`header_value_sensitive`] stand for it.
#[verifier::external_type_specification]
#[verifier::external_body]
pub struct ExHeaderValue(reqwest::header::HeaderValue);

/// `http::header::InvalidHeaderValue`, the error of `HeaderValue::from_str`.
/// It carries nothing.
#[verifier::external_type_specification]
#[verifier::external_body]
pub struct ExInvalidHeaderValue(reqwest::header::InvalidHeaderValue);

/// `http::HeaderMap`, which `reqwest` hands on: a multimap from header names
/// to values. Its inside is not looked at here; [`header_entries`] stands for
/// it.
#[verifier::external_type_specification]
#[verifier::external_body]
#[verifier::reject_recursive_types(T)]
pub struct ExHeaderMap<T>(reqwest::header::HeaderMap<T>);

/// The bytes a header value holds: what `HeaderValue::as_bytes` returns.
pub uninterp spec fn header_value_bytes(value: HeaderValue) -> Seq<u8>;

/// Whether a header value is marked as not to be shown in debug output: what
/// `HeaderValue::is_sensitive` returns.
pub uninterp spec fn header_value_sensitive(value: HeaderValue) -> bool;

/// A header map as plain values: for each name, its values in order, each as
/// its bytes and its sensitivity mark.
pub type Entries = Map<Seq<char>, Seq<(Seq<u8>, bool)>>;

/// What a header map holds: the names it has values for, and under each the
/// values that `HeaderMap::get_all` walks through.
pub uninterp spec fn header_entries(map: HeaderMap<HeaderValue>) -> Entries;

/// The header set without entries.
pub open spec fn no_entries() -> Entries {
    Map::empty()
}

/// The name under which the API key travels.
pub const API_KEY_HEADER: &'static str = "x-api-key";

/// A byte that may stand in a header value: anything but the ASCII control
/// characters, the horizontal tab excepted.
pub open spec fn header_byte_ok(b: u8) -> bool {
    (b >= 32 && b != 127) || b == 9
}

/// Bytes that can be sent as a header value.
pub open spec fn credential_ok(bytes: Seq<u8>) -> bool {
    forall|i: int| 0 <= i < bytes.len() ==> header_byte_ok(#[trigger] bytes[i])
}

/// An ASCII control character that no header value may hold: all of them but
/// the horizontal tab.
pub open spec fn is_forbidden_control(c: char) -> bool {
    (c as u32) < 32 && c as u32 != 9 || c as u32 == 127
}

/// A key that can be sent: one without forbidden control characters.
pub open spec fn key_ok(key: Seq<char>) -> bool {
    forall|i: int| 0 <= i < key.len() ==> !is_forbidden_control(#[trigger] key[i])
}

/// Names this library inserts: short, lower-case letters, digits and hyphens.
pub open spec fn header_name_ok(name: Seq<char>) -> bool {
    &&& 0 < name.len() <= 64
    &&& forall|i: int| 0 <= i < name.len() ==> {
        let c = #[trigger] name[i];
        ('a' <= c && c <= 'z') || ('0' <= c && c <= '9') || c == '-'
    }
}

/// The header set of a client whose key has the given bytes: the key, once,
/// under [`API_KEY_HEADER`], marked sensitive.
pub open spec fn auth_entries(key: Seq<u8>) -> Entries {
    no_entries().insert(API_KEY_HEADER@, seq![(key, true)])
}

/// `HeaderValue::from_str` accepts a string exactly when each of its bytes is
/// at least 32 and not 127, or is a tab. The value then holds the string's
/// bytes and is not marked sensitive.
pub assume_specification[ reqwest::header::HeaderValue::from_str ](src: &str) -> (r: Result<
    HeaderValue,
    InvalidHeaderValue,
>)
    ensures
        r is Ok <==> credential_ok(src.spec_bytes()),
        r matches Ok(v) ==> header_value_bytes(v) == src.spec_bytes() && !header_value_sensitive(v),
;

/// `HeaderValue::set_sensitive` stores the mark and leaves the bytes alone.
pub assume_specification[ reqwest::header::HeaderValue::set_sensitive ](value: &mut HeaderValue, val: bool)
    ensures
        header_value_bytes(*final(value)) == header_value_bytes(*old(value)),
        header_value_sensitive(*final(value)) == val,
;

/// `HeaderMap::new` makes a map without entries.
#[verifier::external_body]
fn empty_headers() -> (map: HeaderMap)
    ensures
        header_entries(map) == no_entries(),
{
    HeaderMap::new()
}

/// `HeaderMap::insert` makes `value` the only value under `name`, whatever
/// stood there before, and touches no other name. It panics on a name that is
/// not a header name and on a map that has reached its capacity of some
/// twenty thousand names; both are excluded here.
#[verifier::external_body]
fn insert_header(map: &mut HeaderMap, name: &'static str, value: HeaderValue)
    requires
        header_name_ok(name@),
        header_entries(*old(map)).dom().finite(),
        header_entries(*old(map)).dom().len() < 1024,
    ensures
        header_entries(*final(map)) == header_entries(*old(map)).insert(
            name@,
            seq![(header_value_bytes(value), header_value_sensitive(value))],
        ),
{
    map.insert(name, value);
}

/// `HeaderMap::clone` copies every entry.
#[verifier::external_body]
pub(crate) fn copy_headers(map: &HeaderMap) -> (copy: HeaderMap)
    ensures
        header_entries(copy) == header_entries(*map),
{
    map.clone()
}

/// Builds the header set for an API key.
///
/// Succeeds exactly on keys without forbidden control characters; the set
/// then holds one entry, the key under [`API_KEY_HEADER`], marked sensitive.
pub fn auth_headers(api_key: &str) -> (r: Result<HeaderMap, ClientError>)
    ensures
        r is Ok <==> key_ok(api_key@),
        r matches Ok(map) ==> header_entries(map) == auth_entries(api_key.spec_bytes()),
        r matches Err(e) ==> e == ClientError::InvalidCredential,
{
    proof {
        lemma_credential_by_chars(api_key@);
    }
    let mut default_headers = empty_headers();
    match HeaderValue::from_str(api_key) {
        Ok(mut header_value) => {
            header_value.set_sensitive(true);
            proof {
                reveal_strlit("x-api-key");
            }
            insert_header(&mut default_headers, API_KEY_HEADER, header_value);
            Ok(default_headers)
        },
        Err(_) => Err(ClientError::InvalidCredential),
    }
}

proof fn lemma_encoded_bytes(v: u32)
    by (bit_vector)
    ensures
        v <= 0x7F ==> (v & 0x7F) as u8 == v,
        0xC0u8 | ((v >> 6) & 0x1F) as u8 >= 0x80,
        0xE0u8 | ((v >> 12) & 0x0F) as u8 >= 0x80,
        0xF0u8 | ((v >> 18) & 0x7) as u8 >= 0x80,
        0x80u8 | (v & 0x3F) as u8 >= 0x80,
        0x80u8 | ((v >> 6) & 0x3F) as u8 >= 0x80,
        0x80u8 | ((v >> 12) & 0x3F) as u8 >= 0x80,
{
}

proof fn lemma_credential_concat(a: Seq<u8>, b: Seq<u8>)
    ensures
        credential_ok(a + b) <==> credential_ok(a) && credential_ok(b),
{
    if credential_ok(a + b) {
        assert forall|i: int| 0 <= i < a.len() implies header_byte_ok(#[trigger] a[i]) by {
            assert((a + b)[i] == a[i]);
        }
        assert forall|i: int| 0 <= i < b.len() implies header_byte_ok(#[trigger] b[i]) by {
            assert((a + b)[i + a.len()] == b[i]);
        }
    }
    if credential_ok(a) && credential_ok(b) {
        assert forall|i: int| 0 <= i < (a + b).len() implies header_byte_ok(
            #[trigger] (a + b)[i],
        ) by {
            if i < a.len() {
                assert((a + b)[i] == a[i]);
            } else {
                assert((a + b)[i] == b[i - a.len()]);
            }
        }
    }
}

/// The bytes of a key can stand in a header value exactly when none of its
/// characters is a forbidden control character: beyond ASCII, UTF-8 uses no
/// byte below 128.
pub proof fn lemma_credential_by_chars(key: Seq<char>)
    ensures
        credential_ok(encode_utf8(key)) <==> key_ok(key),
    decreases key.len(),
{
    if key.len() > 0 {
        let v = key[0] as u32;
        let head = encode_scalar(v);
        let rest = key.drop_first();
        lemma_encoded_bytes(v);
        char_is_scalar(key[0]);
        assert(credential_ok(head) <==> !is_forbidden_control(key[0])) by {
            if credential_ok(head) {
                assert(header_byte_ok(head[0]));
            }
        }
        lemma_credential_concat(head, encode_utf8(rest));
        lemma_credential_by_chars(rest);
        if key_ok(key) {
            assert forall|i: int| 0 <= i < rest.len() implies !is_forbidden_control(
                #[trigger] rest[i],
            ) by {
                assert(rest[i] == key[i + 1]);
            }
        }
        if credential_ok(encode_utf8(key)) {
            assert forall|i: int| 0 <= i < key.len() implies !is_forbidden_control(
                #[trigger] key[i],
            ) by {
                if i > 0 {
                    assert(key[i] == rest[i - 1]);
                }
            }
        }
    }
}

/// A key that holds an ASCII control character other than the horizontal tab
/// cannot be sent, wherever the character stands.
pub proof fn lemma_control_character_refused(key: Seq<char>, at: int)
    requires
        0 <= at < key.len(),
        is_forbidden_control(key[at]),
    ensures
        !key_ok(key),
        !credential_ok(encode_utf8(key)),
{
    lemma_credential_by_chars(key);
}

} // verus!
