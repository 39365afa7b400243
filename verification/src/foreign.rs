//! The functions of other crates, and of the standard library, that the
//! client calls, each with the contract the rest of the crate relies on.
//! Nothing in this module is proved: every contract here restates what the
//! called function's source or documentation shows.

use vstd::prelude::*;
use vstd::utf8::{decode_utf8, valid_utf8};

verus! {

/// The error of `url::Url::parse`.
#[verifier::external_type_specification]
#[verifier::external_body]
pub struct ExUrlParseError(url::ParseError);

/// The error of `hyper::header::HeaderValue::from_str`.
#[verifier::external_type_specification]
#[verifier::external_body]
pub struct ExInvalidHeaderValue(hyper::header::InvalidHeaderValue);

/// The error of `serde_json::from_slice`.
#[verifier::external_type_specification]
#[verifier::external_body]
pub struct ExJsonError(serde_json::Error);

/// What `url::Url::parse` makes of a text: `None` where it refuses the
/// text, else the serialization of the parsed URL.
pub uninterp spec fn parsed_url(text: Seq<char>) -> Option<Seq<char>>;

/// Calls `url::Url::parse` and, on success, turns the URL into its
/// serialization. The contract only names the outcome: whether the text is
/// accepted, and the normalised text of the URL, are those of the `url`
/// crate.
#[verifier::external_body]
pub(crate) fn parse_url(text: &str) -> (r: Result<String, url::ParseError>)
    ensures
        r matches Ok(s) ==> parsed_url(text@) == Some(s@),
        r is Err ==> parsed_url(text@) is None,
{
    url::Url::parse(text).map(String::from)
}

/// Whether a byte may stand in a header value: any byte from 32 on except
/// 127, and the tab.
pub open spec fn is_header_value_byte(b: u8) -> bool {
    (b >= 32 && b != 127) || b == 9
}

/// Whether every byte of the UTF-8 encoding of `text` may stand in a header
/// value.
pub open spec fn is_header_value(text: Seq<char>) -> bool {
    let bytes = vstd::utf8::encode_utf8(text);
    forall|i: int| 0 <= i < bytes.len() ==> is_header_value_byte(#[trigger] bytes[i])
}

/// Calls `hyper::header::HeaderValue::from_str` and drops the value. That
/// function walks the bytes of the text and fails on the first one that is
/// below 32 and not a tab, or is 127.
#[verifier::external_body]
pub(crate) fn check_header_value(text: &str) -> (r: Result<(), hyper::header::InvalidHeaderValue>)
    ensures
        r is Ok <==> is_header_value(text@),
{
    hyper::header::HeaderValue::from_str(text).map(drop)
}

/// What `serde_json::from_slice` finds under a member name: `None` where
/// the bytes are not a JSON object, else `Some` of the member's text where
/// the object has that member and it is a string, and of `None` where not.
pub uninterp spec fn json_text_member(bytes: Seq<u8>, key: Seq<char>) -> Option<Option<Seq<char>>>;

/// Calls `serde_json::from_slice` for a map from member names to JSON
/// values and moves the member `key` out where it is a string. The
/// contract only names the outcome: what counts as a JSON object is decided
/// by `serde_json`.
#[verifier::external_body]
pub(crate) fn parse_text_member(bytes: &[u8], key: &str) -> (r: Result<
    Option<String>,
    serde_json::Error,
>)
    ensures
        r matches Ok(member) ==> json_text_member(bytes@, key@) == Some(
            crate::text::opt_text(member),
        ),
        r is Err ==> json_text_member(bytes@, key@) is None,
{
    let members = serde_json::from_slice::<std::collections::HashMap<String, serde_json::Value>>(
        bytes,
    );
    members.map(|mut members| match members.remove(key) {
        Some(serde_json::Value::String(text)) => Some(text),
        _ => None,
    })
}

/// The concurrent map of the `dashmap` crate.
#[verifier::external_type_specification]
#[verifier::external_body]
#[verifier::reject_recursive_types(K)]
#[verifier::reject_recursive_types(V)]
#[verifier::reject_recursive_types(S)]
pub struct ExDashMap<K, V, S>(dashmap::DashMap<K, V, S>);

/// What a map from names to ids holds. The crate changes such a map only
/// through [`cache_insert`], which takes it exclusively, so that what a
/// shared map holds does not change under the eyes of its readers.
pub uninterp spec fn cached(cache: dashmap::DashMap<String, u32>) -> Map<Seq<char>, u32>;

/// Calls `DashMap::new`, which makes a map without entries.
#[verifier::external_body]
pub(crate) fn cache_new() -> (names: dashmap::DashMap<String, u32>)
    ensures
        cached(names).dom() == Set::<Seq<char>>::empty(),
{
    dashmap::DashMap::new()
}

/// Calls `DashMap::get` and copies the value out of the guard: the id
/// stored under the name, if there is one.
#[verifier::external_body]
pub(crate) fn cache_get(cache: &dashmap::DashMap<String, u32>, name: &str) -> (id: Option<u32>)
    ensures
        id == if cached(*cache).contains_key(name@) {
            Some(cached(*cache)[name@])
        } else {
            None::<u32>
        },
{
    cache.get(name).map(|entry| *entry.value())
}

/// Calls `DashMap::insert` and drops the value it replaced: afterwards the
/// name stands for the id, and every other name for what it stood for.
#[verifier::external_body]
pub(crate) fn cache_insert(cache: &mut dashmap::DashMap<String, u32>, name: String, id: u32)
    ensures
        cached(*final(cache)) == cached(*old(cache)).insert(name@, id),
{
    cache.insert(name, id);
}

/// The lower-case letter of an upper-case ASCII letter, and any other
/// character unchanged.
pub open spec fn ascii_lower(c: char) -> char {
    if 'A' <= c && c <= 'Z' {
        ((c as u32) + 32) as char
    } else {
        c
    }
}

/// Calls `String::make_ascii_lowercase`, which maps the letters `A` to `Z`
/// to `a` to `z` and keeps every other character.
#[verifier::external_body]
pub(crate) fn make_ascii_lowercase(text: &mut String)
    ensures
        final(text)@ == old(text)@.map_values(|c: char| ascii_lower(c)),
{
    text.make_ascii_lowercase();
}

/// What `String::from_utf8_lossy` makes of bytes.
pub uninterp spec fn lossy_text(bytes: Seq<u8>) -> Seq<char>;

/// Calls `String::from_utf8_lossy` and takes the result as an owned string.
/// Valid UTF-8 is decoded as it is; in other input each invalid sequence is
/// replaced by U+FFFD, which the contract only names.
#[verifier::external_body]
pub(crate) fn lossy_string(bytes: &[u8]) -> (s: String)
    ensures
        s@ == lossy_text(bytes@),
        valid_utf8(bytes@) ==> s@ == decode_utf8(bytes@),
{
    String::from_utf8_lossy(bytes).into_owned()
}

} // verus!
