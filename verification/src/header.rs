//! HTTP header fields.

use reqwest::header::HeaderMap;
use reqwest::header::HeaderValue;
use reqwest::header::InvalidHeaderValue;
use vstd::prelude::*;
use vstd::utf8::encode_utf8;

verus! {

/// `reqwest`'s map of header fields, opaque: [`header_fields`] names what it
/// holds.
#[verifier::external_type_specification]
#[verifier::external_body]
#[verifier::reject_recursive_types(T)]
pub struct ExHeaderMap<T>(reqwest::header::HeaderMap<T>);

/// `reqwest`'s header value, opaque: [`header_value_bytes`] names what it holds.
#[verifier::external_type_specification]
#[verifier::external_body]
pub struct ExHeaderValue(reqwest::header::HeaderValue);

/// `reqwest`'s error for text that is no header value, opaque: it is only carried.
#[verifier::external_type_specification]
#[verifier::external_body]
pub struct ExInvalidHeaderValue(reqwest::header::InvalidHeaderValue);

/// The bytes of a header value.
pub uninterp spec fn header_value_bytes(value: reqwest::header::HeaderValue) -> Seq<u8>;

/// The header fields of a map: under each lower-case name its values in order,
/// each by its bytes.
pub uninterp spec fn header_fields(map: reqwest::header::HeaderMap<reqwest::header::HeaderValue>) -> Map<Seq<char>, Seq<Seq<u8>>>;

/// The fields of a map that has none.
pub open spec fn no_fields() -> Map<Seq<char>, Seq<Seq<u8>>> {
    Map::empty()
}

/// Whether a character may stand in the value of a header field: a control
/// character may not, except the tab.
pub open spec fn header_char_ok(c: char) -> bool {
    c as u32 >= 32 && c as u32 != 127 || c as u32 == 9
}

/// Whether text can be the value of a header field.
pub open spec fn header_text_ok(text: Seq<char>) -> bool {
    forall|i: int| 0 <= i < text.len() ==> header_char_ok(#[trigger] text[i])
}

/// Whether text is a plain name of a header field: lower-case letters of ASCII
/// and hyphens, from one to sixty-four of them.
pub open spec fn plain_field_name(name: Seq<char>) -> bool {
    &&& 0 < name.len() <= 64
    &&& forall|i: int| 0 <= i < name.len() ==> ('a' <= #[trigger] name[i] <= 'z' || name[i] == '-')
}

/// `HeaderMap::new`: a map without fields.
#[verifier::external_body]
pub(crate) fn header_map_new() -> (map: HeaderMap<HeaderValue>)
    ensures
        header_fields(map) == no_fields(),
{
    HeaderMap::new()
}

/// `HeaderMap::insert`: afterwards the name has the one value `value`, and every
/// other field is as it was. It panics where the map is full, and on what is no
/// name.
#[verifier::external_body]
pub(crate) fn header_map_insert(
    map: &mut HeaderMap<HeaderValue>,
    name: &'static str,
    value: HeaderValue,
)
    requires
        header_fields(*old(map)).dom().finite(),
        header_fields(*old(map)).len() < 100,
        plain_field_name(name@),
    ensures
        header_fields(*final(map)) == header_fields(*old(map)).insert(
            name@,
            seq![header_value_bytes(value)],
        ),
{
    map.insert(name, value);
}

/// `HeaderValue::from_str`: the value whose bytes are the UTF-8 form of `text`. It
/// fails on text that no header field can have, and on that alone.
#[verifier::external_body]
pub(crate) fn header_value(text: &str) -> (value: Result<HeaderValue, InvalidHeaderValue>)
    ensures
        match value {
            Ok(v) => header_text_ok(text@) && header_value_bytes(v) == encode_utf8(text@),
            Err(_) => !header_text_ok(text@),
        },
{
    HeaderValue::from_str(text)
}

} // verus!
