//! HTTP header fields and status codes.
//!
//! A [`HeaderMap`] stays opaque. What it holds is [`header_fields`], and each function here
//! that reads or fills one makes a single call into `reqwest` or `headers`.

use headers::{Date, HeaderMapExt, IfRange, LastModified, Range};
use reqwest::header::{HeaderMap, HeaderValue, IF_RANGE};
use reqwest::StatusCode;
use std::time::{Duration, SystemTime, UNIX_EPOCH};
use vstd::prelude::*;

verus! {

/// `HeaderMap`, the multimap of header fields.
#[verifier::external_type_specification]
#[verifier::external_body]
#[verifier::reject_recursive_types(T)]
pub struct ExHeaderMap<T>(reqwest::header::HeaderMap<T>);

/// `HeaderValue`, the value of one header field.
#[verifier::external_type_specification]
#[verifier::external_body]
pub struct ExHeaderValue(reqwest::header::HeaderValue);

/// Field values under their names.
pub type Fields = Map<Seq<char>, Seq<Seq<u8>>>;

/// What `headers` holds: for each field name, in lower case, the values in the order in which
/// they were added.
pub uninterp spec fn header_fields(headers: HeaderMap) -> Fields;

/// The seconds since the Unix epoch that the field value `text` stands for, read as an HTTP
/// date.
pub uninterp spec fn http_date(text: Seq<u8>) -> Option<u64>;

/// The field value that writes down the second `secs` since the Unix epoch as an HTTP date.
pub uninterp spec fn http_date_text(secs: u64) -> Seq<u8>;

/// The reason phrase that is standard for `status`.
pub uninterp spec fn reason_phrase(status: u16) -> Option<Seq<char>>;

/// The first second that is past the last year of an HTTP date.
pub const HTTP_DATE_END: u64 = 253402300800;

/// A field name in the form in which [`header_fields`] lists it.
pub open spec fn is_field_name(name: Seq<char>) -> bool {
    &&& 0 < name.len() <= 64
    &&& forall|i: int| 0 <= i < name.len() ==> ('a' <= #[trigger] name[i] <= 'z' || name[i] == '-')
}

/// The values of the field `name`.
pub open spec fn values_of(fields: Fields, name: Seq<char>) -> Seq<Seq<u8>> {
    if fields.contains_key(name) {
        fields[name]
    } else {
        Seq::empty()
    }
}

/// The date that the field `name` states. A field that is there more than once states none.
pub open spec fn date_field(fields: Fields, name: Seq<char>) -> Option<u64> {
    if values_of(fields, name).len() == 1 {
        http_date(values_of(fields, name)[0])
    } else {
        None
    }
}

/// A byte that is printable ASCII or a tab.
pub open spec fn is_visible(byte: u8) -> bool {
    32 <= byte < 127 || byte == 9
}

/// A byte that a field value may hold.
pub open spec fn is_field_byte(byte: u8) -> bool {
    (32 <= byte && byte != 127) || byte == 9
}

pub open spec fn all_visible(value: Seq<u8>) -> bool {
    forall|i: int| 0 <= i < value.len() ==> is_visible(#[trigger] value[i])
}

pub open spec fn is_field_value(value: Seq<u8>) -> bool {
    forall|i: int| 0 <= i < value.len() ==> is_field_byte(#[trigger] value[i])
}

/// The characters of an ASCII text.
pub open spec fn ascii_text(value: Seq<u8>) -> Seq<char> {
    Seq::new(value.len(), |i: int| value[i] as char)
}

/// The length of a date in the preferred form, `Sun, 06 Nov 1994 08:49:37 GMT`, with no blank
/// at either end.
pub open spec fn has_preferred_date_shape(value: Seq<u8>) -> bool {
    &&& value.len() == 29
    &&& value[0] != 32 && value[0] != 9
    &&& value[28] != 32 && value[28] != 9
}

/// The value of a `Range` field that asks for everything from the byte `start` on.
pub open spec fn range_from(start: u64) -> Seq<u8> {
    vstd::utf8::encode_utf8("bytes="@ + crate::text::decimal(start as nat) + "-"@)
}

/// `HeaderMap::new`: a map without fields.
#[verifier::external_body]
pub(crate) fn new_headers() -> (headers: HeaderMap)
    ensures
        header_fields(headers) == Fields::empty(),
{
    HeaderMap::new()
}

/// `HeaderMap::get_all`: the values of the field `name`, in order. There is at least one where
/// the map holds the field, and none where it does not.
#[verifier::external_body]
pub(crate) fn field_values(headers: &HeaderMap, name: &str) -> (values: Vec<Vec<u8>>)
    requires
        is_field_name(name@),
    ensures
        values.deep_view() == values_of(header_fields(*headers), name@),
        values@.len() > 0 <==> header_fields(*headers).contains_key(name@),
{
    headers.get_all(name).iter().map(|value| value.as_bytes().to_vec()).collect()
}

/// `HeaderValue::to_str`: the text of a field value that holds printable ASCII and tabs alone,
/// and `None` for any other.
#[verifier::external_body]
pub(crate) fn visible_text(value: &Vec<u8>) -> (text: Option<String>)
    ensures
        text is Some <==> all_visible(value@),
        text is Some ==> text->0@ == ascii_text(value@),
{
    HeaderValue::from_bytes(value).ok()?.to_str().ok().map(str::to_owned)
}

/// `HeaderMapExt::typed_get` for `LastModified`: the date of the `Last-Modified` field, where
/// there is exactly one and it reads as an HTTP date. Such a date lies in the years up to 9999,
/// is read back from its own text, and has that very text where it was stated in the preferred
/// form.
#[verifier::external_body]
pub(crate) fn last_modified(headers: &HeaderMap) -> (secs: Option<u64>)
    ensures
        secs == date_field(header_fields(*headers), "last-modified"@),
        secs is Some ==> secs->0 < HTTP_DATE_END && http_date(http_date_text(secs->0)) == secs,
        secs is Some && has_preferred_date_shape(
            values_of(header_fields(*headers), "last-modified"@)[0],
        ) ==> http_date_text(secs->0) == values_of(header_fields(*headers), "last-modified"@)[0],
{
    let date = SystemTime::from(headers.typed_get::<LastModified>()?);
    Some(date.duration_since(UNIX_EPOCH).ok()?.as_secs())
}

/// `HeaderMapExt::typed_get` for `Date`: the date of the `Date` field, where there is exactly
/// one and it reads as an HTTP date.
#[verifier::external_body]
pub(crate) fn date(headers: &HeaderMap) -> (secs: Option<u64>)
    ensures
        secs == date_field(header_fields(*headers), "date"@),
{
    let date = SystemTime::from(headers.typed_get::<Date>()?);
    Some(date.duration_since(UNIX_EPOCH).ok()?.as_secs())
}

/// `HeaderMapExt::typed_insert` for `Range::bytes`: the `Range` field, and no other, becomes the
/// one value `bytes=N-`. A map of thousands of fields may have no room left.
#[verifier::external_body]
pub(crate) fn insert_range(headers: &mut HeaderMap, start: u64)
    requires
        header_fields(*old(headers)).dom().len() < 1000,
    ensures
        header_fields(*final(headers)) == header_fields(*old(headers)).insert(
            "range"@,
            seq![range_from(start)],
        ),
{
    headers.typed_insert(Range::bytes(start..).expect("valid byte offset"));
}

/// `HeaderMapExt::typed_insert` for `IfRange::date`: the `If-Range` field, and no other, becomes
/// the one value that writes down the second `secs`. The part of a second is left out.
#[verifier::external_body]
pub(crate) fn insert_if_range_date(headers: &mut HeaderMap, secs: u64, nanos: u32)
    requires
        header_fields(*old(headers)).dom().len() < 1000,
        secs < HTTP_DATE_END,
        nanos < 1_000_000_000,
    ensures
        header_fields(*final(headers)) == header_fields(*old(headers)).insert(
            "if-range"@,
            seq![http_date_text(secs)],
        ),
{
    headers.typed_insert(IfRange::date(UNIX_EPOCH + Duration::new(secs, nanos)));
}

/// `HeaderMap::insert`: the `If-Range` field, and no other, becomes the one value `tag`.
#[verifier::external_body]
pub(crate) fn insert_if_range_tag(headers: &mut HeaderMap, tag: &str)
    requires
        header_fields(*old(headers)).dom().len() < 1000,
        is_field_value(vstd::utf8::encode_utf8(tag@)),
    ensures
        header_fields(*final(headers)) == header_fields(*old(headers)).insert(
            "if-range"@,
            seq![vstd::utf8::encode_utf8(tag@)],
        ),
{
    headers.insert(IF_RANGE, HeaderValue::from_str(tag).expect("valid field value"));
}

/// `StatusCode::is_success`: whether `status` is within 200 to 299.
#[verifier::external_body]
pub(crate) fn is_success(status: u16) -> (success: bool)
    requires
        100 <= status < 1000,
    ensures
        success == (200 <= status < 300),
{
    StatusCode::from_u16(status).expect("status in range").is_success()
}

/// `StatusCode::canonical_reason`: the reason phrase that is standard for `status`. Its words are
/// not stated.
#[verifier::external_body]
pub(crate) fn canonical_reason(status: u16) -> (reason: Option<String>)
    requires
        100 <= status < 1000,
    ensures
        reason.deep_view() == reason_phrase(status),
{
    StatusCode::from_u16(status).expect("status in range").canonical_reason().map(str::to_owned)
}

/// The visible bytes are the tab and those from 32 to 126; a field value may hold those and the
/// bytes from 128 on. The text of a value has one character for each byte, with its code.
pub proof fn law_bytes_of_values(value: Seq<u8>)
    ensures
        all_visible(value) <==> forall|i: int|
            0 <= i < value.len() ==> (#[trigger] value[i] == 9 || 32 <= value[i] <= 126),
        is_field_value(value) <==> forall|i: int|
            0 <= i < value.len() ==> (#[trigger] value[i] == 9 || 32 <= value[i] <= 126 || 128
                <= value[i]),
        ascii_text(value).len() == value.len(),
        forall|i: int|
            0 <= i < value.len() ==> #[trigger] ascii_text(value)[i] as int == value[i] as int,
{
    if forall|i: int|
        0 <= i < value.len() ==> (#[trigger] value[i] == 9 || 32 <= value[i] <= 126) {
        assert forall|i: int| 0 <= i < value.len() implies is_visible(#[trigger] value[i]) by {
        }
    }
    if all_visible(value) {
        assert forall|i: int| 0 <= i < value.len() implies (#[trigger] value[i] == 9 || 32
            <= value[i] <= 126) by {
            assert(is_visible(value[i]));
        }
    }
    if is_field_value(value) {
        assert forall|i: int| 0 <= i < value.len() implies (#[trigger] value[i] == 9 || 32
            <= value[i] <= 126 || 128 <= value[i]) by {
            assert(is_field_byte(value[i]));
        }
    }
}

/// The values of a field are those that the map holds under its name, and none where it holds
/// none. Its date is that of its one value.
pub proof fn law_values_are_those_of_the_name(
    fields: Fields,
    name: Seq<char>,
    values: Seq<Seq<u8>>,
)
    ensures
        values_of(fields.insert(name, values), name) == values,
        values_of(fields.remove(name), name) == Seq::<Seq<u8>>::empty(),
        date_field(fields.remove(name), name) is None,
        date_field(fields.insert(name, values), name) == if values.len() == 1 {
            http_date(values[0])
        } else {
            None
        },
{
}

/// A range is asked for by the number of its first byte, in decimal digits.
pub proof fn law_range_is_written_in_decimal(start: u64)
    ensures
        range_from(start) == vstd::utf8::encode_utf8(
            "bytes="@ + crate::text::decimal(start as nat) + "-"@,
        ),
        HTTP_DATE_END == 253402300800,
{
}

} // verus!
