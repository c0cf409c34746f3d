//! Validators: what a partial download is resumed under.

use crate::entity_tag;
use crate::fields;
use reqwest::header::HeaderMap;
use vstd::prelude::*;

verus! {

/// How many seconds a `Last-Modified` date has to lie before the `Date` of its response to
/// count as a strong validator.
pub const DATE_MARGIN: u64 = 60;

/// A point in time since the Unix epoch.
#[derive(Clone, Copy, Debug, PartialEq, Eq, Structural)]
pub struct Timestamp {
    pub secs: u64,
    pub nanos: u32,
}

impl Timestamp {
    /// Whether an HTTP date can write this time down.
    pub open spec fn valid(self) -> bool {
        self.secs < fields::HTTP_DATE_END && self.nanos < 1_000_000_000
    }
}

/// A validator for the exact representation saved in the temporary file.
#[derive(Debug, PartialEq)]
pub enum ResumeValidator {
    ETag(String),
    LastModified(Timestamp),
}

/// What a [`ResumeValidator`] holds.
pub enum ValidatorView {
    ETag(Seq<char>),
    LastModified(Timestamp),
}

impl View for ResumeValidator {
    type V = ValidatorView;

    open spec fn view(&self) -> ValidatorView {
        match self {
            ResumeValidator::ETag(value) => ValidatorView::ETag(value@),
            ResumeValidator::LastModified(time) => ValidatorView::LastModified(*time),
        }
    }
}

impl DeepView for ResumeValidator {
    type V = ValidatorView;

    open spec fn deep_view(&self) -> ValidatorView {
        self@
    }
}

impl Clone for ResumeValidator {
    fn clone(&self) -> (copy: Self)
        ensures
            copy@ == self@,
    {
        match self {
            ResumeValidator::ETag(value) => ResumeValidator::ETag(value.clone()),
            ResumeValidator::LastModified(time) => ResumeValidator::LastModified(*time),
        }
    }
}

/// The condition under which a server may answer with a part of the resource.
#[derive(Debug, PartialEq)]
pub enum IfRange {
    ETag(String),
    Date(Timestamp),
}

impl IfRange {
    /// Whether the condition can be written as a field value.
    pub open spec fn valid(self) -> bool {
        match self {
            IfRange::ETag(value) => fields::is_field_value(vstd::utf8::encode_utf8(value@)),
            IfRange::Date(time) => time.valid(),
        }
    }

    /// The value of the `If-Range` field.
    pub open spec fn field_value(self) -> Seq<u8> {
        match self {
            IfRange::ETag(value) => vstd::utf8::encode_utf8(value@),
            IfRange::Date(time) => fields::http_date_text(time.secs),
        }
    }

    /// Makes this condition the `If-Range` field of `headers`.
    pub(crate) fn insert_into(&self, headers: &mut HeaderMap)
        requires
            self.valid(),
            fields::header_fields(*old(headers)).dom().len() < 1000,
        ensures
            fields::header_fields(*final(headers)) == fields::header_fields(*old(headers)).insert(
                "if-range"@,
                seq![self.field_value()],
            ),
    {
        match self {
            IfRange::ETag(value) => fields::insert_if_range_tag(headers, value.as_str()),
            IfRange::Date(time) => fields::insert_if_range_date(headers, time.secs, time.nanos),
        }
    }
}

/// The validator that two dates of a response make: that it was last modified at `modified`,
/// where the response of the time `date` came late enough after it.
pub open spec fn dated(modified: Option<u64>, date: Option<u64>) -> Option<ValidatorView> {
    if modified is Some && date is Some && date->0 - modified->0 >= DATE_MARGIN {
        Some(ValidatorView::LastModified(Timestamp { secs: modified->0, nanos: 0 }))
    } else {
        None
    }
}

/// The validator that the `ETag` values of a response make. There has to be exactly one, a
/// strong tag in printable ASCII.
pub open spec fn tagged(tags: Seq<Seq<u8>>) -> Option<ValidatorView> {
    if tags.len() == 1 && entity_tag::is_strong_tag(tags[0]) && fields::all_visible(tags[0]) {
        Some(ValidatorView::ETag(fields::ascii_text(tags[0])))
    } else {
        None
    }
}

/// The validator of the representation that a response with the fields `fields` brings. Where
/// there is an `ETag`, it alone decides.
pub open spec fn validator_of(fields: fields::Fields) -> Option<ValidatorView> {
    if fields.contains_key("etag"@) {
        tagged(fields["etag"@])
    } else {
        dated(
            fields::date_field(fields, "last-modified"@),
            fields::date_field(fields, "date"@),
        )
    }
}

impl ValidatorView {
    /// Whether a condition can be made of the validator without leaving the years of HTTP dates.
    pub open spec fn valid(self) -> bool {
        self matches ValidatorView::LastModified(time) ==> time.valid()
    }

    /// The value of the `If-Range` field that asks for this validator, where it is a strong one.
    pub open spec fn condition(self) -> Option<Seq<u8>> {
        match self {
            ValidatorView::ETag(value) => {
                let bytes = vstd::utf8::encode_utf8(value);
                if fields::is_field_value(bytes) && entity_tag::is_strong_tag(bytes) {
                    Some(bytes)
                } else {
                    None
                }
            },
            ValidatorView::LastModified(time) => Some(fields::http_date_text(time.secs)),
        }
    }
}

/// Whether the `If-Range` value `condition` names the representation that a response with the
/// fields `fields` brought: it repeats the `ETag` byte for byte, or it reads as the date that
/// `Last-Modified` stated, and repeats that one byte for byte where it came in the preferred
/// form.
pub open spec fn names_representation(condition: Seq<u8>, fields: fields::Fields) -> bool {
    if fields.contains_key("etag"@) {
        condition == fields["etag"@][0]
    } else {
        let stated = fields::values_of(fields, "last-modified"@)[0];
        &&& fields::http_date(condition) == fields::http_date(stated)
        &&& fields::has_preferred_date_shape(stated) ==> condition == stated
    }
}

/// A validator that a response made can be sent as a condition later on, and one that came from
/// an `ETag` is then sent as the server wrote it.
pub proof fn law_response_validator_is_usable(fields: fields::Fields)
    requires
        validator_of(fields) is Some,
    ensures
        validator_of(fields)->0.condition() is Some,
        fields.contains_key("etag"@) ==> validator_of(fields)->0.condition() == Some(
            fields["etag"@][0],
        ),
{
    if fields.contains_key("etag"@) {
        let tag = fields["etag"@][0];
        let text = fields::ascii_text(tag);
        assert forall|i: int| 0 <= i < text.len() implies '\0' <= #[trigger] text[i] <= '\u{7f}' by {
            assert(fields::is_visible(tag[i]));
        }
        vstd::utf8::is_ascii_chars_encode_utf8(text);
        assert forall|i: int| 0 <= i < tag.len() implies vstd::utf8::encode_utf8(text)[i]
            == tag[i] by {
            assert(fields::is_visible(tag[i]));
            assert(text[i] as u8 == tag[i]);
        }
        assert(vstd::utf8::encode_utf8(text) == tag);
        assert forall|i: int| 0 <= i < tag.len() implies fields::is_field_byte(
            #[trigger] tag[i],
        ) by {
            assert(fields::is_visible(tag[i]));
        }
    }
}

/// A text that is not both a legal field value and a strong entity tag makes no condition.
pub proof fn law_weak_tag_makes_no_condition(value: Seq<char>)
    requires
        !(fields::is_field_value(vstd::utf8::encode_utf8(value)) && entity_tag::is_strong_tag(
            vstd::utf8::encode_utf8(value),
        )),
    ensures
        ValidatorView::ETag(value).condition() is None,
{
}

/// Whether every byte of `value` may stand in a field value.
fn field_value(value: &[u8]) -> (valid: bool)
    ensures
        valid == fields::is_field_value(value@),
{
    let mut at: usize = 0;
    while at < value.len()
        invariant
            at <= value@.len(),
            forall|i: int| 0 <= i < at ==> fields::is_field_byte(#[trigger] value@[i]),
        decreases value@.len() - at,
    {
        let byte: u8 = value[at];
        if (byte < 32 && byte != 9) || byte == 127 {
            assert(!fields::is_field_byte(value@[at as int]));
            return false;
        }
        at = at + 1;
    }
    true
}

impl ResumeValidator {
    /// Whether a condition can be made of the validator without leaving the years of HTTP dates.
    pub fn is_valid(&self) -> (valid: bool)
        ensures
            valid == self@.valid(),
    {
        match self {
            ResumeValidator::ETag(_) => true,
            ResumeValidator::LastModified(time) => time.secs < fields::HTTP_DATE_END && time.nanos
                < 1_000_000_000,
        }
    }

    /// The validator that the dates of a response make.
    ///
    /// Dates are permitted when they are sufficiently separated to make clock skew unlikely. A
    /// recent or missing `Date` cannot establish a strong validator.
    pub fn from_dates(modified: Option<u64>, date: Option<u64>) -> (validator: Option<Self>)
        ensures
            validator.deep_view() == dated(modified, date),
    {
        match (modified, date) {
            (Some(modified), Some(date)) => {
                if date < modified || date - modified < DATE_MARGIN {
                    return None;
                }
                Some(ResumeValidator::LastModified(Timestamp { secs: modified, nanos: 0 }))
            },
            _ => None,
        }
    }

    /// The validator that the `ETag` values of a response make.
    pub fn from_tags(tags: &Vec<Vec<u8>>) -> (validator: Option<Self>)
        ensures
            validator.deep_view() == tagged(tags.deep_view()),
    {
        if tags.len() != 1 {
            return None;
        }
        assert(tags.deep_view()[0] == tags@[0]@);
        if !entity_tag::strong_tag(tags[0].as_slice()) {
            return None;
        }
        match fields::visible_text(&tags[0]) {
            Some(text) => Some(ResumeValidator::ETag(text)),
            None => None,
        }
    }

    /// The validator of the representation that a response with the fields `headers` brings.
    pub fn from_headers(headers: &HeaderMap) -> (validator: Option<Self>)
        ensures
            validator.deep_view() == validator_of(fields::header_fields(*headers)),
            validator is Some ==> validator->0@.valid(),
            validator is Some ==> validator->0@.condition() is Some && names_representation(
                validator->0@.condition()->0,
                fields::header_fields(*headers),
            ),
    {
        proof {
            reveal_strlit("etag");
            if validator_of(fields::header_fields(*headers)) is Some {
                law_response_validator_is_usable(fields::header_fields(*headers));
            }
        }
        let tags: Vec<Vec<u8>> = fields::field_values(headers, "etag");
        if tags.len() > 0 {
            return ResumeValidator::from_tags(&tags);
        }
        let modified: Option<u64> = fields::last_modified(headers);
        let date: Option<u64> = fields::date(headers);
        ResumeValidator::from_dates(modified, date)
    }

    /// The condition that asks for the representation this validator stands for, or `None` where
    /// the validator is not a strong one.
    pub fn if_range(&self) -> (condition: Option<IfRange>)
        requires
            self@.valid(),
        ensures
            condition is Some <==> self@.condition() is Some,
            condition is Some ==> condition->0.valid() && condition->0.field_value()
                == self@.condition()->0,
            match condition {
                Some(IfRange::ETag(value)) => self@ == ValidatorView::ETag(value@),
                Some(IfRange::Date(time)) => self@ == ValidatorView::LastModified(time),
                None => self@ is ETag,
            },
    {
        match self {
            ResumeValidator::ETag(value) => {
                let bytes: &[u8] = value.as_str().as_bytes();
                if field_value(bytes) && entity_tag::strong_tag(bytes) {
                    Some(IfRange::ETag(value.clone()))
                } else {
                    None
                }
            },
            ResumeValidator::LastModified(time) => Some(IfRange::Date(*time)),
        }
    }
}

/// The one `ETag` of a response, where it is any visible text without a quote between two quotes,
/// is its validator, letter for letter, whatever the other fields say. It is sent as a condition
/// byte for byte.
pub proof fn law_quoted_tag_is_the_validator(fields: fields::Fields, text: Seq<u8>)
    requires
        forall|i: int|
            0 <= i < text.len() ==> (#[trigger] text[i] == 9 || 32 <= text[i] <= 126) && text[i]
                != 34,
        fields.contains_key("etag"@),
        fields["etag"@] == seq![seq![34u8] + text + seq![34u8]],
    ensures
        ({
            let tag = seq![34u8] + text + seq![34u8];
            let letters = Seq::new(tag.len(), |i: int| tag[i] as char);
            &&& tagged(fields["etag"@]) == Some(ValidatorView::ETag(letters))
            &&& validator_of(fields) == Some(ValidatorView::ETag(letters))
            &&& ValidatorView::ETag(letters).condition() == Some(tag)
        }),
{
    let tag = seq![34u8] + text + seq![34u8];
    assert(!text.contains(34u8));
    entity_tag::law_quoted_text_is_strong(text);
    fields::law_bytes_of_values(tag);
    assert forall|i: int| 0 <= i < tag.len() implies (#[trigger] tag[i] == 9 || 32 <= tag[i]
        <= 126) by {
        if 0 < i < tag.len() - 1 {
            assert(tag[i] == text[i - 1]);
        }
    }
    assert(fields["etag"@][0] == tag);
    assert(fields::ascii_text(tag) == Seq::new(tag.len(), |i: int| tag[i] as char));
    law_response_validator_is_usable(fields);
}

/// A response with an `ETag` has a validator only where there is exactly one, of visible bytes,
/// that is quoted and holds no other quote. A weak tag, which begins with `W/`, makes none, and
/// the dates do not stand in for it.
pub proof fn law_other_tags_make_no_validator(fields: fields::Fields)
    requires
        fields.contains_key("etag"@),
        validator_of(fields) is Some || tagged(fields["etag"@]) is Some,
    ensures
        fields["etag"@].len() == 1,
        ({
            let tag = fields["etag"@][0];
            &&& tag.len() >= 2
            &&& tag[0] == 34
            &&& tag[0] != 87
            &&& tag[tag.len() - 1] == 34
            &&& forall|i: int| 0 < i < tag.len() - 1 ==> #[trigger] tag[i] != 34
            &&& forall|i: int|
                0 <= i < tag.len() ==> (#[trigger] tag[i] == 9 || 32 <= tag[i] <= 126)
        }),
{
    let tag = fields["etag"@][0];
    entity_tag::law_strong_tag_is_quoted_text(tag);
    fields::law_bytes_of_values(tag);
    let text = tag.subrange(1, tag.len() - 1);
    assert forall|i: int| 0 < i < tag.len() - 1 implies #[trigger] tag[i] != 34 by {
        assert(tag[i] == text[i - 1]);
        if tag[i] == 34 {
            assert(text.contains(34u8));
        }
    }
}

/// Without an `ETag`, the validator is the `Last-Modified` date, where it lies sixty seconds or
/// more before the `Date` of the response. Where either is missing there is none.
pub proof fn law_date_is_the_validator_after_a_minute(fields: fields::Fields)
    requires
        !fields.contains_key("etag"@),
    ensures
        ({
            let modified = fields::date_field(fields, "last-modified"@);
            let date = fields::date_field(fields, "date"@);
            &&& validator_of(fields) == dated(modified, date)
            &&& modified is Some && date is Some && modified->0 + 60 <= date->0 ==> validator_of(
                fields,
            ) == Some(ValidatorView::LastModified(Timestamp { secs: modified->0, nanos: 0 }))
            &&& modified is None || date is None || modified->0 + 60 > date->0 ==> validator_of(
                fields,
            ) is None
        }),
{
}

/// Two dates that lie sixty seconds or more apart, in this order, make a validator of the earlier
/// one. Other dates, or one alone, make none.
pub proof fn law_dates_a_minute_apart_are_strong(modified: u64, date: u64)
    ensures
        modified + 60 <= date ==> dated(Some(modified), Some(date)) == Some(
            ValidatorView::LastModified(Timestamp { secs: modified, nanos: 0 }),
        ),
        modified + 60 > date ==> dated(Some(modified), Some(date)) is None,
        dated(Some(modified), None) is None,
        dated(None, Some(date)) is None,
        dated(None, None) is None,
{
}

/// A date makes a condition wherever an HTTP date can be written of it, and the condition is that
/// date. Any quoted text without another quote, of bytes that a field may hold, makes the
/// condition that it is, and no other text makes one.
pub proof fn law_condition_is_the_validator(value: Seq<char>, time: Timestamp)
    ensures
        ValidatorView::LastModified(time).valid() <==> time.secs < 253402300800 && time.nanos
            < 1000000000,
        ValidatorView::ETag(value).valid(),
        ValidatorView::LastModified(time).condition() == Some(fields::http_date_text(time.secs)),
        ({
            let bytes = vstd::utf8::encode_utf8(value);
            let usable = {
                &&& bytes.len() >= 2
                &&& bytes[0] == 34
                &&& bytes[bytes.len() - 1] == 34
                &&& forall|i: int| 0 < i < bytes.len() - 1 ==> #[trigger] bytes[i] != 34
                &&& forall|i: int|
                    0 <= i < bytes.len() ==> (#[trigger] bytes[i] == 9 || (32 <= bytes[i]
                        && bytes[i] != 127))
            };
            ValidatorView::ETag(value).condition() == if usable {
                Some(bytes)
            } else {
                None
            }
        }),
{
    let bytes = vstd::utf8::encode_utf8(value);
    fields::law_bytes_of_values(bytes);
    if entity_tag::is_strong_tag(bytes) {
        entity_tag::law_strong_tag_is_quoted_text(bytes);
        let text = bytes.subrange(1, bytes.len() - 1);
        assert forall|i: int| 0 < i < bytes.len() - 1 implies #[trigger] bytes[i] != 34 by {
            assert(bytes[i] == text[i - 1]);
            if bytes[i] == 34 {
                assert(text.contains(34u8));
            }
        }
    }
}

/// A condition is written as the tag that it is, or as the date of its seconds.
pub proof fn law_condition_is_written_as_it_is(value: String, time: Timestamp)
    ensures
        IfRange::ETag(value).field_value() == vstd::utf8::encode_utf8(value@),
        IfRange::Date(time).field_value() == fields::http_date_text(time.secs),
        IfRange::Date(time).valid() <==> time.secs < 253402300800 && time.nanos < 1000000000,
        IfRange::ETag(value).valid() <==> forall|i: int|
            0 <= i < vstd::utf8::encode_utf8(value@).len() ==> (
            #[trigger] vstd::utf8::encode_utf8(value@)[i] == 9 || (32
                <= vstd::utf8::encode_utf8(value@)[i] && vstd::utf8::encode_utf8(value@)[i]
                != 127)),
{
    fields::law_bytes_of_values(vstd::utf8::encode_utf8(value@));
}

/// The view of a validator is its tag or its time.
pub proof fn law_validator_is_seen_as_it_is(value: String, time: Timestamp)
    ensures
        ResumeValidator::ETag(value)@ == ValidatorView::ETag(value@),
        ResumeValidator::LastModified(time)@ == ValidatorView::LastModified(time),
        ResumeValidator::ETag(value).deep_view() == ValidatorView::ETag(value@),
        ResumeValidator::LastModified(time).deep_view() == ValidatorView::LastModified(time),
{
}

/// A condition names the representation with the `ETag` that it repeats, and no other with an
/// `ETag`. Without one, it has to read as the date of the `Last-Modified` field.
pub proof fn law_condition_names_one_tag(condition: Seq<u8>, fields: fields::Fields)
    requires
        names_representation(condition, fields),
    ensures
        fields.contains_key("etag"@) ==> condition == fields["etag"@][0],
        !fields.contains_key("etag"@) && fields.contains_key("last-modified"@)
            ==> fields::http_date(condition) == fields::http_date(fields["last-modified"@][0]) && (
        fields::has_preferred_date_shape(fields["last-modified"@][0]) ==> condition
            == fields["last-modified"@][0]),
{
}

} // verus!
