use download_manager::download::request_headers;
use download_manager::entity_tag::strong_tag;
use download_manager::fields::HTTP_DATE_END;
use download_manager::{IfRange, ResumeValidator, Timestamp};
use headers::ETag;
use reqwest::header::{HeaderMap, HeaderValue, DATE, ETAG, IF_RANGE, LAST_MODIFIED, RANGE};
use std::collections::BTreeMap;
use std::time::{Duration, SystemTime, UNIX_EPOCH};

fn field(value: &str) -> HeaderValue {
    value.parse().unwrap()
}

/// The JSON of a saved validator: one entry, under the name of its kind.
fn save(validator: &ResumeValidator) -> String {
    match validator {
        ResumeValidator::ETag(value) => {
            serde_json::to_string(&BTreeMap::from([("eTag", value)])).unwrap()
        }
        ResumeValidator::LastModified(time) => {
            let time: SystemTime = UNIX_EPOCH + Duration::new(time.secs, time.nanos);
            serde_json::to_string(&BTreeMap::from([("lastModified", time)])).unwrap()
        }
    }
}

fn load(saved: &str) -> ResumeValidator {
    if let Ok(tagged) = serde_json::from_str::<BTreeMap<String, String>>(saved) {
        return ResumeValidator::ETag(tagged["eTag"].clone());
    }
    let dated: BTreeMap<String, SystemTime> = serde_json::from_str(saved).unwrap();
    let since = dated["lastModified"].duration_since(UNIX_EPOCH).unwrap();
    ResumeValidator::LastModified(Timestamp { secs: since.as_secs(), nanos: since.subsec_nanos() })
}

#[test]
fn selects_only_strong_validators() {
    let mut headers = HeaderMap::new();
    headers.insert(LAST_MODIFIED, field("Tue, 15 Nov 1994 12:45:26 GMT"));
    assert_eq!(ResumeValidator::from_headers(&headers), None);
    headers.insert(DATE, field("Tue, 15 Nov 1994 12:46:25 GMT"));
    assert_eq!(ResumeValidator::from_headers(&headers), None);
    headers.insert(DATE, field("Tue, 15 Nov 1994 12:46:26 GMT"));
    assert!(matches!(
        ResumeValidator::from_headers(&headers),
        Some(ResumeValidator::LastModified(_))
    ));
    for tag in ["W/\"weak\"", "invalid"] {
        headers.insert(ETAG, field(tag));
        assert_eq!(ResumeValidator::from_headers(&headers), None);
    }
    headers.insert(ETAG, field("\"strong\""));
    assert_eq!(
        ResumeValidator::from_headers(&headers),
        Some(ResumeValidator::ETag("\"strong\"".into()))
    );
}

#[test]
fn validators_round_trip_to_conditional_headers() {
    let mut headers = HeaderMap::new();
    headers.insert(LAST_MODIFIED, field("Tue, 15 Nov 1994 12:45:26 GMT"));
    headers.insert(DATE, field("Tue, 15 Nov 1994 12:46:26 GMT"));
    let date = ResumeValidator::from_headers(&headers).unwrap();
    for (validator, expected) in [
        (date, "Tue, 15 Nov 1994 12:45:26 GMT"),
        (ResumeValidator::ETag("\"strong\"".into()), "\"strong\""),
    ] {
        let saved = save(&validator);
        let loaded: ResumeValidator = load(&saved);
        assert_eq!(loaded, validator);
        let request = request_headers(4, Some(loaded.if_range().unwrap()));
        assert_eq!(request[IF_RANGE], expected);
    }
}

#[test]
fn last_modified_is_the_stated_second() {
    let mut headers = HeaderMap::new();
    headers.insert(LAST_MODIFIED, field("Sun, 06 Nov 1994 08:49:37 GMT"));
    headers.insert(DATE, field("Mon, 07 Nov 1994 08:49:37 GMT"));
    assert_eq!(
        ResumeValidator::from_headers(&headers),
        Some(ResumeValidator::LastModified(Timestamp { secs: 784111777, nanos: 0 }))
    );
}

#[test]
fn older_date_forms_are_sent_in_the_preferred_one() {
    for stated in ["Sunday, 06-Nov-94 08:49:37 GMT", "Sun Nov  6 08:49:37 1994"] {
        let mut headers = HeaderMap::new();
        headers.insert(LAST_MODIFIED, field(stated));
        headers.insert(DATE, field("Mon, 07 Nov 1994 08:49:37 GMT"));
        let condition = ResumeValidator::from_headers(&headers).unwrap().if_range();
        let request = request_headers(1, condition);
        assert_eq!(request[IF_RANGE], "Sun, 06 Nov 1994 08:49:37 GMT");
    }
}

#[test]
fn dates_need_a_margin_of_sixty_seconds() {
    assert_eq!(ResumeValidator::from_dates(Some(100), Some(159)), None);
    assert_eq!(
        ResumeValidator::from_dates(Some(100), Some(160)),
        Some(ResumeValidator::LastModified(Timestamp { secs: 100, nanos: 0 }))
    );
    assert_eq!(ResumeValidator::from_dates(Some(160), Some(100)), None);
    assert_eq!(ResumeValidator::from_dates(None, Some(160)), None);
    assert_eq!(ResumeValidator::from_dates(Some(100), None), None);
}

#[test]
fn a_date_that_is_stated_twice_or_badly_counts_for_nothing() {
    let mut headers = HeaderMap::new();
    headers.insert(LAST_MODIFIED, field("Sun, 06 Nov 1994 08:49:37 GMT"));
    headers.insert(DATE, field("Mon, 07 Nov 1994 08:49:37 GMT"));
    headers.append(DATE, field("Mon, 07 Nov 1994 08:49:37 GMT"));
    assert_eq!(ResumeValidator::from_headers(&headers), None);
    headers.insert(DATE, field("yesterday"));
    assert_eq!(ResumeValidator::from_headers(&headers), None);
    headers.insert(DATE, field("Mon, 07 Nov 1994 08:49:37 GMT"));
    headers.append(LAST_MODIFIED, field("Sun, 06 Nov 1994 08:49:37 GMT"));
    assert_eq!(ResumeValidator::from_headers(&headers), None);
}

#[test]
fn a_tag_that_is_there_twice_or_not_printable_makes_no_validator() {
    let mut headers = HeaderMap::new();
    headers.insert(ETAG, field("\"one\""));
    headers.append(ETAG, field("\"two\""));
    assert_eq!(ResumeValidator::from_headers(&headers), None);
    headers.insert(ETAG, HeaderValue::from_bytes(b"\"\xe4\"").unwrap());
    assert_eq!(ResumeValidator::from_headers(&headers), None);
    assert_eq!(
        ResumeValidator::from_tags(&vec![b"\"\"".to_vec()]),
        Some(ResumeValidator::ETag("\"\"".into()))
    );
    assert_eq!(ResumeValidator::from_tags(&vec![]), None);
}

#[test]
fn tags_are_strong_exactly_where_they_match_themselves() {
    for value in [
        "\"xyzzy\"", "W/\"xyzzy\"", "\"\"", "W/\"\"", "\"", "", "W/\"", "w/\"x\"", "no-dquotes",
        "\"unmatched", "unmatched\"", "\"inner\"quotes\"", "matched-\"dquotes\"", "\"!#~\"", "W",
        "W/", "\"W/\"",
    ] {
        let expected = match value.parse::<ETag>() {
            Ok(tag) => !headers::IfRange::etag(tag.clone()).is_modified(Some(&tag), None),
            Err(_) => false,
        };
        assert_eq!(strong_tag(value.as_bytes()), expected, "{}", value);
        let condition = ResumeValidator::ETag(value.to_string()).if_range();
        assert_eq!(condition.is_some(), expected, "{}", value);
    }
}

#[test]
fn a_tag_with_control_characters_makes_no_condition() {
    assert_eq!(ResumeValidator::ETag("\"a\nb\"".into()).if_range(), None);
    assert_eq!(ResumeValidator::ETag("\"a\u{7f}b\"".into()).if_range(), None);
    let blank = ResumeValidator::ETag("\"a b\"".into());
    assert_eq!(blank.if_range(), Some(IfRange::ETag("\"a b\"".into())));
    assert_eq!(request_headers(1, blank.if_range())[IF_RANGE], "\"a b\"");
}

#[test]
fn the_part_of_a_second_is_not_sent() {
    let time = Timestamp { secs: 784111777, nanos: 999_999_999 };
    let condition = ResumeValidator::LastModified(time).if_range();
    assert_eq!(condition, Some(IfRange::Date(time)));
    assert_eq!(request_headers(9, condition)[IF_RANGE], "Sun, 06 Nov 1994 08:49:37 GMT");
}

#[test]
fn validity_ends_with_the_years_of_http_dates() {
    let last = Timestamp { secs: HTTP_DATE_END - 1, nanos: 0 };
    assert!(ResumeValidator::LastModified(last).is_valid());
    let request = request_headers(1, ResumeValidator::LastModified(last).if_range());
    assert_eq!(request[IF_RANGE], "Fri, 31 Dec 9999 23:59:59 GMT");
    let past = Timestamp { secs: HTTP_DATE_END, nanos: 0 };
    assert!(!ResumeValidator::LastModified(past).is_valid());
    let overfull = Timestamp { secs: 0, nanos: 1_000_000_000 };
    assert!(!ResumeValidator::LastModified(overfull).is_valid());
    assert!(ResumeValidator::ETag("anything".into()).is_valid());
}

#[test]
fn request_headers_hold_range_and_condition_or_nothing() {
    let request = request_headers(18446744073709551615, Some(IfRange::ETag("\"x\"".into())));
    assert_eq!(request.len(), 2);
    assert_eq!(request[RANGE], "bytes=18446744073709551615-");
    assert_eq!(request[IF_RANGE], "\"x\"");
    assert!(request_headers(7, None).is_empty());
}

#[test]
fn a_clone_is_equal() {
    let tag = ResumeValidator::ETag("\"x\"".into());
    assert_eq!(tag.clone(), tag);
    let date = ResumeValidator::LastModified(Timestamp { secs: 1, nanos: 2 });
    assert_eq!(date.clone(), date);
    assert_ne!(date, tag);
}
