use download_manager::{Action, Download, Error, Event, Outcome, Response, ResumeValidator, Timestamp};
use reqwest::header::{
    HeaderMap, HeaderValue, CONTENT_RANGE, DATE, ETAG, IF_RANGE, LAST_MODIFIED, RANGE,
};

const THRESHOLD: usize = 1024 * 1024;

/// A server's answer, with the body in the parts in which it arrives.
struct Reply {
    status: u16,
    headers: HeaderMap,
    content_length: Option<u64>,
    parts: Vec<Vec<u8>>,
}

impl Reply {
    fn sized(status: u16, body: &[u8]) -> Reply {
        Reply {
            status,
            headers: HeaderMap::new(),
            content_length: Some(body.len() as u64),
            parts: vec![body.to_vec()],
        }
    }

    fn chunked(status: u16, body: &[u8], part: usize) -> Reply {
        Reply {
            status,
            headers: HeaderMap::new(),
            content_length: None,
            parts: body.chunks(part).map(|part| part.to_vec()).collect(),
        }
    }

    fn with(mut self, name: reqwest::header::HeaderName, value: &str) -> Reply {
        self.headers.insert(name, value.parse().unwrap());
        self
    }
}

/// The record that is kept of a download.
#[derive(Debug, Clone, PartialEq)]
struct Record {
    received_bytes: u64,
    total_bytes: Option<u64>,
    validator: Option<ResumeValidator>,
}

/// The disk, the record of the download, and everything that was asked of them.
struct World {
    temp_path: String,
    temp: Option<Vec<u8>>,
    dest: Option<Vec<u8>>,
    record: Option<Record>,
    sent: Vec<HeaderMap>,
    checkpoints: Vec<(u64, Option<u64>)>,
    completed: Vec<(u64, Option<u64>)>,
    folder_ensured: bool,
    pause_at_persist: bool,
    pause_at_checkpoint: bool,
    rename_fails: bool,
    record_fails: bool,
    /// The size at which the disk is full.
    room: usize,
}

impl World {
    fn new(temp: Option<&[u8]>, validator: Option<ResumeValidator>) -> World {
        World {
            temp_path: String::new(),
            temp: temp.map(|data| data.to_vec()),
            dest: None,
            record: Some(Record { received_bytes: 0, total_bytes: None, validator }),
            sent: vec![],
            checkpoints: vec![],
            completed: vec![],
            folder_ensured: false,
            pause_at_persist: false,
            pause_at_checkpoint: false,
            rename_fails: false,
            record_fails: false,
            room: usize::MAX,
        }
    }

    /// Runs a download against `reply` to its end.
    fn run(&mut self, path: &str, reply: Reply) -> Outcome {
        let validator = self.record.as_ref().unwrap().validator.clone();
        let (mut download, mut action) = Download::start(path, validator);
        self.temp_path = download.temp_path().to_string();
        let mut response = Some(Response {
            status: reply.status,
            headers: reply.headers,
            content_length: reply.content_length,
        });
        let mut parts = reply.parts.into_iter();
        loop {
            let event = match action {
                Action::Inspect => Event::Inspected(self.temp.as_ref().map(|d| d.len() as u64)),
                Action::Send(headers) => {
                    self.sent.push(headers);
                    Event::Responded(response.take().unwrap())
                }
                Action::Discard => {
                    self.temp = None;
                    Event::Discarded
                }
                Action::Persist { received_bytes, total_bytes, validator, replace_temp } => {
                    if self.pause_at_persist {
                        Event::NoLongerActive
                    } else {
                        if replace_temp {
                            assert!(self.temp.take().is_some());
                        }
                        if self.record_fails {
                            Event::Refused
                        } else {
                            self.record = Some(Record { received_bytes, total_bytes, validator });
                            Event::StillActive
                        }
                    }
                }
                Action::EnsureFolder => {
                    self.folder_ensured = true;
                    Event::FolderReady
                }
                Action::Open => {
                    assert!(self.folder_ensured);
                    self.temp.get_or_insert(vec![]);
                    Event::Opened
                }
                Action::Receive => match parts.next() {
                    Some(part) => Event::Chunk(part),
                    None => Event::StreamEnded,
                },
                Action::Write(data) => {
                    let temp = self.temp.as_mut().unwrap();
                    temp.extend(data);
                    if temp.len() > self.room {
                        temp.truncate(self.room);
                        Event::WriteFailed("disk full".to_string())
                    } else {
                        Event::Written
                    }
                }
                Action::Checkpoint { received_bytes, total_bytes } => {
                    self.checkpoints.push((received_bytes, total_bytes));
                    self.record.as_mut().unwrap().received_bytes = received_bytes;
                    if self.pause_at_checkpoint {
                        Event::NoLongerActive
                    } else {
                        Event::StillActive
                    }
                }
                Action::Finish { received_bytes, total_bytes } => {
                    if self.rename_fails {
                        Event::Refused
                    } else {
                        self.dest = self.temp.take();
                        self.record = None;
                        self.completed.push((received_bytes, total_bytes));
                        Event::Finished
                    }
                }
                Action::Stop(outcome) => return outcome,
            };
            assert!(download.accepts(&event));
            action = download.step(event);
        }
    }
}

fn etag(value: &str) -> Option<ResumeValidator> {
    Some(ResumeValidator::ETag(value.into()))
}

/// The action after `events`, starting with the look at a temporary file of `saved` bytes.
fn after(validator: Option<ResumeValidator>, saved: Option<u64>, events: Vec<Event>) -> Action {
    let (mut download, _) = Download::start("file.bin", validator);
    let mut action = download.step(Event::Inspected(saved));
    for event in events {
        assert!(download.accepts(&event));
        action = download.step(event);
    }
    action
}

fn failure(action: Action) -> Error {
    match action {
        Action::Stop(Outcome::Failed(error)) => error,
        _ => panic!("expected a failure"),
    }
}

fn response(status: u16, content_length: Option<u64>) -> Event {
    Event::Responded(Response { status, headers: HeaderMap::new(), content_length })
}

#[test]
fn test_completes_with_content_length() {
    let body = b"hello, world!".to_vec();
    let mut world = World::new(None, None);
    assert_eq!(world.run("file.bin", Reply::sized(200, &body)), Outcome::Ended);

    // Final file exists with expected bytes; temp file gone.
    assert_eq!(world.dest, Some(body.clone()));
    assert_eq!(world.temp, None);
    assert_eq!(world.temp_path, "file.bin.download");
    // Record removed.
    assert_eq!(world.record, None);
    // Exactly one completion; no duplicate 100% progress report.
    assert_eq!(world.completed, vec![(body.len() as u64, Some(body.len() as u64))]);
    assert_eq!(world.checkpoints, vec![]);
}

#[test]
fn test_pause_before_header_persist_stops_before_writing_body() {
    let mut world = World::new(None, None);
    world.pause_at_persist = true;
    let outcome = world.run("pause-at-headers.bin", Reply::sized(200, b"body must not be written"));
    assert_eq!(outcome, Outcome::Ended);
    let record = world.record.unwrap();
    assert_eq!(record.received_bytes, 0);
    assert_eq!(record.total_bytes, None);
    assert_eq!(world.dest, None);
    assert_eq!(world.temp, None);
    assert_eq!(world.completed.len(), 0);
}

#[test]
fn test_completes_without_content_length() {
    let body = b"streamed body with no length header".to_vec();
    let mut world = World::new(None, None);
    assert_eq!(world.run("stream.bin", Reply::chunked(200, &body, 7)), Outcome::Ended);
    assert_eq!(world.dest, Some(body.clone()));
    assert_eq!(world.record, None);
    assert_eq!(world.completed, vec![(body.len() as u64, None)]);
}

#[test]
fn test_resume_without_usable_validator_requests_full_body() {
    for validator in [None, etag("W/\"old\"")] {
        let mut world = World::new(Some(b"old prefix"), validator);
        assert_eq!(world.run("legacy.bin", Reply::sized(200, b"new body")), Outcome::Ended);
        assert!(!world.sent[0].contains_key(RANGE) && !world.sent[0].contains_key(IF_RANGE));
        assert_eq!(world.dest, Some(b"new body".to_vec()));
    }
}

#[test]
fn test_resume_with_saved_last_modified() {
    let mut headers = HeaderMap::new();
    headers.insert(LAST_MODIFIED, "Tue, 15 Nov 1994 12:45:26 GMT".parse().unwrap());
    headers.insert(DATE, "Tue, 15 Nov 1994 12:46:26 GMT".parse().unwrap());
    let mut world = World::new(Some(b"part"), ResumeValidator::from_headers(&headers));
    assert_eq!(world.run("dated.bin", Reply::sized(206, b"rest")), Outcome::Ended);
    assert_eq!(world.sent[0][RANGE], "bytes=4-");
    assert_eq!(world.sent[0][IF_RANGE], "Tue, 15 Nov 1994 12:45:26 GMT");
    assert_eq!(world.dest, Some(b"partrest".to_vec()));
}

#[test]
fn test_resume_appends_to_temp_file() {
    let first_half = b"first-half-";
    let second_half = b"second-half";
    let mut world = World::new(Some(first_half), etag("\"original\""));
    assert_eq!(world.run("resume.bin", Reply::sized(206, second_half)), Outcome::Ended);
    assert_eq!(world.sent[0][RANGE], format!("bytes={}-", first_half.len()).as_str());

    let combined = [first_half.as_slice(), second_half.as_slice()].concat();
    assert_eq!(world.dest, Some(combined.clone()));
    assert_eq!(world.completed, vec![(combined.len() as u64, Some(combined.len() as u64))]);
}

#[test]
fn test_resume_restarts_from_zero_when_server_returns_200() {
    let full_body = b"full body content";
    let mut world = World::new(Some(b"stale partial bytes"), etag("\"original\""));
    let reply = Reply::sized(200, full_body).with(ETAG, "\"updated\"");
    assert_eq!(world.run("fallback.bin", reply), Outcome::Ended);
    assert_eq!(world.sent[0][IF_RANGE], "\"original\"");

    // Final file is the full body, not partial + full.
    assert_eq!(world.dest, Some(full_body.to_vec()));
    // Temp file has been cleaned up.
    assert_eq!(world.temp, None);
    assert_eq!(world.completed, vec![(full_body.len() as u64, Some(full_body.len() as u64))]);
}

#[test]
fn test_resume_discards_the_partial_when_the_range_is_not_satisfiable() {
    let body = b"bytes past the end of a shrunken resource";
    let mut world = World::new(Some(body), etag("\"original\""));
    let outcome = world.run("stale.bin", Reply::sized(416, b""));
    assert_eq!(world.sent[0][RANGE], format!("bytes={}-", body.len()).as_str());
    assert_eq!(world.sent[0][IF_RANGE], "\"original\"");
    assert_eq!(
        outcome,
        Outcome::Failed(Error::Http("HTTP 416: Range Not Satisfiable".to_string()))
    );
    assert_eq!(world.temp, None);
    assert_eq!(world.dest, None);
}

#[test]
fn test_resume_finishes_when_416_confirms_the_partial_is_complete() {
    let body = b"already complete".to_vec();
    let mut world = World::new(Some(&body), etag("\"original\""));
    let reply =
        Reply::sized(416, b"").with(CONTENT_RANGE, &format!("bytes */{}", body.len()));
    assert_eq!(world.run("complete.bin", reply), Outcome::Ended);
    assert_eq!(world.sent[0][RANGE], format!("bytes={}-", body.len()).as_str());
    assert_eq!(world.sent[0][IF_RANGE], "\"original\"");

    // Destination holds the body; temp file is gone.
    assert_eq!(world.dest, Some(body.clone()));
    assert_eq!(world.temp, None);
    assert_eq!(world.completed, vec![(body.len() as u64, Some(body.len() as u64))]);
}

#[test]
fn test_an_empty_body_completes_with_a_zero_total() {
    // A stated zero is a known total, not an unknown one.
    let mut world = World::new(None, None);
    assert_eq!(world.run("empty.bin", Reply::sized(200, b"")), Outcome::Ended);
    assert_eq!(world.completed, vec![(0, Some(0))]);
}

#[test]
fn test_http_error_returns_err_and_creates_no_file() {
    let mut world = World::new(None, None);
    match world.run("missing.bin", Reply::sized(404, b"not found")) {
        Outcome::Failed(Error::Http(msg)) => {
            assert!(msg.contains("404"), "expected status in message: {}", msg);
            assert_eq!(msg, "HTTP 404: Not Found");
        }
        other => panic!("expected Error::Http, got {:?}", other),
    }
    assert_eq!(world.dest, None);
    assert_eq!(world.temp, None);
}

#[test]
fn test_creates_output_folder_when_missing() {
    let mut world = World::new(None, None);
    assert_eq!(world.run("a/b/c/file.bin", Reply::sized(200, b"data")), Outcome::Ended);
    assert!(world.folder_ensured);
    assert_eq!(world.dest, Some(b"data".to_vec()));
}

#[test]
fn test_unknown_size_emits_progress_at_byte_threshold() {
    let body = vec![0u8; THRESHOLD + 1024];
    let mut world = World::new(None, None);
    assert_eq!(world.run("big.bin", Reply::chunked(200, &body, 16384)), Outcome::Ended);
    assert_eq!(world.checkpoints, vec![(THRESHOLD as u64, None)]);
    assert_eq!(world.completed, vec![(body.len() as u64, None)]);
}

#[test]
fn test_pause_mid_stream_stops_and_preserves_temp_file() {
    let body = vec![0u8; 4 * THRESHOLD];
    let mut world = World::new(None, None);
    world.pause_at_checkpoint = true;
    let reply = Reply::chunked(200, &body, 16384).with(ETAG, "\"original\"");
    assert_eq!(world.run("pause.bin", reply), Outcome::Ended);
    let saved = world.record.unwrap();
    assert_eq!(saved.total_bytes, None);
    assert_eq!(saved.validator, etag("\"original\""));
    assert_eq!(world.checkpoints.len(), 1);
    assert_eq!(world.temp, Some(body[..THRESHOLD].to_vec()));
    assert_eq!(world.dest, None);
    assert_eq!(world.completed.len(), 0);
}

/// Interrupt a response, start again from what was recorded, and finish the download. An
/// optional old prefix makes the first response a replacement.
fn assert_validator_survives_interrupted_response(replacing: bool, response_etag: Option<&str>) {
    // Unknown length forces checkpoints by byte count. Vary the bytes so the final comparison
    // detects a wrong offset as well as an old file prefix.
    let body: Vec<u8> = (0..4 * THRESHOLD).map(|i| (i % 251) as u8).collect();
    let mut world = if replacing {
        World::new(Some(b"old!"), etag("\"old\""))
    } else {
        World::new(None, None)
    };
    world.pause_at_checkpoint = true;
    let mut reply = Reply::chunked(200, &body, 10000);
    if let Some(tag) = response_etag {
        reply = reply.with(ETAG, tag);
    }
    assert_eq!(world.run("lifecycle.bin", reply), Outcome::Ended);
    if replacing {
        assert_eq!(world.sent[0][RANGE], "bytes=4-");
        assert_eq!(world.sent[0][IF_RANGE], "\"old\"");
    } else {
        assert!(!world.sent[0].contains_key(RANGE) && !world.sent[0].contains_key(IF_RANGE));
    }
    let prefix = world.temp.clone().unwrap();
    assert!(!prefix.is_empty() && prefix.len() < body.len());
    assert_eq!(prefix, body[..prefix.len()]);
    assert_eq!(world.dest, None);

    let saved = world.record.clone().unwrap();
    assert!(saved.received_bytes > 0 && saved.received_bytes <= prefix.len() as u64);
    assert_eq!(saved.validator, response_etag.map(|v| ResumeValidator::ETag(v.into())));
    let offset = prefix.len();
    world.pause_at_checkpoint = false;
    // A 206 may omit ETag; the saved validator must remain usable.
    let reply = if response_etag.is_some() {
        Reply::chunked(206, &body[offset..], 10000)
    } else {
        Reply::chunked(200, &body, 10000)
    };
    assert_eq!(world.run("lifecycle.bin", reply), Outcome::Ended);
    match response_etag {
        Some(tag) => {
            assert_eq!(world.sent[1][RANGE], format!("bytes={}-", offset).as_str());
            assert_eq!(world.sent[1][IF_RANGE], tag);
        }
        None => {
            assert!(!world.sent[1].contains_key(RANGE) && !world.sent[1].contains_key(IF_RANGE));
        }
    }
    assert_eq!(world.dest, Some(body));
    assert_eq!(world.temp, None);
    assert_eq!(world.record, None);
    assert_eq!(world.completed.len(), 1);
}

#[test]
fn test_etag_download_pause_reload_resume() {
    assert_validator_survives_interrupted_response(false, Some("\"original\""));
}

#[test]
fn test_replacement_pause_reload_uses_replacement_validator() {
    for tag in [Some("\"new\""), None] {
        assert_validator_survives_interrupted_response(true, tag);
    }
}

#[test]
fn test_rename_failure_keeps_store_entry_and_temp_file() {
    let mut world = World::new(None, None);
    world.rename_fails = true;
    let outcome = world.run("occupied.bin", Reply::sized(200, b"complete body"));
    assert_eq!(outcome, Outcome::Refused);
    assert_eq!(world.record.unwrap().total_bytes, Some(b"complete body".len() as u64));
    assert_eq!(world.temp, Some(b"complete body".to_vec()));
    assert_eq!(world.completed.len(), 0);
}

#[test]
fn a_download_is_resumed_behind_what_a_failed_write_left() {
    let body = b"0123456789";
    let mut world = World::new(None, None);
    world.room = 7;
    let reply = Reply::chunked(200, body, 4).with(ETAG, "\"original\"");
    assert_eq!(
        world.run("file.bin", reply),
        Outcome::Failed(Error::File("Failed to write file: disk full".to_string()))
    );
    assert_eq!(world.temp, Some(body[..7].to_vec()));

    world.room = usize::MAX;
    assert_eq!(world.run("file.bin", Reply::sized(206, &body[7..])), Outcome::Ended);
    assert_eq!(world.sent[1][RANGE], "bytes=7-");
    assert_eq!(world.sent[1][IF_RANGE], "\"original\"");
    assert_eq!(world.dest, Some(body.to_vec()));
    assert_eq!(world.completed, vec![(10, Some(10))]);
}

#[test]
fn a_failed_record_of_a_whole_body_stops_with_the_refusal() {
    let mut world = World::new(Some(b"old prefix"), etag("\"old\""));
    world.record_fails = true;
    assert_eq!(world.run("file.bin", Reply::sized(200, b"new body")), Outcome::Refused);
    assert_eq!(world.temp, None);
    assert_eq!(world.dest, None);
    assert_eq!(world.record.unwrap().validator, etag("\"old\""));
}

#[test]
fn a_failed_record_of_the_rest_keeps_what_was_saved() {
    let mut world = World::new(Some(b"part"), etag("\"x\""));
    world.record_fails = true;
    assert_eq!(world.run("file.bin", Reply::sized(206, b"rest")), Outcome::Refused);
    assert_eq!(world.temp, Some(b"part".to_vec()));
}

#[test]
fn a_partial_response_keeps_the_saved_validator() {
    let mut world = World::new(Some(b"part"), etag("\"original\""));
    world.rename_fails = true;
    let reply = Reply::sized(206, b"rest").with(ETAG, "\"other\"");
    assert_eq!(world.run("file.bin", reply), Outcome::Refused);
    assert_eq!(
        world.record,
        Some(Record {
            received_bytes: 4,
            total_bytes: Some(8),
            validator: etag("\"original\""),
        })
    );
}

#[test]
fn an_unasked_partial_response_is_refused() {
    let expected = "Unsolicited partial response to a full download request";
    for (validator, saved) in [(None, None), (None, Some(4)), (etag("\"x\""), Some(0))] {
        let action = after(validator, saved, vec![response(206, Some(4))]);
        assert_eq!(failure(action), Error::Http(expected.to_string()));
    }
}

#[test]
fn a_refused_range_without_a_saved_part_is_an_error_like_any_other() {
    let mut headers = HeaderMap::new();
    headers.insert(CONTENT_RANGE, "bytes */0".parse().unwrap());
    let refused = Event::Responded(Response { status: 416, headers, content_length: None });
    assert_eq!(
        failure(after(None, None, vec![refused])),
        Error::Http("HTTP 416: Range Not Satisfiable".to_string())
    );
}

#[test]
fn a_refused_range_that_states_another_total_or_none_discards() {
    let stated = |value: &[u8]| {
        let mut headers = HeaderMap::new();
        headers.insert(CONTENT_RANGE, HeaderValue::from_bytes(value).unwrap());
        Event::Responded(Response { status: 416, headers, content_length: None })
    };
    for value in [&b"bytes */5"[..], b"bytes */*", b"4", b"bytes */4\xff"] {
        let action = after(etag("\"x\""), Some(4), vec![stated(value)]);
        assert!(matches!(action, Action::Discard));
    }
    let action = after(etag("\"x\""), Some(4), vec![stated(b"bytes */4")]);
    assert!(matches!(action, Action::Finish { received_bytes: 4, total_bytes: Some(4) }));
}

#[test]
fn a_status_without_a_standard_reason_is_unknown() {
    assert_eq!(
        failure(after(None, None, vec![response(599, None)])),
        Error::Http("HTTP 599: Unknown".to_string())
    );
    assert_eq!(
        Error::with_reason(299, Some("Odd".to_string())),
        Error::Http("HTTP 299: Odd".to_string())
    );
    assert_eq!(Error::with_reason(7, None), Error::Http("HTTP 7: Unknown".to_string()));
    assert_eq!(Error::from_status(503), Error::Http("HTTP 503: Service Unavailable".to_string()));
}

#[test]
fn success_is_every_status_from_200_to_299() {
    for status in [200, 204, 299] {
        let action = after(None, None, vec![response(status, None)]);
        assert!(matches!(action, Action::Persist { replace_temp: false, .. }));
    }
    for status in [100, 199, 300, 304, 999] {
        failure(after(None, None, vec![response(status, None)]));
    }
}

#[test]
fn each_failure_says_what_failed() {
    let cause = || "cause".to_string();
    let file = |text: &str| Error::File(text.to_string());
    let http = |text: &str| Error::Http(text.to_string());
    let ready = |more: Vec<Event>| {
        let mut events = vec![response(200, None), Event::StillActive];
        events.extend(more);
        failure(after(None, None, events))
    };

    let (mut download, _) = Download::start("file.bin", None);
    let action = download.step(Event::InspectFailed(cause()));
    assert_eq!(failure(action), file("Failed to inspect temp file: cause"));
    assert_eq!(
        failure(after(None, None, vec![Event::SendFailed(cause())])),
        http("Failed to send request: cause")
    );
    assert_eq!(
        failure(after(None, Some(1), vec![response(416, None), Event::DiscardFailed(cause())])),
        file("Failed to delete stale temp file: cause")
    );
    assert_eq!(Error::stale_file(cause()), file("Failed to delete stale temp file: cause"));
    assert_eq!(ready(vec![Event::NoFolder]), file("File path has no parent directory"));
    assert_eq!(
        ready(vec![Event::FolderFailed(cause())]),
        file("Failed to create directory: cause")
    );
    assert_eq!(
        ready(vec![Event::FolderReady, Event::OpenFailed(cause())]),
        file("Failed to open file: cause")
    );
    assert_eq!(
        ready(vec![Event::FolderReady, Event::Opened, Event::ChunkFailed(cause())]),
        http("Failed to download: cause")
    );
    assert_eq!(
        ready(vec![
            Event::FolderReady,
            Event::Opened,
            Event::Chunk(vec![1]),
            Event::WriteFailed(cause()),
        ]),
        file("Failed to write file: cause")
    );
}

#[test]
fn cancelling_ends_without_failure() {
    let ended = |action| matches!(action, Action::Stop(Outcome::Ended));
    assert!(ended(after(None, None, vec![Event::Cancelled])));
    assert!(ended(after(
        None,
        None,
        vec![
            response(200, None),
            Event::StillActive,
            Event::FolderReady,
            Event::Opened,
            Event::Cancelled,
        ]
    )));
}

#[test]
fn a_refused_record_stops_with_the_refusal() {
    let action = after(None, None, vec![response(200, None), Event::Refused]);
    assert!(matches!(action, Action::Stop(Outcome::Refused)));
}

#[test]
fn known_size_is_recorded_at_most_ninety_nine_times() {
    let body = vec![7u8; 1000];
    let mut world = World::new(None, None);
    let mut reply = Reply::chunked(200, &body, 1);
    reply.content_length = Some(1000);
    assert_eq!(world.run("file.bin", reply), Outcome::Ended);
    assert_eq!(world.checkpoints.len(), 99);
    assert_eq!(world.checkpoints[0], (10, Some(1000)));
    assert_eq!(world.checkpoints[98], (990, Some(1000)));
    assert_eq!(world.dest, Some(body));
}

#[test]
fn only_the_answer_to_the_last_action_is_accepted() {
    let (mut download, _) = Download::start("file.bin", None);
    assert!(!download.accepts(&Event::Opened));
    assert!(!download.accepts(&Event::Finished));
    assert!(download.accepts(&Event::Inspected(None)));
    download.step(Event::Inspected(Some(3)));
    assert!(!download.accepts(&Event::Inspected(None)));
    assert!(!download.accepts(&response(99, None)));
    assert!(!download.accepts(&response(1000, None)));
    assert!(download.accepts(&response(206, Some(u64::MAX))));
    download.step(Event::Cancelled);
    assert!(!download.accepts(&Event::Cancelled));
}

#[test]
fn counts_beyond_the_range_are_not_accepted() {
    let (mut download, _) = Download::start("file.bin", etag("\"x\""));
    download.step(Event::Inspected(Some(3)));
    assert!(download.accepts(&response(206, Some(u64::MAX - 3))));
    assert!(!download.accepts(&response(206, Some(u64::MAX - 2))));
    assert!(download.accepts(&response(200, Some(u64::MAX))));

    let past = Timestamp { secs: 253402300800, nanos: 0 };
    let (late, _) = Download::start("file.bin", Some(ResumeValidator::LastModified(past)));
    assert!(!late.accepts(&Event::Inspected(None)));
    assert!(late.accepts(&Event::InspectFailed("cause".to_string())));
}
