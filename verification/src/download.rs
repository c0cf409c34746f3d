//! A download from the first look at the temporary file to the finished file.
//!
//! [`Download`] decides, and whoever drives it acts: each [`Action`] is carried out and
//! answered with one [`Event`], which leads to the next action.

use crate::content_range;
use crate::error;
use crate::error::Error;
use crate::fields;
use crate::progress;
use crate::progress::ProgressTracker;
use crate::validator;
use crate::validator::{IfRange, ResumeValidator};
use reqwest::header::HeaderMap;
use vstd::prelude::*;

verus! {

/// What the name of a temporary file ends in.
pub const DOWNLOAD_SUFFIX: &'static str = ".download";

/// The status of a response that brings the rest of a resource.
pub const PARTIAL_CONTENT: u16 = 206;

/// The status of a response that refuses a range.
pub const RANGE_NOT_SATISFIABLE: u16 = 416;

/// A response, before its body.
#[derive(Debug)]
pub struct Response {
    pub status: u16,
    pub headers: HeaderMap,
    pub content_length: Option<u64>,
}

/// What is known of a [`Response`].
#[verifier::ext_equal]
pub struct ResponseView {
    pub status: u16,
    pub fields: fields::Fields,
    pub content_length: Option<u64>,
}

impl View for Response {
    type V = ResponseView;

    open spec fn view(&self) -> ResponseView {
        ResponseView {
            status: self.status,
            fields: fields::header_fields(self.headers),
            content_length: self.content_length,
        }
    }
}

impl ResponseView {
    /// Whether the status has three digits.
    pub open spec fn valid(self) -> bool {
        100 <= self.status < 1000
    }

    pub open spec fn success(self) -> bool {
        200 <= self.status < 300
    }

    pub open spec fn partial(self) -> bool {
        self.status == PARTIAL_CONTENT
    }

    /// The size of the resource that a refused range is told.
    pub open spec fn refused_total(self) -> Option<u64> {
        let values = fields::values_of(self.fields, "content-range"@);
        if values.len() > 0 && fields::all_visible(values[0]) {
            content_range::stated_total(fields::ascii_text(values[0]))
        } else {
            None
        }
    }
}

/// What came of an [`Action`].
#[derive(Debug)]
pub enum Event {
    /// The size of the temporary file, or `None` where there is none.
    Inspected(Option<u64>),
    InspectFailed(String),
    /// The download was told to stop.
    Cancelled,
    SendFailed(String),
    Responded(Response),
    Discarded,
    DiscardFailed(String),
    /// The record of the download was updated.
    StillActive,
    /// The record of the download says that it is not to go on.
    NoLongerActive,
    /// The record of the download could not be updated, or the file not be put in place.
    Refused,
    FolderReady,
    /// The temporary file has no parent directory.
    NoFolder,
    FolderFailed(String),
    Opened,
    OpenFailed(String),
    Chunk(Vec<u8>),
    ChunkFailed(String),
    StreamEnded,
    Written,
    WriteFailed(String),
    Finished,
}

/// What an [`Event`] says.
pub enum EventView {
    Inspected(Option<u64>),
    InspectFailed(Seq<char>),
    Cancelled,
    SendFailed(Seq<char>),
    Responded(ResponseView),
    Discarded,
    DiscardFailed(Seq<char>),
    StillActive,
    NoLongerActive,
    Refused,
    FolderReady,
    NoFolder,
    FolderFailed(Seq<char>),
    Opened,
    OpenFailed(Seq<char>),
    Chunk(Seq<u8>),
    ChunkFailed(Seq<char>),
    StreamEnded,
    Written,
    WriteFailed(Seq<char>),
    Finished,
}

impl View for Event {
    type V = EventView;

    open spec fn view(&self) -> EventView {
        match self {
            Event::Inspected(size) => EventView::Inspected(*size),
            Event::InspectFailed(cause) => EventView::InspectFailed(cause@),
            Event::Cancelled => EventView::Cancelled,
            Event::SendFailed(cause) => EventView::SendFailed(cause@),
            Event::Responded(response) => EventView::Responded(response@),
            Event::Discarded => EventView::Discarded,
            Event::DiscardFailed(cause) => EventView::DiscardFailed(cause@),
            Event::StillActive => EventView::StillActive,
            Event::NoLongerActive => EventView::NoLongerActive,
            Event::Refused => EventView::Refused,
            Event::FolderReady => EventView::FolderReady,
            Event::NoFolder => EventView::NoFolder,
            Event::FolderFailed(cause) => EventView::FolderFailed(cause@),
            Event::Opened => EventView::Opened,
            Event::OpenFailed(cause) => EventView::OpenFailed(cause@),
            Event::Chunk(data) => EventView::Chunk(data@),
            Event::ChunkFailed(cause) => EventView::ChunkFailed(cause@),
            Event::StreamEnded => EventView::StreamEnded,
            Event::Written => EventView::Written,
            Event::WriteFailed(cause) => EventView::WriteFailed(cause@),
            Event::Finished => EventView::Finished,
        }
    }
}

/// How a download came to rest.
#[derive(Debug, PartialEq)]
pub enum Outcome {
    /// It is finished, or it was stopped and can be resumed.
    Ended,
    Failed(Error),
    /// With the failure that was reported as [`Event::Refused`].
    Refused,
}

/// What an [`Outcome`] says.
pub enum OutcomeView {
    Ended,
    Failed(error::ErrorView),
    Refused,
}

impl View for Outcome {
    type V = OutcomeView;

    open spec fn view(&self) -> OutcomeView {
        match self {
            Outcome::Ended => OutcomeView::Ended,
            Outcome::Failed(error) => OutcomeView::Failed(error@),
            Outcome::Refused => OutcomeView::Refused,
        }
    }
}

/// What is to be done next.
#[derive(Debug)]
pub enum Action {
    /// Look up the size of the temporary file.
    Inspect,
    /// Send the request with these fields, and wait for the response or to be cancelled.
    Send(HeaderMap),
    /// Delete the temporary file, if it is there.
    Discard,
    /// Record what the response says, if the download is still active. With `replace_temp`,
    /// delete the temporary file first. If the download is no longer active, do neither.
    Persist {
        received_bytes: u64,
        total_bytes: Option<u64>,
        validator: Option<ResumeValidator>,
        replace_temp: bool,
    },
    /// Make sure that the directory of the temporary file exists.
    EnsureFolder,
    /// Open the temporary file for appending, and create it if it is not there.
    Open,
    /// Wait for the next part of the body or to be cancelled.
    Receive,
    /// Append to the temporary file.
    Write(Vec<u8>),
    /// Record how far the download has come, if it is still active.
    Checkpoint { received_bytes: u64, total_bytes: Option<u64> },
    /// Put the temporary file in place, if the download is still active, and remove its record.
    Finish { received_bytes: u64, total_bytes: Option<u64> },
    Stop(Outcome),
}

/// What an [`Action`] asks for.
pub enum ActionView {
    Inspect,
    Send(fields::Fields),
    Discard,
    Persist {
        received_bytes: u64,
        total_bytes: Option<u64>,
        validator: Option<validator::ValidatorView>,
        replace_temp: bool,
    },
    EnsureFolder,
    Open,
    Receive,
    Write(Seq<u8>),
    Checkpoint { received_bytes: u64, total_bytes: Option<u64> },
    Finish { received_bytes: u64, total_bytes: Option<u64> },
    Stop(OutcomeView),
}

impl View for Action {
    type V = ActionView;

    open spec fn view(&self) -> ActionView {
        match self {
            Action::Inspect => ActionView::Inspect,
            Action::Send(headers) => ActionView::Send(fields::header_fields(*headers)),
            Action::Discard => ActionView::Discard,
            Action::Persist { received_bytes, total_bytes, validator, replace_temp } => {
                ActionView::Persist {
                    received_bytes: *received_bytes,
                    total_bytes: *total_bytes,
                    validator: validator.deep_view(),
                    replace_temp: *replace_temp,
                }
            },
            Action::EnsureFolder => ActionView::EnsureFolder,
            Action::Open => ActionView::Open,
            Action::Receive => ActionView::Receive,
            Action::Write(data) => ActionView::Write(data@),
            Action::Checkpoint { received_bytes, total_bytes } => ActionView::Checkpoint {
                received_bytes: *received_bytes,
                total_bytes: *total_bytes,
            },
            Action::Finish { received_bytes, total_bytes } => ActionView::Finish {
                received_bytes: *received_bytes,
                total_bytes: *total_bytes,
            },
            Action::Stop(outcome) => ActionView::Stop(outcome@),
        }
    }
}

/// How far a download has come.
#[derive(Clone, Copy, Debug, PartialEq, Eq, Structural)]
pub enum Stage {
    Inspecting,
    Requesting { saved_bytes: u64, resuming: bool },
    Discarding,
    Persisting { received_bytes: u64, total_bytes: Option<u64> },
    Preparing { received_bytes: u64, total_bytes: Option<u64> },
    Opening { received_bytes: u64, total_bytes: Option<u64> },
    Receiving { progress: ProgressTracker },
    Writing { progress: ProgressTracker, chunk_bytes: u64 },
    Checkpointing { progress: ProgressTracker },
    Finishing,
    Stopped,
}

/// A download.
#[derive(Debug)]
pub struct Download {
    temp_path: String,
    validator: Option<ResumeValidator>,
    stage: Stage,
}

/// The state of a [`Download`].
pub struct DownloadView {
    /// Where the body is collected.
    pub temp_path: Seq<char>,
    /// The validator of what the temporary file held at the start.
    pub validator: Option<validator::ValidatorView>,
    pub stage: Stage,
}

impl View for Download {
    type V = DownloadView;

    closed spec fn view(&self) -> DownloadView {
        DownloadView {
            temp_path: self.temp_path@,
            validator: self.validator.deep_view(),
            stage: self.stage,
        }
    }
}

/// The fields of the request for what is missing behind `saved_bytes`, under `condition`. Without
/// a condition the whole resource is asked for.
pub open spec fn request_fields(saved_bytes: u64, condition: Option<Seq<u8>>) -> fields::Fields {
    match condition {
        Some(condition) => fields::Fields::empty().insert(
            "range"@,
            seq![fields::range_from(saved_bytes)],
        ).insert("if-range"@, seq![condition]),
        None => fields::Fields::empty(),
    }
}

impl DownloadView {
    /// The start of a download to `path`, of which a part under `validator` may be saved.
    pub open spec fn begin(
        path: Seq<char>,
        validator: Option<validator::ValidatorView>,
    ) -> DownloadView {
        DownloadView { temp_path: path + DOWNLOAD_SUFFIX@, validator, stage: Stage::Inspecting }
    }

    /// What holds between two events.
    pub open spec fn valid(self) -> bool {
        match self.stage {
            Stage::Requesting { saved_bytes, resuming } => resuming ==> saved_bytes > 0,
            Stage::Receiving { progress } => progress.valid(),
            Stage::Writing { progress, .. } => progress.valid(),
            Stage::Checkpointing { progress } => progress.valid(),
            _ => true,
        }
    }

    /// Whether `event` answers the action that is under way, and neither takes a count of bytes
    /// beyond what a `u64` holds nor asks for a date beyond the years of HTTP dates.
    pub open spec fn accepts(self, event: EventView) -> bool {
        match (self.stage, event) {
            (Stage::Inspecting, EventView::Inspected(_)) => self.validator is Some
                ==> self.validator->0.valid(),
            (Stage::Inspecting, EventView::InspectFailed(_)) => true,
            (Stage::Requesting { .. }, EventView::Cancelled) => true,
            (Stage::Requesting { .. }, EventView::SendFailed(_)) => true,
            (Stage::Requesting { saved_bytes, resuming }, EventView::Responded(response)) => {
                &&& response.valid()
                &&& response.partial() && resuming && response.content_length is Some ==> saved_bytes
                    + response.content_length->0 <= u64::MAX
            },
            (Stage::Discarding, EventView::Discarded) => true,
            (Stage::Discarding, EventView::DiscardFailed(_)) => true,
            (Stage::Persisting { .. }, EventView::StillActive) => true,
            (Stage::Persisting { .. }, EventView::NoLongerActive) => true,
            (Stage::Persisting { .. }, EventView::Refused) => true,
            (Stage::Preparing { .. }, EventView::FolderReady) => true,
            (Stage::Preparing { .. }, EventView::NoFolder) => true,
            (Stage::Preparing { .. }, EventView::FolderFailed(_)) => true,
            (Stage::Opening { received_bytes, total_bytes }, EventView::Opened) => {
                progress::measurable(received_bytes as int, total_bytes)
            },
            (Stage::Opening { .. }, EventView::OpenFailed(_)) => true,
            (Stage::Receiving { .. }, EventView::Cancelled) => true,
            (Stage::Receiving { .. }, EventView::Chunk(data)) => data.len() <= u64::MAX,
            (Stage::Receiving { .. }, EventView::ChunkFailed(_)) => true,
            (Stage::Receiving { .. }, EventView::StreamEnded) => true,
            (Stage::Writing { progress, chunk_bytes }, EventView::Written) => {
                let received = progress.received_bytes + chunk_bytes;
                received <= u64::MAX && progress::measurable(received, progress.total_bytes)
            },
            (Stage::Writing { .. }, EventView::WriteFailed(_)) => true,
            (Stage::Checkpointing { .. }, EventView::StillActive) => true,
            (Stage::Checkpointing { .. }, EventView::NoLongerActive) => true,
            (Stage::Checkpointing { .. }, EventView::Refused) => true,
            (Stage::Finishing, EventView::Finished) => true,
            (Stage::Finishing, EventView::Refused) => true,
            _ => false,
        }
    }

    pub open spec fn at(self, stage: Stage) -> DownloadView {
        DownloadView { stage, ..self }
    }

    pub open spec fn stop(self, outcome: OutcomeView) -> (DownloadView, ActionView) {
        (self.at(Stage::Stopped), ActionView::Stop(outcome))
    }

    pub open spec fn fail(self, error: error::ErrorView) -> (DownloadView, ActionView) {
        self.stop(OutcomeView::Failed(error))
    }

    /// The condition to send when `saved_bytes` are there. A partial body without a usable
    /// validator cannot safely be appended to.
    pub open spec fn condition(self, saved_bytes: u64) -> Option<Seq<u8>> {
        if saved_bytes > 0 && self.validator is Some {
            self.validator->0.condition()
        } else {
            None
        }
    }

    /// After the look at the temporary file.
    pub open spec fn after_inspection(self, saved_bytes: u64) -> (DownloadView, ActionView) {
        let condition = self.condition(saved_bytes);
        (
            self.at(Stage::Requesting { saved_bytes, resuming: condition is Some }),
            ActionView::Send(request_fields(saved_bytes, condition)),
        )
    }

    /// After a response to the request that was sent when `saved_bytes` were there.
    ///
    /// A refused range means that the temporary file is complete, where its size is the total
    /// that the refusal states, or else that it is of no use. The rest of the resource is taken
    /// only where it was asked for, and goes with the validator under which it was asked for. A
    /// whole body replaces what is there, and brings its own validator.
    pub open spec fn after_response(
        self,
        saved_bytes: u64,
        resuming: bool,
        response: ResponseView,
    ) -> (DownloadView, ActionView) {
        if saved_bytes > 0 && response.status == RANGE_NOT_SATISFIABLE {
            if response.refused_total() == Some(saved_bytes) {
                self.finish(saved_bytes, Some(saved_bytes))
            } else {
                (self.at(Stage::Discarding), ActionView::Discard)
            }
        } else if !response.success() {
            self.fail(error::refusal(response.status, fields::reason_phrase(response.status)))
        } else if response.partial() && !resuming {
            self.fail(
                error::ErrorView::Http("Unsolicited partial response to a full download request"@),
            )
        } else {
            let received_bytes = if response.partial() {
                saved_bytes
            } else {
                0
            };
            let total_bytes = match response.content_length {
                Some(length) => Some((length + received_bytes) as u64),
                None => None,
            };
            (
                self.at(Stage::Persisting { received_bytes, total_bytes }),
                ActionView::Persist {
                    received_bytes,
                    total_bytes,
                    validator: if response.partial() {
                        self.validator
                    } else {
                        validator::validator_of(response.fields)
                    },
                    replace_temp: saved_bytes > 0 && !response.partial(),
                },
            )
        }
    }

    /// After a part of the body was written. A report that is due, but would report completion,
    /// is left to the end.
    pub open spec fn after_write(self, progress: ProgressTracker) -> (DownloadView, ActionView) {
        if !progress.due() {
            (self.at(Stage::Receiving { progress }), ActionView::Receive)
        } else if progress.complete() {
            (self.at(Stage::Receiving { progress: progress.emitted() }), ActionView::Receive)
        } else {
            (
                self.at(Stage::Checkpointing { progress: progress.emitted() }),
                ActionView::Checkpoint {
                    received_bytes: progress.received_bytes,
                    total_bytes: progress.total_bytes,
                },
            )
        }
    }

    pub open spec fn finish(self, received_bytes: u64, total_bytes: Option<u64>) -> (
        DownloadView,
        ActionView,
    ) {
        (self.at(Stage::Finishing), ActionView::Finish { received_bytes, total_bytes })
    }

    /// The state and the action that `event` leads to.
    pub open spec fn step(self, event: EventView) -> (DownloadView, ActionView) {
        match (self.stage, event) {
            (Stage::Inspecting, EventView::Inspected(size)) => self.after_inspection(
                match size {
                    Some(size) => size,
                    None => 0,
                },
            ),
            (Stage::Inspecting, EventView::InspectFailed(cause)) => self.fail(
                error::ErrorView::File("Failed to inspect temp file: "@ + cause),
            ),
            (Stage::Requesting { .. }, EventView::Cancelled) => self.stop(OutcomeView::Ended),
            (Stage::Requesting { .. }, EventView::SendFailed(cause)) => self.fail(
                error::ErrorView::Http("Failed to send request: "@ + cause),
            ),
            (Stage::Requesting { saved_bytes, resuming }, EventView::Responded(response)) => {
                self.after_response(saved_bytes, resuming, response)
            },
            (Stage::Discarding, EventView::Discarded) => self.fail(
                error::refusal(
                    RANGE_NOT_SATISFIABLE,
                    fields::reason_phrase(RANGE_NOT_SATISFIABLE),
                ),
            ),
            (Stage::Discarding, EventView::DiscardFailed(cause)) => self.fail(
                error::ErrorView::File("Failed to delete stale temp file: "@ + cause),
            ),
            (
                Stage::Persisting { received_bytes, total_bytes },
                EventView::StillActive,
            ) => (self.at(Stage::Preparing { received_bytes, total_bytes }), ActionView::EnsureFolder),
            (
                Stage::Preparing { received_bytes, total_bytes },
                EventView::FolderReady,
            ) => (self.at(Stage::Opening { received_bytes, total_bytes }), ActionView::Open),
            (Stage::Preparing { .. }, EventView::NoFolder) => self.fail(
                error::ErrorView::File("File path has no parent directory"@),
            ),
            (Stage::Preparing { .. }, EventView::FolderFailed(cause)) => self.fail(
                error::ErrorView::File("Failed to create directory: "@ + cause),
            ),
            (Stage::Opening { received_bytes, total_bytes }, EventView::Opened) => (
                self.at(
                    Stage::Receiving {
                        progress: ProgressTracker::started(received_bytes, total_bytes),
                    },
                ),
                ActionView::Receive,
            ),
            (Stage::Opening { .. }, EventView::OpenFailed(cause)) => self.fail(
                error::ErrorView::File("Failed to open file: "@ + cause),
            ),
            (Stage::Receiving { .. }, EventView::Cancelled) => self.stop(OutcomeView::Ended),
            (Stage::Receiving { progress }, EventView::Chunk(data)) => (
                self.at(Stage::Writing { progress, chunk_bytes: data.len() as u64 }),
                ActionView::Write(data),
            ),
            (Stage::Receiving { .. }, EventView::ChunkFailed(cause)) => self.fail(
                error::ErrorView::Http("Failed to download: "@ + cause),
            ),
            (Stage::Receiving { progress }, EventView::StreamEnded) => self.finish(
                progress.received_bytes,
                progress.total_bytes,
            ),
            (Stage::Writing { progress, chunk_bytes }, EventView::Written) => self.after_write(
                progress.advanced(chunk_bytes as int),
            ),
            (Stage::Writing { .. }, EventView::WriteFailed(cause)) => self.fail(
                error::ErrorView::File("Failed to write file: "@ + cause),
            ),
            (Stage::Checkpointing { progress }, EventView::StillActive) => (
                self.at(Stage::Receiving { progress }),
                ActionView::Receive,
            ),
            (_, EventView::NoLongerActive) => self.stop(OutcomeView::Ended),
            (_, EventView::Finished) => self.stop(OutcomeView::Ended),
            _ => self.stop(OutcomeView::Refused),
        }
    }
}

/// The fields of the request for what is missing behind `saved_bytes`, under `condition`.
pub fn request_headers(saved_bytes: u64, condition: Option<IfRange>) -> (headers: HeaderMap)
    requires
        condition is Some ==> condition->0.valid(),
    ensures
        fields::header_fields(headers) == request_fields(
            saved_bytes,
            match condition {
                Some(condition) => Some(condition.field_value()),
                None => None,
            },
        ),
{
    let mut headers: HeaderMap = fields::new_headers();
    if let Some(condition) = condition {
        fields::insert_range(&mut headers, saved_bytes);
        condition.insert_into(&mut headers);
    }
    headers
}

impl Response {
    /// The size of the resource that a refused range is told.
    pub fn refused_total(&self) -> (total: Option<u64>)
        ensures
            total == self@.refused_total(),
    {
        proof {
            reveal_strlit("content-range");
        }
        let values: Vec<Vec<u8>> = fields::field_values(&self.headers, "content-range");
        if values.len() == 0 {
            return None;
        }
        assert(values.deep_view()[0] == values@[0]@);
        match fields::visible_text(&values[0]) {
            Some(text) => content_range::unsatisfiable_range_total(Some(text.as_str())),
            None => None,
        }
    }
}

impl Download {
    /// Starts a download to `path`, of which a part under `validator` may be saved.
    pub fn start(path: &str, validator: Option<ResumeValidator>) -> (started: (Download, Action))
        ensures
            started.0@ == DownloadView::begin(path@, validator.deep_view()),
            started.0@.valid(),
            started.1@ == ActionView::Inspect,
    {
        let mut temp_path: String = path.to_owned();
        temp_path.append(DOWNLOAD_SUFFIX);
        (Download { temp_path, validator, stage: Stage::Inspecting }, Action::Inspect)
    }

    /// Where the body is collected.
    pub fn temp_path(&self) -> (path: &str)
        ensures
            path@ == self@.temp_path,
    {
        self.temp_path.as_str()
    }

    /// Whether `event` answers the action that is under way, and neither takes a count of bytes
    /// beyond what a `u64` holds nor asks for a date beyond the years of HTTP dates.
    pub fn accepts(&self, event: &Event) -> (accepted: bool)
        ensures
            accepted == self@.accepts(event@),
    {
        match (self.stage, event) {
            (Stage::Inspecting, Event::Inspected(_)) => match &self.validator {
                Some(validator) => validator.is_valid(),
                None => true,
            },
            (Stage::Inspecting, Event::InspectFailed(_)) => true,
            (Stage::Requesting { .. }, Event::Cancelled) => true,
            (Stage::Requesting { .. }, Event::SendFailed(_)) => true,
            (Stage::Requesting { saved_bytes, resuming }, Event::Responded(response)) => {
                100 <= response.status && response.status < 1000 && match response.content_length {
                    Some(length) if response.status == PARTIAL_CONTENT && resuming => length
                        <= u64::MAX - saved_bytes,
                    _ => true,
                }
            },
            (Stage::Discarding, Event::Discarded) => true,
            (Stage::Discarding, Event::DiscardFailed(_)) => true,
            (Stage::Persisting { .. }, Event::StillActive) => true,
            (Stage::Persisting { .. }, Event::NoLongerActive) => true,
            (Stage::Persisting { .. }, Event::Refused) => true,
            (Stage::Preparing { .. }, Event::FolderReady) => true,
            (Stage::Preparing { .. }, Event::NoFolder) => true,
            (Stage::Preparing { .. }, Event::FolderFailed(_)) => true,
            (Stage::Opening { received_bytes, total_bytes }, Event::Opened) => {
                progress::can_measure(received_bytes, total_bytes)
            },
            (Stage::Opening { .. }, Event::OpenFailed(_)) => true,
            (Stage::Receiving { .. }, Event::Cancelled) => true,
            (Stage::Receiving { .. }, Event::Chunk(data)) => {
                assert(data.len() <= u64::MAX);
                true
            },
            (Stage::Receiving { .. }, Event::ChunkFailed(_)) => true,
            (Stage::Receiving { .. }, Event::StreamEnded) => true,
            (Stage::Writing { progress, chunk_bytes }, Event::Written) => {
                chunk_bytes <= u64::MAX - progress.received_bytes && progress::can_measure(
                    progress.received_bytes + chunk_bytes,
                    progress.total_bytes,
                )
            },
            (Stage::Writing { .. }, Event::WriteFailed(_)) => true,
            (Stage::Checkpointing { .. }, Event::StillActive) => true,
            (Stage::Checkpointing { .. }, Event::NoLongerActive) => true,
            (Stage::Checkpointing { .. }, Event::Refused) => true,
            (Stage::Finishing, Event::Finished) => true,
            (Stage::Finishing, Event::Refused) => true,
            _ => false,
        }
    }

    fn stop(&mut self, outcome: Outcome) -> (action: Action)
        ensures
            (final(self)@, action@) == old(self)@.stop(outcome@),
            final(self)@.valid(),
    {
        self.stage = Stage::Stopped;
        Action::Stop(outcome)
    }

    fn fail(&mut self, error: Error) -> (action: Action)
        ensures
            (final(self)@, action@) == old(self)@.fail(error@),
            final(self)@.valid(),
    {
        self.stop(Outcome::Failed(error))
    }

    fn finish(&mut self, received_bytes: u64, total_bytes: Option<u64>) -> (action: Action)
        ensures
            (final(self)@, action@) == old(self)@.finish(received_bytes, total_bytes),
            final(self)@.valid(),
    {
        self.stage = Stage::Finishing;
        Action::Finish { received_bytes, total_bytes }
    }

    fn request(&mut self, saved_bytes: u64) -> (action: Action)
        requires
            old(self)@.validator is Some ==> old(self)@.validator->0.valid(),
        ensures
            (final(self)@, action@) == old(self)@.after_inspection(saved_bytes),
            final(self)@.valid(),
    {
        let condition: Option<IfRange> = match &self.validator {
            Some(validator) if saved_bytes > 0 => validator.if_range(),
            _ => None,
        };
        self.stage = Stage::Requesting { saved_bytes, resuming: condition.is_some() };
        Action::Send(request_headers(saved_bytes, condition))
    }

    fn react(&mut self, saved_bytes: u64, resuming: bool, response: Response) -> (action: Action)
        requires
            response@.valid(),
            response@.partial() && resuming && response.content_length is Some ==> saved_bytes
                + response.content_length->0 <= u64::MAX,
        ensures
            (final(self)@, action@) == old(self)@.after_response(saved_bytes, resuming, response@),
            final(self)@.valid(),
    {
        let status: u16 = response.status;
        if saved_bytes > 0 && status == RANGE_NOT_SATISFIABLE {
            if response.refused_total() == Some(saved_bytes) {
                return self.finish(saved_bytes, Some(saved_bytes));
            }
            self.stage = Stage::Discarding;
            return Action::Discard;
        }
        if !fields::is_success(status) {
            return self.fail(Error::from_status(status));
        }
        let partial: bool = status == PARTIAL_CONTENT;
        if partial && !resuming {
            return self.fail(
                Error::Http("Unsolicited partial response to a full download request".to_owned()),
            );
        }
        let received_bytes: u64 = if partial {
            saved_bytes
        } else {
            0
        };
        let validator: Option<ResumeValidator> = if partial {
            match &self.validator {
                Some(validator) => Some(validator.clone()),
                None => None,
            }
        } else {
            ResumeValidator::from_headers(&response.headers)
        };
        let total_bytes: Option<u64> = match response.content_length {
            Some(length) => Some(length + received_bytes),
            None => None,
        };
        self.stage = Stage::Persisting { received_bytes, total_bytes };
        Action::Persist {
            received_bytes,
            total_bytes,
            validator,
            replace_temp: saved_bytes > 0 && !partial,
        }
    }

    fn written(&mut self, progress: ProgressTracker, chunk_bytes: u64) -> (action: Action)
        requires
            progress.valid(),
            progress.received_bytes + chunk_bytes <= u64::MAX,
            progress::measurable(progress.received_bytes + chunk_bytes, progress.total_bytes),
        ensures
            (final(self)@, action@) == old(self)@.after_write(
                progress.advanced(chunk_bytes as int),
            ),
            final(self)@.valid(),
    {
        let mut progress: ProgressTracker = progress;
        progress.advance(chunk_bytes);
        if !progress.should_emit() {
            self.stage = Stage::Receiving { progress };
            return Action::Receive;
        }
        progress.mark_emitted();
        if progress.is_complete() {
            self.stage = Stage::Receiving { progress };
            return Action::Receive;
        }
        self.stage = Stage::Checkpointing { progress };
        Action::Checkpoint {
            received_bytes: progress.received_bytes,
            total_bytes: progress.total_bytes,
        }
    }

    /// Takes what came of the last action, and says what is to be done next.
    pub fn step(&mut self, event: Event) -> (action: Action)
        requires
            old(self)@.valid(),
            old(self)@.accepts(event@),
        ensures
            (final(self)@, action@) == old(self)@.step(event@),
            final(self)@.valid(),
    {
        match (self.stage, event) {
            (Stage::Inspecting, Event::Inspected(size)) => {
                let saved_bytes: u64 = match size {
                    Some(size) => size,
                    None => 0,
                };
                self.request(saved_bytes)
            },
            (Stage::Inspecting, Event::InspectFailed(cause)) => self.fail(
                Error::File(error::message("Failed to inspect temp file: ", &cause)),
            ),
            (Stage::Requesting { .. }, Event::Cancelled) => self.stop(Outcome::Ended),
            (Stage::Requesting { .. }, Event::SendFailed(cause)) => self.fail(
                Error::Http(error::message("Failed to send request: ", &cause)),
            ),
            (Stage::Requesting { saved_bytes, resuming }, Event::Responded(response)) => {
                self.react(saved_bytes, resuming, response)
            },
            (Stage::Discarding, Event::Discarded) => self.fail(
                Error::from_status(RANGE_NOT_SATISFIABLE),
            ),
            (Stage::Discarding, Event::DiscardFailed(cause)) => self.fail(Error::stale_file(cause)),
            (Stage::Persisting { received_bytes, total_bytes }, Event::StillActive) => {
                self.stage = Stage::Preparing { received_bytes, total_bytes };
                Action::EnsureFolder
            },
            (Stage::Preparing { received_bytes, total_bytes }, Event::FolderReady) => {
                self.stage = Stage::Opening { received_bytes, total_bytes };
                Action::Open
            },
            (Stage::Preparing { .. }, Event::NoFolder) => self.fail(
                Error::File("File path has no parent directory".to_owned()),
            ),
            (Stage::Preparing { .. }, Event::FolderFailed(cause)) => self.fail(
                Error::File(error::message("Failed to create directory: ", &cause)),
            ),
            (Stage::Opening { received_bytes, total_bytes }, Event::Opened) => {
                let progress: ProgressTracker = ProgressTracker::new(received_bytes, total_bytes);
                self.stage = Stage::Receiving { progress };
                Action::Receive
            },
            (Stage::Opening { .. }, Event::OpenFailed(cause)) => self.fail(
                Error::File(error::message("Failed to open file: ", &cause)),
            ),
            (Stage::Receiving { .. }, Event::Cancelled) => self.stop(Outcome::Ended),
            (Stage::Receiving { progress }, Event::Chunk(data)) => {
                self.stage = Stage::Writing { progress, chunk_bytes: data.len() as u64 };
                Action::Write(data)
            },
            (Stage::Receiving { .. }, Event::ChunkFailed(cause)) => self.fail(
                Error::Http(error::message("Failed to download: ", &cause)),
            ),
            (Stage::Receiving { progress }, Event::StreamEnded) => self.finish(
                progress.received_bytes,
                progress.total_bytes,
            ),
            (Stage::Writing { progress, chunk_bytes }, Event::Written) => self.written(
                progress,
                chunk_bytes,
            ),
            (Stage::Writing { .. }, Event::WriteFailed(cause)) => self.fail(
                Error::File(error::message("Failed to write file: ", &cause)),
            ),
            (Stage::Checkpointing { progress }, Event::StillActive) => {
                self.stage = Stage::Receiving { progress };
                Action::Receive
            },
            (_, Event::NoLongerActive) => self.stop(Outcome::Ended),
            (_, Event::Finished) => self.stop(Outcome::Ended),
            _ => self.stop(Outcome::Refused),
        }
    }
}

/// A refusal whose first `Content-Range` is `bytes */` and a number states that number, whatever
/// else the response says.
pub proof fn law_refused_total_is_read(response: ResponseView, value: Seq<u8>, total: u64)
    requires
        response.fields.contains_key("content-range"@),
        response.fields["content-range"@].len() > 0,
        response.fields["content-range"@][0] == value,
        ({
            let text = "bytes */"@ + crate::text::decimal(total as nat);
            &&& value.len() == text.len()
            &&& forall|i: int| 0 <= i < value.len() ==> #[trigger] value[i] as int == text[i] as int
        }),
    ensures
        response.refused_total() == Some(total),
{
    let digits = crate::text::decimal(total as nat);
    let text = "bytes */"@ + digits;
    reveal_strlit("bytes */");
    crate::text::law_decimal_reads_back(total as nat);
    content_range::law_stated_total_is_read(total);
    fields::law_bytes_of_values(value);
    assert forall|i: int| 0 <= i < value.len() implies (#[trigger] value[i] == 9 || 32 <= value[i]
        <= 126) by {
        if i >= 8 {
            assert(text[i] == digits[i - 8]);
            assert(crate::text::is_digit(digits[i - 8]));
        }
    }
    assert(fields::ascii_text(value) == text);
}

/// The total that a refusal states is the one in its first `Content-Range` value. Without that
/// field, or where the value holds a byte that is not visible, there is none. Two responses with
/// the same `Content-Range` state the same total.
pub proof fn law_refused_total_comes_from_content_range(
    response: ResponseView,
    other: ResponseView,
)
    ensures
        !response.fields.contains_key("content-range"@) ==> response.refused_total() is None,
        response.fields.contains_key("content-range"@) ==> {
            let values = response.fields["content-range"@];
            response.refused_total() == if values.len() > 0 && forall|i: int|
                0 <= i < values[0].len() ==> (#[trigger] values[0][i] == 9 || 32 <= values[0][i]
                    <= 126) {
                content_range::stated_total(
                    Seq::new(values[0].len(), |i: int| values[0][i] as char),
                )
            } else {
                None
            }
        },
        response.fields.contains_key("content-range"@) && other.fields.contains_key(
            "content-range"@,
        ) && response.fields["content-range"@] == other.fields["content-range"@]
            ==> response.refused_total() == other.refused_total(),
{
    if response.fields.contains_key("content-range"@) {
        let values = response.fields["content-range"@];
        if values.len() > 0 {
            fields::law_bytes_of_values(values[0]);
            assert(fields::ascii_text(values[0]) == Seq::new(
                values[0].len(),
                |i: int| values[0][i] as char,
            ));
        }
    }
}

/// A request under a condition holds the range behind what is saved and the condition, and
/// nothing else. A request without one holds nothing.
pub proof fn law_request_holds_range_and_condition(saved_bytes: u64, condition: Seq<u8>)
    ensures
        ({
            let sent = request_fields(saved_bytes, Some(condition));
            &&& sent.dom() == set!["range"@, "if-range"@]
            &&& sent["range"@] == seq![
                vstd::utf8::encode_utf8(
                    "bytes="@ + crate::text::decimal(saved_bytes as nat) + "-"@,
                ),
            ]
            &&& sent["if-range"@] == seq![condition]
        }),
        request_fields(saved_bytes, None) == fields::Fields::empty(),
{
    reveal_strlit("range");
    reveal_strlit("if-range");
    assert("range"@.len() != "if-range"@.len());
    fields::law_range_is_written_in_decimal(saved_bytes);
}

/// The view of a response is its status, its fields and the length that it announces.
pub proof fn law_response_is_seen_as_it_is(response: Response)
    ensures
        response@.status == response.status,
        response@.fields == fields::header_fields(response.headers),
        response@.content_length == response.content_length,
        response@.valid() <==> 100 <= response.status <= 999,
        response@.success() <==> 200 <= response.status <= 299,
        response@.partial() <==> response.status == 206,
{
}

/// The view of an event is the event with what it carries.
pub proof fn law_event_is_seen_as_it_is(event: Event)
    ensures
        match event {
            Event::Inspected(size) => event@ == EventView::Inspected(size),
            Event::InspectFailed(cause) => event@ == EventView::InspectFailed(cause@),
            Event::Cancelled => event@ is Cancelled,
            Event::SendFailed(cause) => event@ == EventView::SendFailed(cause@),
            Event::Responded(response) => event@ == EventView::Responded(response@),
            Event::Discarded => event@ is Discarded,
            Event::DiscardFailed(cause) => event@ == EventView::DiscardFailed(cause@),
            Event::StillActive => event@ is StillActive,
            Event::NoLongerActive => event@ is NoLongerActive,
            Event::Refused => event@ is Refused,
            Event::FolderReady => event@ is FolderReady,
            Event::NoFolder => event@ is NoFolder,
            Event::FolderFailed(cause) => event@ == EventView::FolderFailed(cause@),
            Event::Opened => event@ is Opened,
            Event::OpenFailed(cause) => event@ == EventView::OpenFailed(cause@),
            Event::Chunk(data) => event@ == EventView::Chunk(data@),
            Event::ChunkFailed(cause) => event@ == EventView::ChunkFailed(cause@),
            Event::StreamEnded => event@ is StreamEnded,
            Event::Written => event@ is Written,
            Event::WriteFailed(cause) => event@ == EventView::WriteFailed(cause@),
            Event::Finished => event@ is Finished,
        },
{
}

/// The view of an action is the action with what it carries, and so is that of an outcome.
pub proof fn law_action_is_seen_as_it_is(action: Action)
    ensures
        match action {
            Action::Inspect => action@ is Inspect,
            Action::Send(headers) => action@ == ActionView::Send(fields::header_fields(headers)),
            Action::Discard => action@ is Discard,
            Action::Persist { received_bytes, total_bytes, validator, replace_temp } => {
                &&& action@ is Persist
                &&& action@->Persist_received_bytes == received_bytes
                &&& action@->Persist_total_bytes == total_bytes
                &&& action@->replace_temp == replace_temp
                &&& match validator {
                    Some(validator) => action@->validator == Some(validator@),
                    None => action@->validator is None,
                }
            },
            Action::EnsureFolder => action@ is EnsureFolder,
            Action::Open => action@ is Open,
            Action::Receive => action@ is Receive,
            Action::Write(data) => action@ == ActionView::Write(data@),
            Action::Checkpoint { received_bytes, total_bytes } => action@
                == ActionView::Checkpoint { received_bytes, total_bytes },
            Action::Finish { received_bytes, total_bytes } => action@ == ActionView::Finish {
                received_bytes,
                total_bytes,
            },
            Action::Stop(Outcome::Ended) => action@ == ActionView::Stop(OutcomeView::Ended),
            Action::Stop(Outcome::Failed(error)) => action@ == ActionView::Stop(
                OutcomeView::Failed(error@),
            ),
            Action::Stop(Outcome::Refused) => action@ == ActionView::Stop(OutcomeView::Refused),
        },
{
}

} // verus!
