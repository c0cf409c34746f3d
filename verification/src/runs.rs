//! What holds of a download from its start on, whatever answers it gets.

use crate::download;
use crate::download::{PARTIAL_CONTENT, RANGE_NOT_SATISFIABLE};
use crate::fields;
use crate::progress;
use crate::validator;
use vstd::prelude::*;

verus! {

/// A download and the events that it has got so far.
pub struct Run {
    pub path: Seq<char>,
    /// The validator that was recorded for the temporary file.
    pub validator: Option<validator::ValidatorView>,
    /// What the temporary file held at the start.
    pub saved: Option<Seq<u8>>,
    pub events: Seq<download::EventView>,
}

/// What is in a file, where a file that does not exist has nothing in it.
pub open spec fn contents(file: Option<Seq<u8>>) -> Seq<u8> {
    match file {
        Some(data) => data,
        None => Seq::empty(),
    }
}

/// What becomes of the temporary file when `action` is carried out and answered with `event`. An
/// action that failed counts here as one that left the file alone; what else it may have done,
/// such as to append a part of what it was to write, is in [`Run::leaves`].
pub open spec fn effect(
    temp: Option<Seq<u8>>,
    action: download::ActionView,
    event: download::EventView,
) -> Option<Seq<u8>> {
    match (action, event) {
        (download::ActionView::Discard, download::EventView::Discarded) => None,
        (
            download::ActionView::Persist { replace_temp, .. },
            download::EventView::StillActive,
        ) => if replace_temp {
            None
        } else {
            temp
        },
        (download::ActionView::Open, download::EventView::Opened) => Some(contents(temp)),
        (download::ActionView::Write(data), download::EventView::Written) => Some(
            contents(temp) + data,
        ),
        _ => temp,
    }
}

impl Run {
    /// The run without its last event.
    pub open spec fn before(self) -> Run {
        Run { events: self.events.drop_last(), ..self }
    }

    /// The state that the events have led to.
    pub open spec fn state(self) -> download::DownloadView
        decreases self.events.len(),
    {
        if self.events.len() == 0 {
            download::DownloadView::begin(self.path, self.validator)
        } else {
            self.before().state().step(self.events.last()).0
        }
    }

    /// The action that the events have led to.
    pub open spec fn action(self) -> download::ActionView {
        if self.events.len() == 0 {
            download::ActionView::Inspect
        } else {
            self.before().state().step(self.events.last()).1
        }
    }

    /// The temporary file, as the actions have left it.
    pub open spec fn temp(self) -> Option<Seq<u8>>
        decreases self.events.len(),
    {
        if self.events.len() == 0 {
            self.saved
        } else {
            effect(self.before().temp(), self.before().action(), self.events.last())
        }
    }

    /// Whether each event answers the action before it, and the size that is reported of the
    /// temporary file is its size.
    pub open spec fn faithful(self) -> bool
        decreases self.events.len(),
    {
        if self.events.len() == 0 {
            contents(self.saved).len() <= u64::MAX
        } else {
            &&& self.before().faithful()
            &&& self.before().state().accepts(self.events.last())
            &&& match self.events.last() {
                download::EventView::Inspected(Some(size)) => self.saved is Some && size
                    == self.saved->0.len(),
                download::EventView::Inspected(None) => self.saved is None,
                _ => true,
            }
        }
    }

    /// The response, once there is one.
    pub open spec fn response(self) -> Option<download::ResponseView>
        decreases self.events.len(),
    {
        if self.events.len() == 0 {
            None
        } else if self.events.last() is Responded {
            Some(self.events.last()->Responded_0)
        } else {
            self.before().response()
        }
    }

    /// The part of the response's body that has come.
    pub open spec fn body(self) -> Seq<u8>
        decreases self.events.len(),
    {
        if self.events.len() == 0 {
            Seq::empty()
        } else if self.events.last() is Chunk {
            self.before().body() + self.events.last()->Chunk_0
        } else {
            self.before().body()
        }
    }

    /// How many times the progress was recorded.
    pub open spec fn checkpoints(self) -> nat
        decreases self.events.len(),
    {
        if self.events.len() == 0 {
            0
        } else if self.action() is Checkpoint {
            self.before().checkpoints() + 1
        } else {
            self.before().checkpoints()
        }
    }

    /// The size of the temporary file when the progress was last recorded, or, before that, when
    /// the file was opened.
    pub open spec fn reported_bytes(self) -> nat
        decreases self.events.len(),
    {
        if self.events.len() == 0 {
            0
        } else if self.action() is Checkpoint || self.before().action() is Open {
            contents(self.temp()).len()
        } else {
            self.before().reported_bytes()
        }
    }

    /// Whether `file` is what the run may have left as the temporary file. That is the file as the
    /// actions that succeeded have left it, but for what the last one may have done before it
    /// failed: a record that could not be made may come after the deletion that goes with it,
    /// and a failed write may have appended a part of its data. A file that was put in place, or
    /// was to be, may be there no longer.
    pub open spec fn leaves(self, file: Option<Seq<u8>>) -> bool {
        ||| file == self.temp()
        ||| self.events.len() > 0 && match (self.before().action(), self.events.last()) {
            (
                download::ActionView::Persist { replace_temp, .. },
                download::EventView::Refused,
            ) => replace_temp && file is None,
            (download::ActionView::Write(data), download::EventView::WriteFailed(_)) => {
                &&& file is Some
                &&& contents(self.temp()).is_prefix_of(file->0)
                &&& file->0.is_prefix_of(contents(self.temp()) + data)
            },
            (download::ActionView::Finish { .. }, download::EventView::Finished) => file is None,
            (download::ActionView::Finish { .. }, download::EventView::Refused) => file is None,
            _ => false,
        }
    }

    /// Whether the temporary file may have been deleted: after a refused range, or on the way to
    /// the record of a whole body, be it that the record was made or not.
    pub open spec fn may_be_deleted(self) -> bool
        decreases self.events.len(),
    {
        self.events.len() > 0 && (self.before().may_be_deleted() || match (
            self.before().action(),
            self.events.last(),
        ) {
            (download::ActionView::Discard, download::EventView::Discarded) => true,
            (
                download::ActionView::Persist { replace_temp, .. },
                download::EventView::StillActive,
            ) => replace_temp,
            (
                download::ActionView::Persist { replace_temp, .. },
                download::EventView::Refused,
            ) => replace_temp,
            _ => false,
        })
    }

    /// Whether the temporary file was to be put in place.
    pub open spec fn came_to_finish(self) -> bool {
        self.events.len() > 0 && self.before().action() is Finish
    }

    /// Whether the record of the response was made.
    pub open spec fn recorded(self) -> bool
        decreases self.events.len(),
    {
        self.events.len() > 0 && (self.before().recorded() || (self.before().action() is Persist
            && self.events.last() is StillActive))
    }

    /// Whether a part of the body has come that is not known to be written.
    pub open spec fn write_is_open(self) -> bool {
        self.action() is Write || (self.events.len() > 0 && self.events.last() is WriteFailed)
    }

    /// How much the temporary file held at the start.
    pub open spec fn saved_bytes(self) -> u64 {
        contents(self.saved).len() as u64
    }

    /// The condition under which what is missing is asked for. Without one, everything is.
    pub open spec fn condition(self) -> Option<Seq<u8>> {
        if self.saved_bytes() > 0 && self.validator is Some {
            self.validator->0.condition()
        } else {
            None
        }
    }

    /// What stays of the temporary file once the response is known: everything, where the
    /// response is the rest of it or refuses a range, and nothing where it is a whole body.
    pub open spec fn kept(self) -> Seq<u8> {
        match self.response() {
            Some(response) => if response.status == PARTIAL_CONTENT || response.status
                == RANGE_NOT_SATISFIABLE {
                contents(self.saved)
            } else {
                Seq::empty()
            },
            None => Seq::empty(),
        }
    }

    /// The size of the whole resource, as far as the response announces it.
    pub open spec fn total_bytes(self) -> Option<u64> {
        match self.response() {
            Some(response) => match response.content_length {
                Some(length) => Some((length + self.kept().len()) as u64),
                None => None,
            },
            None => None,
        }
    }

    /// The validator that is recorded with the response: the one that the range was asked for
    /// under, or that of the new body.
    pub open spec fn recorded_validator(self) -> Option<validator::ValidatorView> {
        match self.response() {
            Some(response) => if response.partial() {
                self.validator
            } else {
                validator::validator_of(response.fields)
            },
            None => self.validator,
        }
    }

    /// Whether the progress was recorded at most 99 times, where the size is known, or at most
    /// once for each threshold of bytes that came, where it is not. An announced size of zero
    /// leaves nothing to record.
    pub open spec fn few_checkpoints(self) -> bool {
        match self.total_bytes() {
            Some(total) => if total > 0 {
                self.checkpoints() <= 99
            } else {
                self.checkpoints() == 0
            },
            None => self.checkpoints() * progress::ProgressTracker::BYTES_THRESHOLD <= self.body().len(),
        }
    }

    /// What `tracker` knows of this run.
    pub open spec fn measured_by(self, tracker: progress::ProgressTracker) -> bool {
        &&& tracker.valid()
        &&& self.response() is Some
        &&& self.response()->0.success()
        &&& self.temp() is Some
        &&& tracker.received_bytes == self.temp()->0.len()
        &&& tracker.total_bytes == self.total_bytes()
        &&& !tracker.complete() ==> tracker.last_emitted_bytes == self.reported_bytes()
        &&& match self.total_bytes() {
            Some(total) => if total > 0 {
                self.checkpoints() <= tracker.last_emitted_percent
            } else {
                self.checkpoints() == 0
            },
            None => self.checkpoints() * progress::ProgressTracker::BYTES_THRESHOLD <= tracker.last_emitted_bytes
                - self.kept().len(),
        }
    }

    /// What holds after every event.
    pub open spec fn in_order(self) -> bool {
        &&& self.state().valid()
        &&& self.state().temp_path == self.path + download::DOWNLOAD_SUFFIX@
        &&& self.state().validator == self.validator
        &&& contents(self.saved).len() <= u64::MAX
        &&& self.few_checkpoints()
        &&& match self.state().stage {
            download::Stage::Inspecting => {
                &&& self.action() is Inspect
                &&& self.temp() == self.saved
                &&& self.body().len() == 0
                &&& self.checkpoints() == 0
                &&& self.response() is None
            },
            download::Stage::Requesting { saved_bytes, resuming } => {
                &&& saved_bytes == self.saved_bytes()
                &&& resuming == (self.condition() is Some)
                &&& self.action() == download::ActionView::Send(
                    download::request_fields(saved_bytes, self.condition()),
                )
                &&& self.temp() == self.saved
                &&& self.body().len() == 0
                &&& self.checkpoints() == 0
                &&& self.response() is None
            },
            download::Stage::Discarding => {
                &&& self.action() is Discard
                &&& self.temp() == self.saved
                &&& self.response() is Some
                &&& self.saved_bytes() > 0
                &&& self.response()->0.status == RANGE_NOT_SATISFIABLE
                &&& self.response()->0.refused_total() != Some(self.saved_bytes())
            },
            download::Stage::Persisting { received_bytes, total_bytes } => {
                &&& self.begun(received_bytes, total_bytes)
                &&& self.temp() == self.saved
                &&& self.action() == download::ActionView::Persist {
                    received_bytes,
                    total_bytes,
                    validator: self.recorded_validator(),
                    replace_temp: self.saved_bytes() > 0 && !self.response()->0.partial(),
                }
            },
            download::Stage::Preparing { received_bytes, total_bytes } => {
                &&& self.begun(received_bytes, total_bytes)
                &&& self.action() is EnsureFolder
                &&& contents(self.temp()) == self.kept()
            },
            download::Stage::Opening { received_bytes, total_bytes } => {
                &&& self.begun(received_bytes, total_bytes)
                &&& self.action() is Open
                &&& contents(self.temp()) == self.kept()
            },
            download::Stage::Receiving { progress } => {
                &&& self.measured_by(progress)
                &&& self.action() is Receive
                &&& self.temp()->0 == self.kept() + self.body()
            },
            download::Stage::Writing { progress, chunk_bytes } => {
                &&& self.measured_by(progress)
                &&& self.action() is Write
                &&& chunk_bytes == self.action()->Write_0.len()
                &&& self.temp()->0 + self.action()->Write_0 == self.kept() + self.body()
            },
            download::Stage::Checkpointing { progress } => {
                &&& self.measured_by(progress)
                &&& !progress.complete()
                &&& self.action() == download::ActionView::Checkpoint {
                    received_bytes: progress.received_bytes,
                    total_bytes: progress.total_bytes,
                }
                &&& self.temp()->0 == self.kept() + self.body()
            },
            download::Stage::Finishing => {
                &&& self.action() is Finish
                &&& self.response() is Some
                &&& self.temp() == Some(self.kept() + self.body())
                &&& self.action()->Finish_received_bytes == self.temp()->0.len()
                &&& if self.response()->0.status == RANGE_NOT_SATISFIABLE {
                    &&& self.temp() == self.saved
                    &&& self.action()->Finish_total_bytes == Some(self.saved_bytes())
                    &&& self.response()->0.refused_total() == Some(self.saved_bytes())
                } else {
                    &&& self.response()->0.success()
                    &&& self.action()->Finish_total_bytes == self.total_bytes()
                }
            },
            download::Stage::Stopped => self.action() is Stop,
        }
    }

    /// Between a response that is taken and the first part of its body.
    pub open spec fn begun(self, received_bytes: u64, total_bytes: Option<u64>) -> bool {
        &&& self.response() is Some
        &&& self.response()->0.success()
        &&& self.response()->0.partial() ==> self.condition() is Some
        &&& received_bytes == self.kept().len()
        &&& total_bytes == self.total_bytes()
        &&& self.body().len() == 0
        &&& self.checkpoints() == 0
    }
}

/// Every faithful run is in order.
pub proof fn lemma_in_order(run: Run)
    requires
        run.faithful(),
    ensures
        run.in_order(),
    decreases run.events.len(),
{
    if run.events.len() > 0 {
        let prior = run.before();
        let event = run.events.last();
        lemma_in_order(prior);
        match prior.state().stage {
            download::Stage::Persisting { received_bytes, total_bytes } => {
                if event is StillActive {
                    assert(contents(run.temp()) == run.kept());
                }
            },
            download::Stage::Receiving { progress } => {
                if event is Chunk {
                    assert(run.temp()->0 + event->Chunk_0 == run.kept() + run.body());
                }
            },
            download::Stage::Writing { progress, chunk_bytes } => {
                if event is Written {
                    lemma_written_in_order(run, progress, chunk_bytes);
                }
            },
            _ => {},
        }
    }
}

/// A part of the body that was written keeps the run in order.
proof fn lemma_written_in_order(run: Run, tracker: progress::ProgressTracker, chunk_bytes: u64)
    requires
        run.events.len() > 0,
        run.faithful(),
        run.before().in_order(),
        run.before().state().stage == (download::Stage::Writing { progress: tracker, chunk_bytes }),
        run.events.last() is Written,
    ensures
        run.in_order(),
{
    let next = tracker.advanced(chunk_bytes as int);
    assert(next.valid());
    assert(run.temp() == Some(run.kept() + run.body()));
    if progress::measure(next.total_bytes) is Some {
        progress::lemma_percent_grows(
            tracker.last_emitted_bytes as int,
            next.received_bytes as int,
            next.total_bytes->0 as int,
        );
        progress::law_complete_at_hundred_percent(next);
    }
    progress::law_quiet_after_emission(next);
}

/// Whenever more of the body is waited for, progress is recorded, or the file is put in place,
/// the temporary file holds what was kept of it and behind that the body so far, and nothing
/// else: parts of different representations are never combined.
pub proof fn law_temp_file_is_what_was_kept_and_the_body(run: Run)
    requires
        run.faithful(),
        run.action() is Receive || run.action() is Checkpoint || run.action() is Finish,
    ensures
        run.temp() == Some(run.kept() + run.body()),
{
    lemma_in_order(run);
}

/// The number of bytes that is recorded, or that the download is finished with, is the size of
/// the temporary file, and the total is the one that the response announced. For a range that
/// was refused, the total is the size.
pub proof fn law_reports_count_the_temp_file(run: Run)
    requires
        run.faithful(),
    ensures
        run.action() matches download::ActionView::Checkpoint { received_bytes, total_bytes } ==> {
            &&& received_bytes == contents(run.temp()).len()
            &&& total_bytes == run.total_bytes()
        },
        run.action() matches download::ActionView::Finish { received_bytes, total_bytes } ==> {
            &&& received_bytes == contents(run.temp()).len()
            &&& total_bytes == if run.response()->0.status == RANGE_NOT_SATISFIABLE {
                Some(received_bytes)
            } else {
                run.total_bytes()
            }
        },
{
    lemma_in_order(run);
}

/// A download is finished without a body only where the server confirms that the temporary file
/// is complete already, and finished with one only where the server sent it with success.
pub proof fn law_finish_is_confirmed(run: Run)
    requires
        run.faithful(),
        run.action() is Finish,
    ensures
        run.response() is Some,
        run.response()->0.success() || (run.response()->0.status == RANGE_NOT_SATISFIABLE
            && run.response()->0.refused_total() == Some(run.saved_bytes()) && run.temp()
            == run.saved),
{
    lemma_in_order(run);
}

/// A range is asked for exactly where there is something saved and a strong validator of it. It
/// starts right behind what is saved, and the validator goes with it as its condition.
pub proof fn law_range_goes_with_its_condition(run: Run)
    requires
        run.faithful(),
        run.action() is Send,
    ensures
        run.action()->Send_0 == download::request_fields(run.saved_bytes(), run.condition()),
        run.temp() == run.saved,
        run.action()->Send_0.contains_key("range"@) <==> run.condition() is Some,
        run.action()->Send_0.contains_key("if-range"@) <==> run.condition() is Some,
        run.condition() is Some ==> {
            &&& run.action()->Send_0["range"@] == seq![fields::range_from(run.saved_bytes())]
            &&& run.action()->Send_0["if-range"@] == seq![run.condition()->0]
        },
{
    lemma_in_order(run);
    reveal_strlit("range");
    reveal_strlit("if-range");
    assert("range"@.len() != "if-range"@.len());
}

/// A part of a resource that was not asked for is refused.
pub proof fn law_unasked_part_is_refused(run: Run)
    requires
        run.faithful(),
        run.events.len() > 0,
        run.events.last() is Responded,
        run.response()->0.partial(),
        run.condition() is None,
    ensures
        run.action() == download::ActionView::Stop(
            download::OutcomeView::Failed(
                crate::error::ErrorView::Http(
                    "Unsolicited partial response to a full download request"@,
                ),
            ),
        ),
{
    lemma_in_order(run.before());
}

/// The record that is made of a response holds the validator that belongs to the body: the
/// saved one where the response is the rest of what is saved, and that of the response
/// otherwise. What is saved is deleted along with it where the response is a whole body, and is
/// still there until then.
pub proof fn law_validator_goes_with_its_body(run: Run)
    requires
        run.faithful(),
        run.action() is Persist,
    ensures
        run.response() is Some,
        run.response()->0.success(),
        run.response()->0.partial() ==> run.condition() is Some,
        run.action() == (download::ActionView::Persist {
            received_bytes: run.kept().len() as u64,
            total_bytes: run.total_bytes(),
            validator: run.recorded_validator(),
            replace_temp: run.saved_bytes() > 0 && !run.response()->0.partial(),
        }),
        run.temp() == run.saved,
{
    lemma_in_order(run);
}

/// What was saved stays at the front of whatever the run leaves as the temporary file, unless the
/// file was put in place or may have been deleted. It may have been deleted only on the way to
/// the record of a whole body, or after the server has refused the range without confirming the
/// size of what was saved.
pub proof fn law_saved_part_survives(run: Run, file: Option<Seq<u8>>)
    requires
        run.faithful(),
        run.leaves(file),
    ensures
        !run.may_be_deleted() && (run.came_to_finish() ==> file is Some) ==> contents(
            run.saved,
        ).is_prefix_of(contents(file)),
        run.may_be_deleted() ==> {
            &&& run.response() is Some
            &&& run.saved_bytes() > 0
            &&& run.response()->0.success() && !run.response()->0.partial() || (
            run.response()->0.status == RANGE_NOT_SATISFIABLE && run.response()->0.refused_total()
                != Some(run.saved_bytes()))
        },
{
    lemma_saved_part_survives(run);
}

proof fn lemma_saved_part_survives(run: Run)
    requires
        run.faithful(),
    ensures
        !run.may_be_deleted() ==> contents(run.saved).is_prefix_of(contents(run.temp())),
        run.may_be_deleted() ==> {
            &&& run.response() is Some
            &&& run.saved_bytes() > 0
            &&& run.response()->0.success() && !run.response()->0.partial() || (
            run.response()->0.status == RANGE_NOT_SATISFIABLE && run.response()->0.refused_total()
                != Some(run.saved_bytes()))
        },
    decreases run.events.len(),
{
    if run.events.len() > 0 {
        lemma_saved_part_survives(run.before());
        lemma_in_order(run.before());
    }
}

/// Being told to stop is no failure, and leaves the temporary file as it is.
pub proof fn law_cancelling_ends_and_keeps_the_file(run: Run)
    requires
        run.faithful(),
        run.events.len() > 0,
        run.events.last() is Cancelled || run.events.last() is NoLongerActive,
    ensures
        run.action() == download::ActionView::Stop(download::OutcomeView::Ended),
        run.temp() == run.before().temp(),
        forall|file: Option<Seq<u8>>| #[trigger] run.leaves(file) ==> file == run.before().temp(),
{
    lemma_in_order(run.before());
}

/// Nothing follows once a download has come to rest.
pub proof fn law_stopped_is_final(run: Run, event: download::EventView)
    requires
        run.faithful(),
        run.action() is Stop,
    ensures
        !run.state().accepts(event),
{
    lemma_in_order(run);
}

/// The progress of a download of known size is recorded at most 99 times, and never as
/// complete. That of a download of unknown size is recorded at most once for each threshold of
/// bytes that came.
pub proof fn law_checkpoints_are_few(run: Run)
    requires
        run.faithful(),
    ensures
        run.few_checkpoints(),
        run.action() matches download::ActionView::Checkpoint { received_bytes, total_bytes } ==> (
        total_bytes is Some ==> received_bytes < total_bytes->0),
{
    lemma_in_order(run);
}

/// Once the record of a response is made, and wherever the run stops after that, what it leaves
/// as the temporary file is what was kept and behind that the body so far, or the front of it,
/// where a write is open or the file is there no longer.
pub proof fn law_recorded_run_leaves_its_own_body(run: Run, file: Option<Seq<u8>>)
    requires
        run.faithful(),
        run.recorded(),
        run.leaves(file),
    ensures
        contents(file).is_prefix_of(run.kept() + run.body()),
        !run.write_is_open() && (run.came_to_finish() ==> file is Some) ==> contents(file)
            == run.kept() + run.body(),
{
    lemma_recorded(run);
    lemma_in_order(run.before());
}

/// A download that was interrupted at any point after its record was made, and is resumed with
/// the validator that was recorded, is finished as what the first run left and behind it the
/// body of the second, where that is the rest, and as the body of the second alone, where that
/// is whole. What the first run left is the front of the one representation that it received.
/// The second run asks for what is missing behind it under the validator of the first: its
/// `ETag`, byte for byte, or else its `Last-Modified` date, or, where the first was itself the
/// rest of an earlier one, the condition that it was asked for under.
pub proof fn law_resumed_download_is_whole(first: Run, second: Run)
    requires
        first.faithful(),
        first.recorded(),
        first.leaves(second.saved),
        second.faithful(),
        second.validator == first.recorded_validator(),
        second.action() is Finish,
        second.response()->0.success(),
    ensures
        second.response()->0.partial() ==> {
            &&& second.temp() == Some(contents(second.saved) + second.body())
            &&& second.saved == first.temp() ==> second.temp() == Some(
                contents(first.temp()) + second.body(),
            )
            &&& contents(second.saved).is_prefix_of(first.kept() + first.body())
            &&& !first.write_is_open() ==> second.temp() == Some(
                first.kept() + first.body() + second.body(),
            )
            &&& second.condition() is Some
            &&& second.condition() == if first.response()->0.partial() {
                first.condition()
            } else if first.response()->0.fields.contains_key("etag"@) {
                Some(first.response()->0.fields["etag"@][0])
            } else {
                Some(
                    fields::http_date_text(
                        fields::date_field(first.response()->0.fields, "last-modified"@)->0,
                    ),
                )
            }
        },
        !second.response()->0.partial() ==> second.temp() == Some(second.body()),
{
    lemma_recorded(first);
    lemma_in_order(second);
    law_recorded_run_leaves_its_own_body(first, second.saved);
    if second.response()->0.partial() {
        lemma_part_was_asked_for(second);
        if !first.response()->0.partial() {
            validator::law_response_validator_is_usable(first.response()->0.fields);
        }
    } else {
        assert(second.kept() + second.body() == second.body());
    }
}

/// What holds once the record of a response is made, whether the run has stopped or not.
proof fn lemma_recorded(run: Run)
    requires
        run.faithful(),
        run.recorded(),
    ensures
        run.response() is Some,
        run.response()->0.success(),
        run.response()->0.partial() ==> run.condition() is Some,
        !(run.state().stage is Inspecting),
        !(run.state().stage is Requesting),
        !(run.state().stage is Discarding),
        !(run.state().stage is Persisting),
        contents(run.temp()).is_prefix_of(run.kept() + run.body()),
        !run.write_is_open() ==> contents(run.temp()) == run.kept() + run.body(),
    decreases run.events.len(),
{
    lemma_in_order(run);
    lemma_in_order(run.before());
    if run.before().recorded() {
        lemma_recorded(run.before());
    }
}

/// A response that is the rest of a resource is taken only where it was asked for.
proof fn lemma_part_was_asked_for(run: Run)
    requires
        run.faithful(),
        run.response() is Some,
        run.response()->0.partial(),
        !(run.action() is Stop),
    ensures
        run.condition() is Some,
    decreases run.events.len(),
{
    lemma_in_order(run.before());
    if !(run.events.last() is Responded) {
        lemma_part_was_asked_for(run.before());
    }
}

} // verus!
