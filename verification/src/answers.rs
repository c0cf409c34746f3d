//! What each answer leads to, in every download that has come to the action that it answers.

use crate::content_range;
use crate::download;
use crate::download::{ActionView, EventView, OutcomeView};
use crate::error::ErrorView;
use crate::fields;
use crate::runs;
use crate::runs::Run;
use crate::text;
use crate::validator;
use vstd::prelude::*;

verus! {

/// A download begins with a look at the temporary file, which has the name of the file with
/// `.download` behind it, and keeps that name.
pub proof fn law_temp_file_has_its_name(run: Run)
    requires
        run.faithful(),
    ensures
        run.events.len() == 0 ==> run.action() is Inspect,
        run.state().temp_path == run.path + ".download"@,
{
    runs::lemma_in_order(run);
}

/// After the look at the temporary file the request is sent. Where the file is not empty and
/// there is a validator that makes a condition, it asks for what is missing under that
/// condition, and for everything otherwise.
pub proof fn law_look_leads_to_the_request(run: Run)
    requires
        run.faithful(),
        run.events.len() > 0,
        run.events.last() is Inspected,
    ensures
        run.action() is Send,
        ({
            let saved = runs::contents(run.saved).len();
            let sent = run.action()->Send_0;
            if saved > 0 && run.validator is Some && run.validator->0.condition() is Some {
                &&& sent.dom() == set!["range"@, "if-range"@]
                &&& sent["range"@] == seq![
                    vstd::utf8::encode_utf8("bytes="@ + text::decimal(saved) + "-"@),
                ]
                &&& sent["if-range"@] == seq![run.validator->0.condition()->0]
            } else {
                sent == fields::Fields::empty()
            }
        }),
{
    runs::lemma_in_order(run.before());
    let saved = runs::contents(run.saved).len() as u64;
    if run.validator is Some && run.validator->0.condition() is Some {
        download::law_request_holds_range_and_condition(
            saved,
            run.validator->0.condition()->0,
        );
    }
}

/// A successful response is taken, whatever fields it carries, unless it is a part that was not
/// asked for. The rest of what is saved is counted and recorded along with it, under the
/// validator that it was asked for with. A whole body starts from nothing, replaces what is
/// saved, and is recorded under its own validator.
pub proof fn law_success_is_taken(run: Run)
    requires
        run.faithful(),
        run.events.len() > 0,
        run.events.last() is Responded,
        200 <= run.events.last()->Responded_0.status <= 299,
        run.events.last()->Responded_0.status == 206 ==> {
            &&& runs::contents(run.saved).len() > 0
            &&& run.validator is Some
            &&& run.validator->0.condition() is Some
        },
    ensures
        ({
            let response = run.events.last()->Responded_0;
            let saved = runs::contents(run.saved).len();
            &&& run.action() is Persist
            &&& run.action()->Persist_received_bytes == if response.status == 206 {
                saved
            } else {
                0
            }
            &&& match response.content_length {
                Some(length) => {
                    &&& run.action()->Persist_total_bytes is Some
                    &&& run.action()->Persist_total_bytes->0 == length
                        + run.action()->Persist_received_bytes
                },
                None => run.action()->Persist_total_bytes is None,
            }
            &&& run.action()->validator == if response.status == 206 {
                run.validator
            } else {
                validator::validator_of(response.fields)
            }
            &&& run.action()->replace_temp == (saved > 0 && response.status != 206)
        }),
{
    runs::lemma_in_order(run.before());
}

/// A response that is neither a success nor the refusal of a range of what is saved fails the
/// download with its status and reason, and so does a part that was not asked for, with a
/// message of its own.
pub proof fn law_other_responses_fail(run: Run)
    requires
        run.faithful(),
        run.events.len() > 0,
        run.events.last() is Responded,
    ensures
        ({
            let status = run.events.last()->Responded_0.status;
            let saved = runs::contents(run.saved).len();
            let reason = match fields::reason_phrase(status) {
                Some(reason) => reason,
                None => "Unknown"@,
            };
            &&& (status < 200 || status > 299) && !(status == 416 && saved > 0) ==> run.action()
                == ActionView::Stop(
                OutcomeView::Failed(
                    ErrorView::Http(
                        "HTTP "@ + text::decimal(status as nat) + ": "@ + reason,
                    ),
                ),
            )
            &&& status == 206 && !(saved > 0 && run.validator is Some
                && run.validator->0.condition() is Some) ==> run.action() == ActionView::Stop(
                OutcomeView::Failed(
                    ErrorView::Http("Unsolicited partial response to a full download request"@),
                ),
            )
        }),
{
    runs::lemma_in_order(run.before());
    let status = run.events.last()->Responded_0.status;
    if fields::reason_phrase(status) is Some {
        crate::error::law_refusal_names_status_and_reason(
            status,
            fields::reason_phrase(status)->0,
        );
    } else {
        crate::error::law_refusal_names_status_and_reason(status, Seq::empty());
    }
}

/// A refused range whose first `Content-Range` states a total, with `total` the number behind
/// `bytes */`, finishes the download where that is the size of what is saved, and otherwise has
/// what is saved deleted.
pub proof fn law_refused_range_is_compared(run: Run, value: Seq<u8>, total: u64)
    requires
        run.faithful(),
        run.events.len() > 0,
        run.events.last() is Responded,
        run.events.last()->Responded_0.status == 416,
        runs::contents(run.saved).len() > 0,
        ({
            let sent = run.events.last()->Responded_0.fields;
            let stated = "bytes */"@ + text::decimal(total as nat);
            &&& sent.contains_key("content-range"@)
            &&& sent["content-range"@].len() > 0
            &&& sent["content-range"@][0] == value
            &&& value.len() == stated.len()
            &&& forall|i: int|
                0 <= i < value.len() ==> #[trigger] value[i] as int == stated[i] as int
        }),
    ensures
        total == runs::contents(run.saved).len() ==> run.action() == (ActionView::Finish {
            received_bytes: total,
            total_bytes: Some(total),
        }),
        total != runs::contents(run.saved).len() ==> run.action() is Discard,
{
    runs::lemma_in_order(run.before());
    download::law_refused_total_is_read(run.events.last()->Responded_0, value, total);
}

/// Whatever a refused range says, what is saved is either finished as it is or to be deleted, and
/// is finished only where the first `Content-Range` states its size. Without a `Content-Range` it
/// is to be deleted.
pub proof fn law_refused_range_finishes_or_discards(run: Run)
    requires
        run.faithful(),
        run.events.len() > 0,
        run.events.last() is Responded,
        run.events.last()->Responded_0.status == 416,
        runs::contents(run.saved).len() > 0,
    ensures
        ({
            let sent = run.events.last()->Responded_0.fields;
            let saved = runs::contents(run.saved).len() as u64;
            let confirmed = {
                &&& sent.contains_key("content-range"@)
                &&& sent["content-range"@].len() > 0
                &&& forall|i: int|
                    0 <= i < sent["content-range"@][0].len() ==> (
                    #[trigger] sent["content-range"@][0][i] == 9 || 32
                        <= sent["content-range"@][0][i] <= 126)
                &&& content_range::stated_total(
                    Seq::new(
                        sent["content-range"@][0].len(),
                        |i: int| sent["content-range"@][0][i] as char,
                    ),
                ) == Some(saved)
            };
            if confirmed {
                run.action() == (ActionView::Finish {
                    received_bytes: saved,
                    total_bytes: Some(saved),
                })
            } else {
                run.action() is Discard
            }
        }),
{
    runs::lemma_in_order(run.before());
    let response = run.events.last()->Responded_0;
    download::law_refused_total_comes_from_content_range(response, response);
}

/// A step that failed fails the download, with a message that names the step and the cause. So
/// does the deletion of what was saved, with the refusal that led to it.
pub proof fn law_failed_step_fails_the_download(run: Run)
    requires
        run.faithful(),
        run.events.len() > 0,
    ensures
        ({
            let file_error = |message: Seq<char>|
                ActionView::Stop(OutcomeView::Failed(ErrorView::File(message)));
            let http_error = |message: Seq<char>|
                ActionView::Stop(OutcomeView::Failed(ErrorView::Http(message)));
            match run.events.last() {
                EventView::InspectFailed(cause) => run.action() == file_error(
                    "Failed to inspect temp file: "@ + cause,
                ),
                EventView::SendFailed(cause) => run.action() == http_error(
                    "Failed to send request: "@ + cause,
                ),
                EventView::Discarded => run.action() == http_error(
                    "HTTP "@ + text::decimal(416) + ": "@ + match fields::reason_phrase(416) {
                        Some(reason) => reason,
                        None => "Unknown"@,
                    },
                ),
                EventView::DiscardFailed(cause) => run.action() == file_error(
                    "Failed to delete stale temp file: "@ + cause,
                ),
                EventView::NoFolder => run.action() == file_error(
                    "File path has no parent directory"@,
                ),
                EventView::FolderFailed(cause) => run.action() == file_error(
                    "Failed to create directory: "@ + cause,
                ),
                EventView::OpenFailed(cause) => run.action() == file_error(
                    "Failed to open file: "@ + cause,
                ),
                EventView::ChunkFailed(cause) => run.action() == http_error(
                    "Failed to download: "@ + cause,
                ),
                EventView::WriteFailed(cause) => run.action() == file_error(
                    "Failed to write file: "@ + cause,
                ),
                _ => true,
            }
        }),
{
    runs::lemma_in_order(run.before());
    if fields::reason_phrase(416) is Some {
        crate::error::law_refusal_names_status_and_reason(416, fields::reason_phrase(416)->0);
    } else {
        crate::error::law_refusal_names_status_and_reason(416, Seq::empty());
    }
}

/// A failed step stops the download as failed, and a download stops as failed only after a failed
/// step, after the deletion of what was saved, or on a response.
pub proof fn law_only_failures_fail(run: Run)
    requires
        run.faithful(),
        run.events.len() > 0,
    ensures
        match run.events.last() {
            EventView::InspectFailed(_) | EventView::SendFailed(_) | EventView::Discarded
            | EventView::DiscardFailed(_) | EventView::NoFolder | EventView::FolderFailed(_)
            | EventView::OpenFailed(_) | EventView::ChunkFailed(_) | EventView::WriteFailed(_) => {
                run.action() is Stop && run.action()->Stop_0 is Failed
            },
            EventView::Responded(_) => true,
            _ => !(run.action() is Stop && run.action()->Stop_0 is Failed),
        },
{
    runs::lemma_in_order(run.before());
}

/// The temporary file is put in place right after the end of a body that was sent with success,
/// or right after a refused range, and never after anything else. It is finished with the size
/// of the file, and at the end of a body with the total that the response announced.
pub proof fn law_finish_follows_the_end_of_the_body(run: Run)
    requires
        run.faithful(),
        run.events.len() > 0,
    ensures
        run.action() is Finish ==> run.events.last() is StreamEnded || (run.events.last() is Responded
            && run.events.last()->Responded_0.status == 416),
        run.action() is Finish && run.response()->0.status != 416 ==> run.events.last()
            is StreamEnded,
        run.events.last() is StreamEnded ==> {
            let response = run.response()->0;
            &&& run.response() is Some
            &&& 200 <= response.status <= 299
            &&& run.action() is Finish
            &&& run.action()->Finish_received_bytes == runs::contents(run.temp()).len()
            &&& match response.content_length {
                Some(length) => {
                    &&& run.action()->Finish_total_bytes is Some
                    &&& run.action()->Finish_total_bytes->0 == length + if response.status == 206 {
                        runs::contents(run.saved).len()
                    } else {
                        0
                    }
                },
                None => run.action()->Finish_total_bytes is None,
            }
        },
{
    runs::lemma_in_order(run.before());
    runs::lemma_in_order(run);
    lemma_total_is_exact(run);
}

/// The total of a response that is taken fits a `u64`.
proof fn lemma_total_is_exact(run: Run)
    requires
        run.faithful(),
    ensures
        run.response() is Some && 200 <= run.response()->0.status <= 299 && !(run.action() is Stop)
            && run.response()->0.content_length is Some ==> run.total_bytes() is Some
            && run.total_bytes()->0 == run.response()->0.content_length->0 + if run.response()->0.status
            == 206 {
            runs::contents(run.saved).len()
        } else {
            0
        },
    decreases run.events.len(),
{
    if run.events.len() > 0 {
        lemma_total_is_exact(run.before());
        runs::lemma_in_order(run.before());
    }
}

/// What each success leads to, and how each update of the record, that was made, was declined or
/// failed, goes on.
pub proof fn law_steps_follow_in_turn(run: Run)
    requires
        run.faithful(),
        run.events.len() > 0,
    ensures
        match run.events.last() {
            EventView::StillActive => if run.before().action() is Persist {
                run.action() is EnsureFolder
            } else {
                run.before().action() is Checkpoint && run.action() is Receive
            },
            EventView::NoLongerActive => run.action() == ActionView::Stop(OutcomeView::Ended),
            EventView::Refused => run.action() == ActionView::Stop(OutcomeView::Refused),
            EventView::Cancelled => run.action() == ActionView::Stop(OutcomeView::Ended),
            EventView::Finished => run.action() == ActionView::Stop(OutcomeView::Ended),
            EventView::FolderReady => run.action() is Open,
            EventView::Opened => run.action() is Receive,
            EventView::Chunk(data) => run.action() == ActionView::Write(data),
            EventView::Written => run.action() is Receive || run.action() is Checkpoint,
            _ => true,
        },
{
    runs::lemma_in_order(run.before());
}

/// Whenever a part of the body was written, the progress is recorded exactly where that is due.
/// Where the size is known, that is before everything has come and where the integer percent
/// differs from what it was when it was last recorded or, before that, when the body began.
/// Where the size is unknown, it is where a mebibyte or more has come since then. What is
/// recorded is the size of the temporary file and the total. Otherwise the next part of the body
/// is waited for.
pub proof fn law_progress_is_recorded_when_due(run: Run)
    requires
        run.faithful(),
        run.events.len() > 0,
        run.events.last() is Written,
    ensures
        run.response() is Some,
        ({
            let response = run.response()->0;
            let start: nat = if response.status == 206 {
                runs::contents(run.saved).len()
            } else {
                0
            };
            let now: int = runs::contents(run.temp()).len() as int;
            let last: int = run.before().reported_bytes() as int;
            let due = match response.content_length {
                Some(length) => {
                    let total: int = length + start;
                    total > now && now * 100 / total != last * 100 / total
                },
                None => now >= last + 1048576,
            };
            if due {
                &&& run.action() is Checkpoint
                &&& run.action()->Checkpoint_received_bytes == now
                &&& match response.content_length {
                    Some(length) => {
                        &&& run.action()->Checkpoint_total_bytes is Some
                        &&& run.action()->Checkpoint_total_bytes->0 == length + start
                    },
                    None => run.action()->Checkpoint_total_bytes is None,
                }
            } else {
                run.action() is Receive
            }
        }),
{
    let prior = run.before();
    runs::lemma_in_order(prior);
    runs::lemma_in_order(run);
    lemma_total_is_exact(run);
    lemma_total_is_exact(prior);
    let tracker = prior.state().stage->Writing_progress;
    let chunk = prior.state().stage->chunk_bytes;
    let next = tracker.advanced(chunk as int);
    crate::progress::law_due_and_complete(next);
    assert(next.received_bytes == runs::contents(run.temp()).len());
}

/// The size that the progress was last recorded with is that of the temporary file when it was
/// recorded or, before that, when the file was opened. Nothing else changes it.
pub proof fn law_last_record_is_the_last_checkpoint(run: Run)
    requires
        run.faithful(),
        run.events.len() > 0,
    ensures
        run.action() is Checkpoint ==> run.reported_bytes()
            == run.action()->Checkpoint_received_bytes,
        run.events.last() is Opened ==> run.reported_bytes() == runs::contents(run.temp()).len(),
        run.events.last() is Chunk || run.events.last() is StillActive ==> run.reported_bytes()
            == run.before().reported_bytes(),
        run.events.last() is Written && run.action() is Receive ==> run.reported_bytes()
            == run.before().reported_bytes(),
{
    runs::lemma_in_order(run);
    runs::lemma_in_order(run.before());
}

/// Which events answer which action. An event of the right kind is turned away only where a date
/// lies beyond the years of HTTP dates, a status does not have three digits, or a count of bytes,
/// or of percents, exceeds a `u64`.
pub proof fn law_every_answer_is_accepted(run: Run, event: EventView)
    requires
        run.faithful(),
    ensures
        run.state().accepts(event) == match (run.action(), event) {
            (ActionView::Inspect, EventView::Inspected(_)) => {
                run.validator matches Some(validator::ValidatorView::LastModified(time))
                    ==> time.secs < 253402300800 && time.nanos < 1000000000
            },
            (ActionView::Inspect, EventView::InspectFailed(_)) => true,
            (ActionView::Send(_), EventView::Cancelled) => true,
            (ActionView::Send(_), EventView::SendFailed(_)) => true,
            (ActionView::Send(_), EventView::Responded(response)) => {
                &&& 100 <= response.status <= 999
                &&& response.status == 206 && response.content_length is Some && runs::contents(
                    run.saved,
                ).len() > 0 && run.validator is Some && run.validator->0.condition() is Some
                    ==> runs::contents(run.saved).len() + response.content_length->0
                    <= 18446744073709551615
            },
            (ActionView::Discard, EventView::Discarded) => true,
            (ActionView::Discard, EventView::DiscardFailed(_)) => true,
            (ActionView::Persist { .. }, EventView::StillActive) => true,
            (ActionView::Persist { .. }, EventView::NoLongerActive) => true,
            (ActionView::Persist { .. }, EventView::Refused) => true,
            (ActionView::EnsureFolder, EventView::FolderReady) => true,
            (ActionView::EnsureFolder, EventView::NoFolder) => true,
            (ActionView::EnsureFolder, EventView::FolderFailed(_)) => true,
            (ActionView::Open, EventView::Opened) => {
                run.total_bytes() is Some && run.total_bytes()->0 > 0 ==> runs::contents(
                    run.temp(),
                ).len() * 100 <= 18446744073709551615
            },
            (ActionView::Open, EventView::OpenFailed(_)) => true,
            (ActionView::Receive, EventView::Cancelled) => true,
            (ActionView::Receive, EventView::Chunk(data)) => data.len() <= 18446744073709551615,
            (ActionView::Receive, EventView::ChunkFailed(_)) => true,
            (ActionView::Receive, EventView::StreamEnded) => true,
            (ActionView::Write(data), EventView::Written) => {
                let size = runs::contents(run.temp()).len() + data.len();
                &&& size <= 18446744073709551615
                &&& run.total_bytes() is Some && run.total_bytes()->0 > 0 ==> size * 100
                    <= 18446744073709551615
            },
            (ActionView::Write(_), EventView::WriteFailed(_)) => true,
            (ActionView::Checkpoint { .. }, EventView::StillActive) => true,
            (ActionView::Checkpoint { .. }, EventView::NoLongerActive) => true,
            (ActionView::Checkpoint { .. }, EventView::Refused) => true,
            (ActionView::Finish { .. }, EventView::Finished) => true,
            (ActionView::Finish { .. }, EventView::Refused) => true,
            _ => false,
        },
{
    runs::lemma_in_order(run);
}

/// Once a response of success is taken, the total is the length that it announces and, where it
/// is the rest of what is saved, the size of that. Without an announced length there is none.
pub proof fn law_total_counts_what_is_kept(run: Run)
    requires
        run.faithful(),
        run.response() is Some,
        200 <= run.response()->0.status <= 299,
        !(run.action() is Stop),
    ensures
        match run.response()->0.content_length {
            Some(length) => {
                &&& run.total_bytes() is Some
                &&& run.total_bytes()->0 == length + if run.response()->0.status == 206 {
                    runs::contents(run.saved).len()
                } else {
                    0
                }
            },
            None => run.total_bytes() is None,
        },
{
    lemma_total_is_exact(run);
}

} // verus!
