//! How far a download has come, and when that is worth a report.

use vstd::prelude::*;

verus! {

/// How many percent `received` is of `total`, rounded down.
pub open spec fn percent(received: int, total: int) -> int {
    received * 100 / total
}

/// The total, where there is one that percents can be taken of.
pub open spec fn measure(total: Option<u64>) -> Option<u64> {
    if total is Some && total->0 > 0 {
        total
    } else {
        None
    }
}

/// Whether the percents of `received` can be computed.
pub open spec fn measurable(received: int, total: Option<u64>) -> bool {
    measure(total) is Some ==> received * 100 <= u64::MAX
}

/// Whether the percents of `received` can be computed.
pub fn can_measure(received: u64, total: Option<u64>) -> (possible: bool)
    ensures
        possible == measurable(received as int, total),
{
    match total {
        Some(total) if total > 0 => received <= u64::MAX / 100,
        _ => true,
    }
}

/// Tracks download progress and controls when emissions are sent.
///
/// - Known size (`total_bytes` is `Some`): emits when the integer percent (0-100) changes.
/// - Unknown size (`None`): emits every `BYTES_THRESHOLD` bytes.
///
/// Tracks `received_bytes` internally so the download loop only needs to call
/// `advance()` with each chunk size and check `should_emit()`.
#[derive(Clone, Copy, Debug, PartialEq, Eq, Structural)]
pub struct ProgressTracker {
    pub received_bytes: u64,
    pub total_bytes: Option<u64>,
    pub last_emitted_percent: u64,
    pub last_emitted_bytes: u64,
}

impl ProgressTracker {
    /// The bytes between two emissions of a download of unknown size.
    pub const BYTES_THRESHOLD: u64 = 1024 * 1024;

    /// What holds between two calls: the last emission lies in the past, and its percent is that
    /// of its bytes.
    pub open spec fn valid(self) -> bool {
        &&& self.last_emitted_bytes <= self.received_bytes
        &&& self.last_emitted_percent == match measure(self.total_bytes) {
            Some(total) => percent(self.last_emitted_bytes as int, total as int),
            None => 0,
        }
    }

    /// The tracker of a download that starts with `received` bytes on disk.
    pub open spec fn started(received: u64, total: Option<u64>) -> ProgressTracker {
        ProgressTracker {
            received_bytes: received,
            total_bytes: total,
            last_emitted_percent: match measure(total) {
                Some(total) => percent(received as int, total as int) as u64,
                None => 0,
            },
            last_emitted_bytes: received,
        }
    }

    /// The tracker after `bytes` more.
    pub open spec fn advanced(self, bytes: int) -> ProgressTracker {
        ProgressTracker { received_bytes: (self.received_bytes + bytes) as u64, ..self }
    }

    /// Whether what has come since the last emission is worth the next one.
    pub open spec fn due(self) -> bool {
        match measure(self.total_bytes) {
            Some(total) => percent(self.received_bytes as int, total as int) > percent(
                self.last_emitted_bytes as int,
                total as int,
            ),
            None => self.received_bytes - self.last_emitted_bytes >= Self::BYTES_THRESHOLD,
        }
    }

    /// Whether everything that was announced has come.
    pub open spec fn complete(self) -> bool {
        self.total_bytes is Some && self.received_bytes >= self.total_bytes->0
    }

    /// The tracker after an emission.
    pub open spec fn emitted(self) -> ProgressTracker {
        ProgressTracker::started(self.received_bytes, self.total_bytes)
    }

    pub fn new(received_bytes: u64, total_bytes: Option<u64>) -> (tracker: Self)
        requires
            measurable(received_bytes as int, total_bytes),
        ensures
            tracker == ProgressTracker::started(received_bytes, total_bytes),
            tracker.valid(),
    {
        let last_emitted_percent: u64 = match total_bytes {
            Some(total) if total > 0 => received_bytes * 100 / total,
            _ => 0,
        };
        Self { received_bytes, total_bytes, last_emitted_percent, last_emitted_bytes: received_bytes }
    }

    pub fn advance(&mut self, bytes_written: u64)
        requires
            old(self).valid(),
            old(self).received_bytes + bytes_written <= u64::MAX,
        ensures
            *final(self) == old(self).advanced(bytes_written as int),
            final(self).valid(),
    {
        self.received_bytes = self.received_bytes + bytes_written;
    }

    pub fn should_emit(&self) -> (emit: bool)
        requires
            self.valid(),
            measurable(self.received_bytes as int, self.total_bytes),
        ensures
            emit == self.due(),
    {
        match self.total_bytes {
            Some(total) if total > 0 => {
                let percent: u64 = self.received_bytes * 100 / total;
                percent > self.last_emitted_percent
            },
            _ => self.received_bytes - self.last_emitted_bytes >= Self::BYTES_THRESHOLD,
        }
    }

    pub fn is_complete(&self) -> (complete: bool)
        ensures
            complete == self.complete(),
    {
        match self.total_bytes {
            Some(total) => self.received_bytes >= total,
            None => false,
        }
    }

    pub fn mark_emitted(&mut self)
        requires
            old(self).valid(),
            measurable(old(self).received_bytes as int, old(self).total_bytes),
        ensures
            *final(self) == old(self).emitted(),
            final(self).valid(),
    {
        if let Some(total) = self.total_bytes {
            if total > 0 {
                self.last_emitted_percent = self.received_bytes * 100 / total;
            }
        }
        self.last_emitted_bytes = self.received_bytes;
    }
}

/// Everything that was announced has come exactly when 100 percent of it have.
pub proof fn law_complete_at_hundred_percent(tracker: ProgressTracker)
    requires
        measure(tracker.total_bytes) is Some,
    ensures
        tracker.complete() <==> percent(
            tracker.received_bytes as int,
            tracker.total_bytes->0 as int,
        ) >= 100,
{
    let received = tracker.received_bytes as int;
    let total = tracker.total_bytes->0 as int;
    assert(received * 100 / total >= 100 <==> received >= total) by (nonlinear_arith)
        requires
            0 <= received,
            0 < total,
    ;
}

/// More bytes are no fewer percent.
pub(crate) proof fn lemma_percent_grows(less: int, more: int, total: int)
    requires
        0 <= less <= more,
        0 < total,
    ensures
        0 <= percent(less, total) <= percent(more, total),
{
    vstd::arithmetic::div_mod::lemma_div_is_ordered(less * 100, more * 100, total);
    vstd::arithmetic::div_mod::lemma_div_pos_is_pos(less * 100, total);
}

/// For a download of known size, an emission is due exactly when the integer percent differs
/// from that of the last emission. The percent never falls, and stays below 100 until everything
/// has come.
pub proof fn law_emits_when_percent_changes(tracker: ProgressTracker)
    requires
        tracker.valid(),
        measure(tracker.total_bytes) is Some,
    ensures
        ({
            let total = tracker.total_bytes->0 as int;
            let now = percent(tracker.received_bytes as int, total);
            let last = percent(tracker.last_emitted_bytes as int, total);
            &&& 0 <= last <= now
            &&& !tracker.complete() ==> now < 100
            &&& tracker.due() <==> now != last
        }),
{
    law_complete_at_hundred_percent(tracker);
    lemma_percent_grows(
        tracker.last_emitted_bytes as int,
        tracker.received_bytes as int,
        tracker.total_bytes->0 as int,
    );
}

/// Right after an emission no other is due.
pub proof fn law_quiet_after_emission(tracker: ProgressTracker)
    requires
        tracker.valid(),
        measurable(tracker.received_bytes as int, tracker.total_bytes),
    ensures
        tracker.emitted().valid(),
        !tracker.emitted().due(),
{
}

/// What the four numbers of a tracker are: at the start, after more bytes, and after an emission.
pub proof fn law_tracker_counts(tracker: ProgressTracker, bytes: u64)
    requires
        tracker.received_bytes + bytes <= u64::MAX,
        tracker.total_bytes is Some && tracker.total_bytes->0 > 0 ==> tracker.received_bytes * 100
            <= 18446744073709551615,
    ensures
        ({
            let more = tracker.advanced(bytes as int);
            &&& more.received_bytes == tracker.received_bytes + bytes
            &&& more.total_bytes == tracker.total_bytes
            &&& more.last_emitted_percent == tracker.last_emitted_percent
            &&& more.last_emitted_bytes == tracker.last_emitted_bytes
        }),
        ({
            let reported = tracker.emitted();
            &&& reported == ProgressTracker::started(tracker.received_bytes, tracker.total_bytes)
            &&& reported.received_bytes == tracker.received_bytes
            &&& reported.total_bytes == tracker.total_bytes
            &&& reported.last_emitted_bytes == tracker.received_bytes
            &&& match tracker.total_bytes {
                Some(total) if total > 0 => reported.last_emitted_percent == tracker.received_bytes
                    * 100 / total as int,
                _ => reported.last_emitted_percent == 0,
            }
        }),
{
    if tracker.total_bytes is Some && tracker.total_bytes->0 > 0 {
        let total = tracker.total_bytes->0 as int;
        let hundredfold = tracker.received_bytes * 100;
        assert(0 <= hundredfold / total <= hundredfold) by (nonlinear_arith)
            requires
                0 <= hundredfold,
                0 < total,
        ;
    }
}

/// An emission is due where the size is known and the integer percent has changed since the last
/// one, or where the size is unknown and a mebibyte has come since then. Everything has come
/// where the size is known and as many bytes have.
pub proof fn law_due_and_complete(tracker: ProgressTracker)
    requires
        tracker.valid(),
    ensures
        match tracker.total_bytes {
            Some(total) if total > 0 => {
                &&& tracker.due() <==> tracker.received_bytes * 100 / total as int
                    != tracker.last_emitted_bytes * 100 / total as int
                &&& tracker.last_emitted_percent == tracker.last_emitted_bytes * 100 / total as int
                &&& measurable(tracker.received_bytes as int, tracker.total_bytes)
                    <==> tracker.received_bytes * 100 <= 18446744073709551615
            },
            _ => {
                &&& tracker.due() <==> tracker.received_bytes - tracker.last_emitted_bytes
                    >= 1048576
                &&& tracker.last_emitted_percent == 0
                &&& measurable(tracker.received_bytes as int, tracker.total_bytes)
            },
        },
        match tracker.total_bytes {
            Some(total) => tracker.complete() <==> tracker.received_bytes >= total,
            None => !tracker.complete(),
        },
        tracker.last_emitted_bytes <= tracker.received_bytes,
{
    if tracker.total_bytes is Some && tracker.total_bytes->0 > 0 {
        lemma_percent_grows(
            tracker.last_emitted_bytes as int,
            tracker.received_bytes as int,
            tracker.total_bytes->0 as int,
        );
    }
}

} // verus!
