//! Why a download failed.

use crate::fields;
use crate::text;
use vstd::prelude::*;

verus! {

/// A failure of a download.
#[derive(Debug, PartialEq)]
pub enum Error {
    /// The server, or the way to it.
    Http(String),
    /// The file system.
    File(String),
}

/// What an [`Error`] says.
pub enum ErrorView {
    Http(Seq<char>),
    File(Seq<char>),
}

impl View for Error {
    type V = ErrorView;

    open spec fn view(&self) -> ErrorView {
        match self {
            Error::Http(message) => ErrorView::Http(message@),
            Error::File(message) => ErrorView::File(message@),
        }
    }
}

/// The failure that an unsuccessful status with the reason phrase `reason` is.
pub open spec fn refusal(status: u16, reason: Option<Seq<char>>) -> ErrorView {
    ErrorView::Http(
        "HTTP "@ + text::decimal(status as nat) + ": "@ + match reason {
            Some(reason) => reason,
            None => "Unknown"@,
        },
    )
}

/// `prefix` and behind it the cause of the failure.
pub(crate) fn message(prefix: &str, cause: &String) -> (text: String)
    ensures
        text@ == prefix@ + cause@,
{
    let mut text: String = prefix.to_owned();
    text.append(cause.as_str());
    text
}

impl Error {
    /// The failure that an unsuccessful status with the reason phrase `reason` is.
    pub fn with_reason(status: u16, reason: Option<String>) -> (error: Error)
        ensures
            error@ == refusal(status, reason.deep_view()),
    {
        let mut message: String = "HTTP ".to_owned();
        message.append(text::decimal_text(status as u64).as_str());
        message.append(": ");
        match reason {
            Some(reason) => message.append(reason.as_str()),
            None => message.append("Unknown"),
        }
        Error::Http(message)
    }

    /// The failure that an unsuccessful status is.
    pub fn from_status(status: u16) -> (error: Error)
        requires
            100 <= status < 1000,
        ensures
            error@ == refusal(status, fields::reason_phrase(status)),
    {
        Error::with_reason(status, fields::canonical_reason(status))
    }

    /// The failure to delete a temporary file that is of no use any more.
    pub fn stale_file(cause: String) -> (error: Error)
        ensures
            error@ == ErrorView::File("Failed to delete stale temp file: "@ + cause@),
    {
        Error::File(message("Failed to delete stale temp file: ", &cause))
    }
}

/// An unsuccessful status is reported as its number and its reason, or as unknown where there is
/// no reason.
pub proof fn law_refusal_names_status_and_reason(status: u16, reason: Seq<char>)
    ensures
        refusal(status, Some(reason)) == ErrorView::Http(
            "HTTP "@ + text::decimal(status as nat) + ": "@ + reason,
        ),
        refusal(status, None) == ErrorView::Http(
            "HTTP "@ + text::decimal(status as nat) + ": "@ + "Unknown"@,
        ),
{
}

/// The view of a failure is its kind and its message.
pub proof fn law_error_is_seen_as_it_is(message: String)
    ensures
        Error::Http(message)@ == ErrorView::Http(message@),
        Error::File(message)@ == ErrorView::File(message@),
{
}

} // verus!
