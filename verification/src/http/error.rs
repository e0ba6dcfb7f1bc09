//! What can go wrong while a request is handled.

use vstd::prelude::*;

verus! {

/// Why an operation on a request failed.
#[derive(Debug, PartialEq, Eq)]
pub enum HttpError {
    /// The response was already handed over.
    ConnectionCompleted,
    /// The connection is of no kind that can be upgraded.
    CannotUpgrade,
    /// The reader of a response stream is gone.
    WriteFailed,
    /// A response ended before all of it was written.
    IncompleteStream,
    /// A header map cannot hold another header.
    HeaderMapFull,
    /// The task that waits for a response is gone.
    PromiseDropped,
    /// The task that tracks a response is gone, and did not hear whether all of the
    /// response was written.
    TrackerDropped(bool),
    /// There is no resource under the id.
    BadResourceId,
    /// An error of the runtime, by its text.
    Runtime(String),
}

impl HttpError {
    /// The text of the error.
    pub open spec fn text(self) -> Seq<char> {
        match self {
            HttpError::ConnectionCompleted => "connection already completed"@,
            HttpError::CannotUpgrade => "Impossible to upgrade this connection"@,
            HttpError::WriteFailed => "failed to write"@,
            HttpError::IncompleteStream => "failed to write entire stream"@,
            HttpError::HeaderMapFull => "max size reached"@,
            HttpError::PromiseDropped => "nothing waits for the response any more"@,
            HttpError::TrackerDropped(_) => "nothing tracks the response any more"@,
            HttpError::BadResourceId => "Bad resource ID"@,
            HttpError::Runtime(message) => message@,
        }
    }

    /// The text of the error.
    pub fn message(&self) -> (text: String)
        ensures
            text@ == self.text(),
    {
        match self {
            HttpError::ConnectionCompleted => "connection already completed".to_owned(),
            HttpError::CannotUpgrade => "Impossible to upgrade this connection".to_owned(),
            HttpError::WriteFailed => "failed to write".to_owned(),
            HttpError::IncompleteStream => "failed to write entire stream".to_owned(),
            HttpError::HeaderMapFull => "max size reached".to_owned(),
            HttpError::PromiseDropped => "nothing waits for the response any more".to_owned(),
            HttpError::TrackerDropped(_) => "nothing tracks the response any more".to_owned(),
            HttpError::BadResourceId => "Bad resource ID".to_owned(),
            HttpError::Runtime(message) => message.clone(),
        }
    }
}

/// Every error says what went wrong in its own words, and one of the runtime in the runtime's.
pub proof fn law_errors_say_what_went_wrong(success: bool, message: String)
    ensures
        HttpError::ConnectionCompleted.text() == "connection already completed"@,
        HttpError::CannotUpgrade.text() == "Impossible to upgrade this connection"@,
        HttpError::WriteFailed.text() == "failed to write"@,
        HttpError::IncompleteStream.text() == "failed to write entire stream"@,
        HttpError::HeaderMapFull.text() == "max size reached"@,
        HttpError::PromiseDropped.text() == "nothing waits for the response any more"@,
        HttpError::TrackerDropped(success).text() == "nothing tracks the response any more"@,
        HttpError::BadResourceId.text() == "Bad resource ID"@,
        HttpError::Runtime(message).text() == message@,
{
}

} // verus!
