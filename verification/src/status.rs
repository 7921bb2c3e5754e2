//! Outcomes of runtime calls, and the error that a failed one becomes.
use vstd::prelude::*;

verus! {

/// The status that a runtime call returns.
#[derive(Clone, Copy, Debug, PartialEq, Eq, Structural)]
pub enum Status {
    /// The call succeeded.
    Success,
    /// The work was cancelled before it ran.
    Cancelled,
    /// Any other status, by its number.
    Other(i32),
}

/// An error with the status it stems from and a text for the reader.
#[derive(Debug, PartialEq, Eq)]
pub struct Error {
    pub status: Status,
    pub reason: String,
}

impl Error {
    /// Whether this error reports a call that returned `status`: it carries that status, and
    /// no text of its own.
    pub open spec fn reports(self, status: Status) -> bool {
        &&& self.status == status
        &&& self.reason@ == Seq::<char>::empty()
    }
}

/// Turns the status of a call into a result: every status but `Status::Success` is an error.
pub fn check_status(status: Status) -> (r: Result<(), Error>)
    ensures
        r is Ok <==> status == Status::Success,
        r matches Err(e) ==> e.reports(status),
{
    match status {
        Status::Success => Ok(()),
        _ => Err(Error { status, reason: String::new() }),
    }
}

} // verus!
