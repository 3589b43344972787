//! The kinds of failure that the coordinator reports.

use vstd::prelude::*;

verus! {

/// Why an operation did not succeed. Every operation reports its outcome by
/// kind; none hides a failure behind a success.
#[derive(Clone, Copy, Debug, PartialEq, Eq, Structural)]
pub enum ErrorKind {
    /// The operation named a code that has no live entry.
    SessionNotFound,
    /// A required input, such as the session code, was absent.
    MalformedRequest,
    /// A subscriber fell behind by more events than its channel retains.
    CapacityExceeded,
    /// The external audio process exited abnormally or its streams failed.
    PipelineFailure,
    /// No fresh session code could be had when a session was created.
    ResourceExhaustion,
}

impl ErrorKind {
    /// The HTTP status that answers a request which failed in this way.
    pub open spec fn status_of(self) -> u16 {
        match self {
            ErrorKind::SessionNotFound => 404,
            ErrorKind::MalformedRequest => 400,
            ErrorKind::CapacityExceeded => 429,
            ErrorKind::PipelineFailure => 502,
            ErrorKind::ResourceExhaustion => 503,
        }
    }

    /// The words that tell a caller of this failure.
    pub open spec fn message_of(self) -> Seq<char> {
        match self {
            ErrorKind::SessionNotFound => "Session not found"@,
            ErrorKind::MalformedRequest => "Malformed request"@,
            ErrorKind::CapacityExceeded => "Subscriber capacity exceeded"@,
            ErrorKind::PipelineFailure => "Audio pipeline failed"@,
            ErrorKind::ResourceExhaustion => "No session code available"@,
        }
    }

    /// The HTTP status that answers a request which failed in this way.
    pub fn status(self) -> (status: u16)
        ensures
            status == self.status_of(),
    {
        match self {
            ErrorKind::SessionNotFound => 404,
            ErrorKind::MalformedRequest => 400,
            ErrorKind::CapacityExceeded => 429,
            ErrorKind::PipelineFailure => 502,
            ErrorKind::ResourceExhaustion => 503,
        }
    }

    /// The words that tell a caller of this failure.
    pub fn message(self) -> (text: &'static str)
        ensures
            text@ == self.message_of(),
    {
        match self {
            ErrorKind::SessionNotFound => "Session not found",
            ErrorKind::MalformedRequest => "Malformed request",
            ErrorKind::CapacityExceeded => "Subscriber capacity exceeded",
            ErrorKind::PipelineFailure => "Audio pipeline failed",
            ErrorKind::ResourceExhaustion => "No session code available",
        }
    }
}

/// Each kind of failure is answered in a way of its own: two kinds never
/// share a status, and no failure has the status of a success.
pub proof fn lemma_failures_are_told_apart(a: ErrorKind, b: ErrorKind)
    ensures
        a.status_of() == b.status_of() ==> a == b,
        400 <= a.status_of() < 600,
{
}

} // verus!
