//! The failures of the bridge and of the services it reads from.

use vstd::prelude::*;

verus! {

/// How a call to an upstream service failed, as its caller saw it.
#[derive(Clone, Copy, Debug, PartialEq, Eq, Structural)]
pub enum FailureKind {
    /// The service could not be reached, or did not answer in time.
    Transport,
    /// The service answered with a well-formed error.
    ErrorResponse,
    /// The service answered with a body that does not have the agreed shape.
    Malformed,
}

/// A failed call to an upstream service, with the text that came with it.
#[derive(Clone, Debug, PartialEq, Eq)]
pub struct UpstreamFailure {
    pub kind: FailureKind,
    pub message: String,
}

/// The kinds of failure that the bridge reports.
#[derive(Clone, Copy, Debug, PartialEq, Eq, Structural)]
pub enum ErrorKind {
    /// A dependency could not be reached.
    UpstreamUnavailable,
    /// A dependency answered, and said that it failed.
    UpstreamReportedError,
    /// A dependency answered that it does not hold what was asked for.
    NotFound,
    /// A dependency's answer breaks its own documented shape.
    UpstreamContractViolation,
    /// A binary or hexadecimal payload is malformed.
    DecodeError,
    /// The caller named something that a dependency does not know.
    BadRequest,
}

/// A failure of the bridge: its kind, and the text shown to the caller.
#[derive(Clone, Debug, PartialEq, Eq)]
pub struct BridgeError {
    pub kind: ErrorKind,
    pub message: String,
}

impl BridgeError {
    /// Whether this error has the given kind and text.
    pub open spec fn reports(self, kind: ErrorKind, message: Seq<char>) -> bool {
        self.kind == kind && self.message@ == message
    }
}

/// The kind under which a failed upstream call is reported, where nothing
/// more specific is known of the call.
pub open spec fn failure_error_kind(kind: FailureKind) -> ErrorKind {
    match kind {
        FailureKind::Transport => ErrorKind::UpstreamUnavailable,
        FailureKind::ErrorResponse => ErrorKind::UpstreamReportedError,
        FailureKind::Malformed => ErrorKind::UpstreamContractViolation,
    }
}

/// Reports a failed upstream call under its usual kind, text unchanged.
pub fn classify_failure(failure: UpstreamFailure) -> (error: BridgeError)
    ensures
        error.reports(failure_error_kind(failure.kind), failure.message@),
{
    let kind = match failure.kind {
        FailureKind::Transport => ErrorKind::UpstreamUnavailable,
        FailureKind::ErrorResponse => ErrorKind::UpstreamReportedError,
        FailureKind::Malformed => ErrorKind::UpstreamContractViolation,
    };
    BridgeError { kind, message: failure.message }
}

/// Reports a failed upstream call as unavailability, whatever its kind, text
/// unchanged.
pub fn unavailable(failure: UpstreamFailure) -> (error: BridgeError)
    ensures
        error.reports(ErrorKind::UpstreamUnavailable, failure.message@),
{
    BridgeError { kind: ErrorKind::UpstreamUnavailable, message: failure.message }
}

} // verus!
