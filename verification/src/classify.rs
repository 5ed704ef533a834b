//! Failure classifier: maps the raw outcome of one transfer attempt to a
//! failure class together with a retry/no-retry verdict.

use vstd::prelude::*;

verus! {

/// Class of a failed attempt: where in the pipeline it went wrong.
#[derive(Clone, Copy, Debug, PartialEq, Eq, Structural)]
pub enum FailureClass {
    /// Connection/DNS/TLS-level failure before any response arrived.
    NetworkTransport,
    /// A response arrived but its status code signals failure.
    HttpStatus(u16),
    /// A local read/write/rename failed while staging or publishing.
    LocalIo,
}

/// True exactly for the status codes worth another attempt:
/// request timeout, too early, rate limited, or any server-side error.
pub open spec fn spec_retryable_http_status(code: u16) -> bool {
    code == 408 || code == 425 || code == 429 || code >= 500
}

/// Retry verdict for an HTTP status code.
pub fn retryable_http_status(code: u16) -> (r: bool)
    ensures
        r == spec_retryable_http_status(code),
{
    code == 408 || code == 425 || code == 429 || code >= 500
}

/// The local I/O conditions the classifier distinguishes. The host's own
/// error taxonomy is reduced to these before classification; a condition
/// outside the named ones maps to `Unrecognized`.
#[derive(Clone, Copy, Debug, PartialEq, Eq, Structural)]
pub enum IoErrorKind {
    Interrupted,
    WouldBlock,
    TimedOut,
    PermissionDenied,
    /// A custom or otherwise unclassified error the host reports.
    Other,
    NotFound,
    AlreadyExists,
    BrokenPipe,
    InvalidInput,
    InvalidData,
    WriteZero,
    UnexpectedEof,
    StorageFull,
    Unsupported,
    Unrecognized,
}

/// True exactly for the conditions plausibly transient on the host:
/// interrupted syscall, would-block, timeout, permission denied (locks,
/// scanners), or an unclassified OS-level error.
pub open spec fn spec_retryable_io_error(kind: IoErrorKind) -> bool {
    ||| kind == IoErrorKind::Interrupted
    ||| kind == IoErrorKind::WouldBlock
    ||| kind == IoErrorKind::TimedOut
    ||| kind == IoErrorKind::PermissionDenied
    ||| kind == IoErrorKind::Other
}

/// Retry verdict for a local I/O condition.
pub fn retryable_io_error(kind: IoErrorKind) -> (r: bool)
    ensures
        r == spec_retryable_io_error(kind),
{
    match kind {
        IoErrorKind::Interrupted
        | IoErrorKind::WouldBlock
        | IoErrorKind::TimedOut
        | IoErrorKind::PermissionDenied
        | IoErrorKind::Other => true,
        _ => false,
    }
}

/// Raw outcome of one failed attempt, before classification.
#[derive(Clone, Copy, Debug, PartialEq, Eq, Structural)]
pub enum RawFailure {
    /// Connection/DNS/TLS-level error: no response was received.
    Transport,
    /// A response was received with this non-success status code.
    HttpResponse(u16),
    /// Reading the response body failed after a success status.
    BodyRead,
    /// Staging or publishing the received payload failed locally.
    LocalWrite(IoErrorKind),
}

/// Where classification sends each raw outcome.
pub open spec fn spec_classify(raw: RawFailure) -> (FailureClass, bool) {
    match raw {
        RawFailure::Transport => (FailureClass::NetworkTransport, true),
        RawFailure::HttpResponse(code) => (
            FailureClass::HttpStatus(code),
            spec_retryable_http_status(code),
        ),
        RawFailure::BodyRead => (FailureClass::LocalIo, true),
        RawFailure::LocalWrite(kind) => (FailureClass::LocalIo, spec_retryable_io_error(kind)),
    }
}

/// Classify one attempt's raw failure: total, pure, every raw error maps to
/// exactly one class. Transport errors always retry; HTTP statuses retry
/// per `retryable_http_status`; a body that could not be read retries
/// (the read itself may fail transiently); staging/publishing failures
/// retry per `retryable_io_error`.
pub fn classify_failure(raw: RawFailure) -> (r: (FailureClass, bool))
    ensures
        r == spec_classify(raw),
{
    match raw {
        RawFailure::Transport => (FailureClass::NetworkTransport, true),
        RawFailure::HttpResponse(code) => (
            FailureClass::HttpStatus(code),
            retryable_http_status(code),
        ),
        RawFailure::BodyRead => (FailureClass::LocalIo, true),
        RawFailure::LocalWrite(kind) => (FailureClass::LocalIo, retryable_io_error(kind)),
    }
}

} // verus!
