//! How the runtime reads the outcome of a non-blocking socket operation.
//!
//! A non-blocking call either completes, or reports that it would block (the
//! task is polled again later), or fails for good.
use vstd::prelude::*;

use crate::Poll;

verus! {

/// `std::io::Error`, held opaque.
#[verifier::external_type_specification]
#[verifier::external_body]
pub struct ExIoError(std::io::Error);

/// The kinds of I/O error that the runtime tells apart.
#[derive(Debug, Clone, Copy, PartialEq, Eq, Structural)]
pub enum IoErrorKind {
    /// The operation would have to block.
    WouldBlock,
    /// The socket is not connected (yet).
    NotConnected,
    /// An argument was not valid.
    InvalidInput,
    /// Any other kind.
    Other,
}

/// The raw OS error code that a non-blocking socket reports on the BSD
/// family while an operation is still in progress (`EINPROGRESS` there).
pub const IN_PROGRESS_OS_ERROR: i32 = 36;

/// The kind of an I/O error, as `std::io::Error::kind` reports it, sorted into
/// the kinds that the runtime tells apart. It depends on the error value alone.
pub uninterp spec fn io_kind_of(error: std::io::Error) -> IoErrorKind;

/// The OS error code behind an I/O error, as `std::io::Error::raw_os_error`
/// reports it. It depends on the error value alone.
pub uninterp spec fn io_os_code_of(error: std::io::Error) -> Option<i32>;

/// Calls `std::io::Error::kind` and names the kinds that the runtime tells
/// apart; the result is `io_kind_of` of the error.
#[verifier::external_body]
fn io_error_kind(error: &std::io::Error) -> (kind: IoErrorKind)
    ensures
        kind == io_kind_of(*error),
{
    match error.kind() {
        std::io::ErrorKind::WouldBlock => IoErrorKind::WouldBlock,
        std::io::ErrorKind::NotConnected => IoErrorKind::NotConnected,
        std::io::ErrorKind::InvalidInput => IoErrorKind::InvalidInput,
        _ => IoErrorKind::Other,
    }
}

/// Calls `std::io::Error::raw_os_error`: the OS error code behind the error,
/// if any; the result is `io_os_code_of` of the error.
#[verifier::external_body]
fn io_raw_os_error(error: &std::io::Error) -> (code: Option<i32>)
    ensures
        code == io_os_code_of(*error),
{
    error.raw_os_error()
}

/// Whether a failed non-blocking call is to be tried again later: it would
/// have blocked, or the OS reports the operation as still in progress.
pub open spec fn retry_later(kind: IoErrorKind, raw_os_error: Option<i32>) -> bool {
    kind == IoErrorKind::WouldBlock || raw_os_error == Some(IN_PROGRESS_OS_ERROR)
}

/// Only two things make a failed non-blocking call wait for another try: the
/// error says the call would block, or the OS reports the operation as still
/// in progress (code 36). Every other failure, whatever its kind (invalid
/// input, refused, not connected, ...), is final and is handed back.
pub proof fn lemma_retry_exactly_when_blocked(kind: IoErrorKind, raw_os_error: Option<i32>)
    ensures
        kind == IoErrorKind::WouldBlock ==> retry_later(kind, raw_os_error),
        raw_os_error == Some(36i32) ==> retry_later(kind, raw_os_error),
        kind != IoErrorKind::WouldBlock && raw_os_error != Some(36i32) ==> !retry_later(
            kind,
            raw_os_error,
        ),
        !retry_later(IoErrorKind::InvalidInput, None),
        !retry_later(IoErrorKind::NotConnected, None),
        !retry_later(IoErrorKind::Other, None),
{
}

/// Decides `retry_later` for an error of `kind` with OS code `raw_os_error`.
pub fn should_retry(kind: IoErrorKind, raw_os_error: Option<i32>) -> (retry: bool)
    ensures
        retry == retry_later(kind, raw_os_error),
{
    match raw_os_error {
        Some(code) => kind == IoErrorKind::WouldBlock || code == IN_PROGRESS_OS_ERROR,
        None => kind == IoErrorKind::WouldBlock,
    }
}

/// Whether a zero-length send on a connecting socket shows that the
/// connection is still being set up.
pub fn still_connecting(kind: IoErrorKind) -> (connecting: bool)
    ensures
        connecting == (kind == IoErrorKind::NotConnected),
{
    kind == IoErrorKind::NotConnected
}

/// The poll outcome of one non-blocking call: a success or a lasting failure
/// is handed back as is; an error that `should_retry` accepts leaves the
/// operation pending.
pub fn nonblocking_outcome<T>(result: std::io::Result<T>) -> (progress: Poll<std::io::Result<T>>)
    ensures
        result is Ok ==> progress == Poll::Ready(result),
        result matches Err(e) ==> (progress is Pending) == retry_later(
            io_kind_of(e),
            io_os_code_of(e),
        ),
        progress matches Poll::Ready(r) ==> r == result,
{
    match result {
        Ok(value) => Poll::Ready(Ok(value)),
        Err(error) => {
            if should_retry(io_error_kind(&error), io_raw_os_error(&error)) {
                Poll::Pending
            } else {
                Poll::Ready(Err(error))
            }
        },
    }
}

/// The poll outcome of probing a connecting socket with a zero-length send:
/// any success means connected, a not-connected error means not yet, any
/// other error is the connection's failure.
pub fn connect_probe_outcome<T>(probe: std::io::Result<T>) -> (progress: Poll<
    std::io::Result<()>,
>)
    ensures
        probe is Ok ==> progress == Poll::<std::io::Result<()>>::Ready(Ok(())),
        progress matches Poll::Ready(Err(e)) ==> probe == std::io::Result::<T>::Err(e),
        progress is Pending ==> probe is Err,
        probe matches Err(e) ==> (progress is Pending) == (io_kind_of(e)
            == IoErrorKind::NotConnected),
        probe matches Err(e) ==> (io_kind_of(e) != IoErrorKind::NotConnected ==> progress
            == Poll::<std::io::Result<()>>::Ready(Err(e))),
{
    match probe {
        Ok(_) => Poll::Ready(Ok(())),
        Err(error) => {
            if still_connecting(io_error_kind(&error)) {
                Poll::Pending
            } else {
                Poll::Ready(Err(error))
            }
        },
    }
}

} // verus!
