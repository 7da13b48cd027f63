use vstd::prelude::*;

verus! {

/// The error taxonomy of the library.
///
/// `InvalidIdentifier` is local validation and is never retried.
/// `TransportFailure` is a network-level failure (DNS, connect, timeout,
/// TLS), safe to retry with backoff. `RemoteRejected` is a non-2xx status
/// together with the diagnostic text the service put in the body; it is
/// retryable only for idempotent reads. `MalformedResponse` means a 2xx body
/// did not parse against the expected shape: the client's view of the
/// protocol is stale, so it is not retried. `DuplicateFileName` is a local
/// uniqueness violation of the metadata store. `FileSystemError` is a local
/// read or write failure.
#[derive(Debug, Clone, PartialEq, Eq)]
pub enum ApiError {
    InvalidIdentifier,
    TransportFailure { detail: String },
    RemoteRejected { status: u16, body: String },
    MalformedResponse { body: String, parse_error: String },
    DuplicateFileName { file_name: String },
    FileSystemError { detail: String },
}

} // verus!
