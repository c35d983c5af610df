//! The one failure that an exchange can end in.

use vstd::prelude::*;

verus! {

/// Where a failure came from. The response to the client is the same for both.
#[derive(Clone, Copy, Debug, PartialEq, Eq, Structural)]
pub enum ErrorKind {
    /// The storage directory refused to open, create, read or write a file.
    Storage,
    /// Anything else, brought into this error type by [`other`].
    Other,
}

/// A failure of a download or an upload. It is handed to the transport as it
/// is: nothing retries, and the cause does not reach the response body.
#[derive(Clone, Debug, PartialEq, Eq)]
pub struct TransferError {
    pub kind: ErrorKind,
    pub message: String,
}

/// What a [`TransferError`] is in contracts.
pub struct TransferErrorView {
    pub kind: ErrorKind,
    pub message: Seq<char>,
}

impl View for TransferError {
    type V = TransferErrorView;

    open spec fn view(&self) -> TransferErrorView {
        TransferErrorView { kind: self.kind, message: self.message@ }
    }
}

/// Brings a failure from outside the storage layer, such as a request body
/// that broke off, into the error type of this library. The message is kept.
pub fn other(err: String) -> (e: TransferError)
    ensures
        e@ == (TransferErrorView { kind: ErrorKind::Other, message: err@ }),
{
    TransferError { kind: ErrorKind::Other, message: err }
}

/// A failure reported by the storage directory, with its message kept.
pub fn storage(err: String) -> (e: TransferError)
    ensures
        e@ == (TransferErrorView { kind: ErrorKind::Storage, message: err@ }),
{
    TransferError { kind: ErrorKind::Storage, message: err }
}

} // verus!
