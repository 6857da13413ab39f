//! Typed outcomes of one session attempt: the classified failure reasons
//! and the terminal result handed back to the caller.

use vstd::prelude::*;

verus! {

/// Why a session attempt, or a single adapter read, failed.
#[derive(Clone, Copy, Debug, PartialEq, Eq, Structural)]
pub enum FailureReason {
    /// Rendezvous or code exchange failed (bad code, peer absent).
    ConnectionError,
    /// Transit/relay capability exchange failed.
    NegotiationError,
    /// I/O failure while streaming bytes.
    TransferError,
    /// The receive side found no pending offer.
    NoTransferOffered,
    /// A read was requested from the adapter while one was pending.
    ConcurrentReadError,
    /// The underlying chunk fetch failed.
    SourceReadError,
}

/// Payload delivered by a successful receive: the file bytes together
/// with the name and byte length announced in the offer.
#[derive(Clone, Debug, PartialEq, Eq)]
pub struct ReceiveResult {
    pub data: Vec<u8>,
    pub filename: String,
    pub filesize: u64,
}

/// Terminal result of one send or receive attempt.
#[derive(Clone, Debug, PartialEq, Eq)]
pub enum TransferOutcome {
    /// A send completed; carries the total number of bytes sent.
    Sent { byte_count: u64 },
    /// A receive completed; carries the delivered payload.
    Received(ReceiveResult),
    /// The attempt failed with a classified reason.
    Failed(FailureReason),
}

impl ReceiveResult {
    /// Assemble the payload of a completed receive from the streamed
    /// bytes and the metadata of the accepted offer.
    pub fn new(data: Vec<u8>, filename: String, filesize: u64) -> (r: ReceiveResult)
        ensures
            r.data == data,
            r.filename == filename,
            r.filesize == filesize,
    {
        ReceiveResult { data, filename, filesize }
    }
}

} // verus!
