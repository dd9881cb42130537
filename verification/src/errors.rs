//! Failure kinds of the transport layer.

use vstd::prelude::*;

verus! {

/// Everything that can go wrong between the protocol layer and the ledger.
///
/// `HashNotFound` is internal to the receive pipeline: the public receive
/// surface turns "no index match" into an empty result instead of an error.
#[derive(Clone, Copy, Debug, PartialEq, Eq, Structural)]
pub enum TransportError {
    /// A node request itself failed (RPC or connection trouble).
    ClientOperationFailure,
    /// No ledger message ids are tagged with the looked-up index key.
    HashNotFound,
    /// Ids matched the index key, but no message bodies could be fetched.
    TransactionContentsNotFound,
    /// A native message carried something other than an indexation payload.
    UnexpectedPayloadType,
    /// An indexation payload's data field was not well-formed hex text.
    BadHexEncoding,
    /// An outbound body is larger than the ledger's payload size allows.
    PayloadSizeExceeded,
    /// More than one stored message matches a link that must be unique.
    MessageNotUnique,
    /// No stored message matches the link.
    MessageLinkNotFound,
    /// A shared client handle is currently held by another operation.
    TransportNotAvailable,
}

} // verus!
