//! The transport's data model: protocol-side binary messages and the
//! ledger-native message shape the codec reads and writes.
//!
//! Ledger values are modelled as plain byte data: a message identifier is
//! the identifier's bytes, an indexation payload is its index key and its
//! hex-text data field. The connection layer converts between these and the
//! node's own wire types.

use vstd::prelude::*;

use crate::link::TangleAddress;

verus! {

/// A ledger-assigned message identifier.
#[derive(Clone, Debug)]
pub struct MessageId {
    pub bytes: Vec<u8>,
}

/// An indexation payload: opaque data filed under a searchable index key.
/// `data` holds hex text (the wire form of the body), `index` the index key.
#[derive(Clone, Debug)]
pub struct Indexation {
    pub index: Vec<u8>,
    pub data: Vec<u8>,
}

/// What a ledger-native message can carry. Only the indexation kind is
/// meaningful to this transport; everything else is `Other`.
#[derive(Clone, Debug)]
pub enum Payload {
    Indexation(Indexation),
    Other,
}

/// A ledger-native message: an optional payload plus the two parent
/// references that attach it to the DAG.
#[derive(Clone, Debug)]
pub struct Message {
    pub payload: Option<Payload>,
    pub parent1: MessageId,
    pub parent2: MessageId,
}

/// A protocol message: an already-serialized byte body addressed by a link.
/// The transport never alters the body.
#[derive(Clone, Debug)]
pub struct BinaryMessage {
    pub link: TangleAddress,
    pub body: Vec<u8>,
}

impl BinaryMessage {
    pub fn new(link: TangleAddress, body: Vec<u8>) -> (r: Self)
        ensures
            r.link == link,
            r.body@ == body@,
    {
        BinaryMessage { link, body }
    }
}

/// A protocol message together with its timestamp, as carried over the
/// ledger. The ledger does not return a timestamp, so inbound messages get a
/// default one (see the message codec).
#[derive(Clone, Debug)]
pub struct TangleMessage {
    pub binary: BinaryMessage,
    pub timestamp: u64,
}

} // verus!
