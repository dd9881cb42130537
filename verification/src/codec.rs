//! The message codec: wrapping a byte body into a ledger-native indexation
//! message, and unwrapping a ledger-native message back into a byte body.

use vstd::prelude::*;

use crate::encoding::{
    hex_bytes, hex_decode, hex_encode, hex_of, is_hex_text, lemma_hex_round_trip,
};
use crate::errors::TransportError;
use crate::link::{index_of, TangleAddress};
use crate::message::{BinaryMessage, Indexation, Message, MessageId, Payload, TangleMessage};

verus! {

/// Upper bound on an outbound body, in bytes. The ledger caps a whole
/// message at 32 KiB; the body is carried hex-encoded (two bytes of payload
/// data per body byte), so half of that cap keeps any encoded body inside a
/// single message.
pub const MAX_BODY_BYTES: usize = 16384;

/// The ledger-native message the codec builds for a body sent to
/// `(address, tag)` with parents `(trunk, branch)`: a single indexation
/// payload filed under the link's index key, carrying the body as hex text.
pub open spec fn is_bundle_for(
    m: Message,
    address: Seq<u8>,
    tag: Seq<u8>,
    body: Seq<u8>,
    trunk: MessageId,
    branch: MessageId,
) -> bool {
    &&& m.payload matches Some(Payload::Indexation(ix))
    &&& ix.index@ == index_of(address, tag)
    &&& ix.data@ == hex_of(body)
    &&& m.parent1.bytes@ == trunk.bytes@
    &&& m.parent2.bytes@ == branch.bytes@
}

/// Whether the codec can unwrap a ledger-native message: it must carry an
/// indexation payload whose data field is well-formed hex text.
pub open spec fn decodable(m: Message) -> bool {
    m.payload matches Some(Payload::Indexation(ix)) && is_hex_text(ix.data@)
}

/// The body a decodable message unwraps to.
pub open spec fn decoded_body(m: Message) -> Seq<u8>
    recommends
        decodable(m),
{
    match m.payload {
        Some(Payload::Indexation(ix)) => hex_bytes(ix.data@),
        _ => Seq::empty(),
    }
}

/// The error unwrapping an undecodable message reports: the wrong payload
/// kind, or an indexation payload whose data is not hex text.
pub open spec fn decode_failure(m: Message) -> TransportError
    recommends
        !decodable(m),
{
    match m.payload {
        Some(Payload::Indexation(_)) => TransportError::BadHexEncoding,
        _ => TransportError::UnexpectedPayloadType,
    }
}

/// What a successful decode hands back for message `m` looked up under
/// `link`: the unwrapped body, addressed by that link, with the default
/// timestamp (the ledger does not return one).
pub open spec fn decodes_to(m: Message, link: TangleAddress, t: TangleMessage) -> bool {
    &&& decodable(m)
    &&& t.binary.body@ == decoded_body(m)
    &&& t.binary.link.appinst@ == link.appinst@
    &&& t.binary.link.msgid@ == link.msgid@
    &&& t.timestamp == 0
}

/// Build the ledger-native message for one outbound body.
///
/// The body is filed under the index key of `(address, tag)` and attached to
/// the DAG at `trunk` and `branch`. A body over `MAX_BODY_BYTES` is
/// rejected. The timestamp is accepted for interface compatibility but the
/// ledger message format has no field for it.
pub fn make_bundle(
    address: &[u8],
    tag: &[u8],
    body: &[u8],
    _timestamp: u64,
    trunk: MessageId,
    branch: MessageId,
) -> (r: Result<Vec<Message>, TransportError>)
    ensures
        body@.len() <= MAX_BODY_BYTES ==> (r matches Ok(v) && v@.len() == 1 && is_bundle_for(
            v@[0],
            address@,
            tag@,
            body@,
            trunk,
            branch,
        )),
        body@.len() > MAX_BODY_BYTES ==> r == Err::<Vec<Message>, TransportError>(
            TransportError::PayloadSizeExceeded,
        ),
{
    if body.len() > MAX_BODY_BYTES {
        return Err(TransportError::PayloadSizeExceeded);
    }
    let mut index_src: Vec<u8> = vstd::slice::slice_to_vec(address);
    let mut tag_part: Vec<u8> = vstd::slice::slice_to_vec(tag);
    index_src.append(&mut tag_part);
    let index = hex_encode(index_src.as_slice());
    let data = hex_encode(body);
    let msg = Message {
        payload: Some(Payload::Indexation(Indexation { index, data })),
        parent1: trunk,
        parent2: branch,
    };
    let mut msgs: Vec<Message> = Vec::new();
    msgs.push(msg);
    Ok(msgs)
}

/// Wrap an outbound protocol message for the ledger: one indexation message
/// filed under the index key of the message's own link.
pub fn msg_to_tangle(
    msg: &BinaryMessage,
    timestamp: u64,
    trunk: MessageId,
    branch: MessageId,
) -> (r: Result<Vec<Message>, TransportError>)
    ensures
        msg.body@.len() <= MAX_BODY_BYTES ==> (r matches Ok(v) && v@.len() == 1 && is_bundle_for(
            v@[0],
            msg.link.appinst@,
            msg.link.msgid@,
            msg.body@,
            trunk,
            branch,
        )),
        msg.body@.len() > MAX_BODY_BYTES ==> r == Err::<Vec<Message>, TransportError>(
            TransportError::PayloadSizeExceeded,
        ),
{
    make_bundle(
        msg.link.appinst.as_slice(),
        msg.link.msgid.as_slice(),
        msg.body.as_slice(),
        timestamp,
        trunk,
        branch,
    )
}

/// Unwrap one ledger-native message fetched for `link`.
///
/// Succeeds exactly on indexation payloads with well-formed hex data;
/// anything else is rejected with the matching error. The ledger does not
/// return a timestamp, so the result carries the documented default of 0.
pub fn msg_from_tangle_message(message: &Message, link: &TangleAddress) -> (r: Result<
    TangleMessage,
    TransportError,
>)
    ensures
        decodable(*message) ==> (r matches Ok(t) && decodes_to(*message, *link, t)),
        !decodable(*message) ==> r == Err::<TangleMessage, TransportError>(
            decode_failure(*message),
        ),
{
    match &message.payload {
        Some(Payload::Indexation(ix)) => {
            match hex_decode(ix.data.as_slice()) {
                Some(body) => {
                    let link_copy = TangleAddress::new(
                        vstd::slice::slice_to_vec(link.appinst.as_slice()),
                        vstd::slice::slice_to_vec(link.msgid.as_slice()),
                    );
                    let binary = BinaryMessage::new(link_copy, body);
                    Ok(TangleMessage { binary, timestamp: 0 })
                },
                None => Err(TransportError::BadHexEncoding),
            }
        },
        _ => Err(TransportError::UnexpectedPayloadType),
    }
}

/// The index key a ledger message is filed under; empty where the message
/// carries no indexation payload.
pub open spec fn bundle_index(m: Message) -> Seq<u8> {
    match m.payload {
        Some(Payload::Indexation(ix)) => ix.index@,
        _ => Seq::empty(),
    }
}

/// The index key the encoder embeds is a pure function of the link: two
/// bundles built for the same `(address, tag)` carry byte-equal index
/// keys, whatever their bodies, timestamps and parent references. Sends
/// and receives therefore always agree on where a link's messages are
/// filed.
pub proof fn lemma_bundle_index_deterministic(
    m1: Message,
    m2: Message,
    address: Seq<u8>,
    tag: Seq<u8>,
    body1: Seq<u8>,
    body2: Seq<u8>,
    trunk1: MessageId,
    branch1: MessageId,
    trunk2: MessageId,
    branch2: MessageId,
)
    requires
        is_bundle_for(m1, address, tag, body1, trunk1, branch1),
        is_bundle_for(m2, address, tag, body2, trunk2, branch2),
    ensures
        bundle_index(m1) == bundle_index(m2),
        bundle_index(m1) == index_of(address, tag),
{
}

/// Codec round trip: any ledger message the encoder builds for a body is
/// decodable, and decodes back to exactly that body.
pub proof fn lemma_codec_round_trip(
    m: Message,
    address: Seq<u8>,
    tag: Seq<u8>,
    body: Seq<u8>,
    trunk: MessageId,
    branch: MessageId,
)
    requires
        is_bundle_for(m, address, tag, body, trunk, branch),
    ensures
        decodable(m),
        decoded_body(m) == body,
{
    lemma_hex_round_trip(body);
}

} // verus!
