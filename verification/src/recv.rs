//! The receiver's decision core.
//!
//! The connection layer looks an index key up, fetches every matching
//! ledger message concurrently, and hands the outcomes to the functions
//! here, which settle what the receive surface returns: an empty result for
//! a link nobody has written to, a typed error where contents are missing
//! or malformed, and otherwise the decoded bodies.

use vstd::prelude::*;

use crate::codec::{
    decodable, decode_failure, decoded_body, decodes_to, is_bundle_for, lemma_codec_round_trip,
    msg_from_tangle_message,
};
use crate::errors::TransportError;
use crate::link::TangleAddress;
use crate::message::{Message, MessageId, TangleMessage};

verus! {

/// Whether every fetched message can be unwrapped by the codec.
pub open spec fn all_decodable(s: Seq<Message>) -> bool {
    forall|i: int| 0 <= i < s.len() ==> decodable(#[trigger] s[i])
}

/// The position of the first message the codec rejects.
pub open spec fn first_undecodable(s: Seq<Message>) -> int
    decreases s.len(),
{
    if s.len() == 0 {
        0
    } else if !decodable(s[0]) {
        0
    } else {
        1 + first_undecodable(s.subrange(1, s.len() as int))
    }
}

proof fn lemma_first_undecodable(s: Seq<Message>, j: int)
    requires
        0 <= j < s.len(),
        !decodable(s[j]),
        forall|k: int| 0 <= k < j ==> decodable(#[trigger] s[k]),
    ensures
        first_undecodable(s) == j,
    decreases s.len(),
{
    if j > 0 {
        let tail = s.subrange(1, s.len() as int);
        lemma_first_undecodable(tail, j - 1);
    }
}

/// Unwrap a batch of fetched ledger messages, in fetch order.
///
/// One undecodable message aborts the whole batch: the result is the error
/// of the first message the codec rejects, and no partial batch is
/// returned.
pub fn decode_messages(msgs: &Vec<Message>, link: &TangleAddress) -> (r: Result<
    Vec<TangleMessage>,
    TransportError,
>)
    ensures
        all_decodable(msgs@) ==> (r matches Ok(ts) && ts@.len() == msgs@.len() && forall|i: int|
            0 <= i < msgs@.len() ==> decodes_to(msgs@[i], *link, #[trigger] ts@[i])),
        !all_decodable(msgs@) ==> r == Err::<Vec<TangleMessage>, TransportError>(
            decode_failure(msgs@[first_undecodable(msgs@)]),
        ),
{
    let mut out: Vec<TangleMessage> = Vec::new();
    let mut i: usize = 0;
    while i < msgs.len()
        invariant
            i <= msgs@.len(),
            out@.len() == i,
            forall|k: int| 0 <= k < i ==> decodable(#[trigger] msgs@[k]),
            forall|k: int| 0 <= k < i ==> decodes_to(msgs@[k], *link, #[trigger] out@[k]),
        decreases msgs@.len() - i,
    {
        match msg_from_tangle_message(&msgs[i], link) {
            Ok(t) => {
                out.push(t);
            },
            Err(e) => {
                proof {
                    lemma_first_undecodable(msgs@, i as int);
                }
                return Err(e);
            },
        }
        i += 1;
    }
    Ok(out)
}

/// Decide the index lookup's outcome as the connection layer hands it
/// over: `None` means the node request itself failed, which is
/// `ClientOperationFailure`; an answer passes through, even an empty one
/// (emptiness is decided downstream, where it is swallowed to an empty
/// batch).
pub fn lookup_ids(outcome: Option<Vec<MessageId>>) -> (r: Result<Vec<MessageId>, TransportError>)
    ensures
        outcome is None ==> r == Err::<Vec<MessageId>, TransportError>(
            TransportError::ClientOperationFailure,
        ),
        outcome matches Some(ids) ==> (r matches Ok(v) && v == ids),
{
    match outcome {
        Some(ids) => Ok(ids),
        None => Err(TransportError::ClientOperationFailure),
    }
}

/// Whether every fetch of the receive fan-out came back with a message.
pub open spec fn all_fetched(s: Seq<Option<Message>>) -> bool {
    forall|i: int| 0 <= i < s.len() ==> (#[trigger] s[i]) is Some
}

/// Decide the fetch fan-out's outcomes, fail-fast as on the send side: one
/// failed fetch fails the whole receive with `ClientOperationFailure`, and
/// no partial batch goes on to decoding.
pub fn check_fetch_outcomes(outcomes: &Vec<Option<Message>>) -> (r: Result<(), TransportError>)
    ensures
        all_fetched(outcomes@) ==> r is Ok,
        !all_fetched(outcomes@) ==> r == Err::<(), TransportError>(
            TransportError::ClientOperationFailure,
        ),
{
    let mut i: usize = 0;
    while i < outcomes.len()
        invariant
            i <= outcomes@.len(),
            forall|k: int| 0 <= k < i ==> (#[trigger] outcomes@[k]) is Some,
        decreases outcomes@.len() - i,
    {
        if outcomes[i].is_none() {
            return Err(TransportError::ClientOperationFailure);
        }
        i += 1;
    }
    Ok(())
}

/// The lookup step as the pipeline sees it internally: a key nothing is
/// filed under is `HashNotFound`. The public surface
/// (`recv_messages_from_node`) swallows exactly this error into an empty
/// batch, so a polling caller sees "nothing yet" as a non-fault.
pub fn check_found_ids(found_ids: &Vec<MessageId>) -> (r: Result<(), TransportError>)
    ensures
        found_ids@.len() == 0 ==> r == Err::<(), TransportError>(TransportError::HashNotFound),
        found_ids@.len() > 0 ==> r is Ok,
{
    if found_ids.len() == 0 {
        Err(TransportError::HashNotFound)
    } else {
        Ok(())
    }
}

/// Settle what the receive surface returns, given the outcomes of the index
/// lookup and the fan-out fetch for one link.
///
/// `found_ids` is what the lookup returned; `fetched` is what the fan-out
/// fetch brought back for those ids. A link with no index matches is not an
/// error: the caller polls, and "nothing yet" yields an empty batch. Ids
/// that match while no contents could be fetched are reported as
/// `TransactionContentsNotFound`.
pub fn recv_messages_from_node(
    found_ids: &Vec<MessageId>,
    fetched: &Vec<Message>,
    link: &TangleAddress,
) -> (r: Result<Vec<TangleMessage>, TransportError>)
    ensures
        found_ids@.len() == 0 ==> (r matches Ok(v) && v@.len() == 0),
        found_ids@.len() > 0 && fetched@.len() == 0 ==> r == Err::<
            Vec<TangleMessage>,
            TransportError,
        >(TransportError::TransactionContentsNotFound),
        found_ids@.len() > 0 && fetched@.len() > 0 ==> {
            &&& all_decodable(fetched@) ==> (r matches Ok(ts) && ts@.len() == fetched@.len()
                && forall|i: int|
                    0 <= i < fetched@.len() ==> decodes_to(fetched@[i], *link, #[trigger] ts@[i]))
            &&& !all_decodable(fetched@) ==> r == Err::<Vec<TangleMessage>, TransportError>(
                decode_failure(fetched@[first_undecodable(fetched@)]),
            )
        },
{
    if check_found_ids(found_ids).is_err() {
        // Nothing is filed under this index key: nothing has been sent yet,
        // which the polling caller must see as an empty batch, not a fault.
        return Ok(Vec::new());
    }
    if fetched.len() == 0 {
        return Err(TransportError::TransactionContentsNotFound);
    }
    decode_messages(fetched, link)
}

/// A receive returns what was sent: ledger messages each built by the codec
/// for some body are all decodable, and decode, entry for entry, to exactly
/// those bodies. Together with the contract of `recv_messages_from_node`,
/// a link under which N bodies were stored yields those N bodies back.
pub proof fn lemma_recv_matches_sent(
    msgs: Seq<Message>,
    address: Seq<u8>,
    tag: Seq<u8>,
    bodies: Seq<Seq<u8>>,
    trunks: Seq<MessageId>,
    branches: Seq<MessageId>,
)
    requires
        bodies.len() == msgs.len(),
        trunks.len() == msgs.len(),
        branches.len() == msgs.len(),
        forall|i: int|
            0 <= i < msgs.len() ==> is_bundle_for(
                #[trigger] msgs[i],
                address,
                tag,
                bodies[i],
                trunks[i],
                branches[i],
            ),
    ensures
        all_decodable(msgs),
        forall|i: int| 0 <= i < msgs.len() ==> decoded_body(#[trigger] msgs[i]) == bodies[i],
{
    assert forall|i: int|
        0 <= i < msgs.len() implies decodable(#[trigger] msgs[i]) && decoded_body(msgs[i])
        == bodies[i] by {
        lemma_codec_round_trip(msgs[i], address, tag, bodies[i], trunks[i], branches[i]);
    }
}

/// Enforce the single-writer read invariant of `recv_message`: a link must
/// hold exactly one message. None means nobody has written the slot; more
/// than one means the slot is ambiguous.
pub fn unique_message(msgs: Vec<TangleMessage>) -> (r: Result<TangleMessage, TransportError>)
    ensures
        msgs@.len() == 0 ==> r == Err::<TangleMessage, TransportError>(
            TransportError::MessageLinkNotFound,
        ),
        msgs@.len() == 1 ==> (r matches Ok(t) && t == msgs@[0]),
        msgs@.len() > 1 ==> r == Err::<TangleMessage, TransportError>(
            TransportError::MessageNotUnique,
        ),
{
    let mut rest = msgs;
    match rest.pop() {
        Some(last) => {
            if rest.len() == 0 {
                Ok(last)
            } else {
                Err(TransportError::MessageNotUnique)
            }
        },
        None => Err(TransportError::MessageLinkNotFound),
    }
}

} // verus!
