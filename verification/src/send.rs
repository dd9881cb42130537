//! The sender's decision core.
//!
//! Sending is: resolve two ledger tips, wrap the body, submit the wrapped
//! messages concurrently. The connection layer performs the two node calls
//! and hands their outcomes to the functions here, which settle what the
//! send surface returns.

use vstd::prelude::*;

use crate::codec::{is_bundle_for, msg_to_tangle, MAX_BODY_BYTES};
use crate::errors::TransportError;
use crate::message::{BinaryMessage, Message, MessageId};

verus! {

/// Wrap an outbound message once the tip resolution has come back.
///
/// `tips` is the node's answer to the tip request: the two current tips, or
/// `None` where the request itself failed, which surfaces as
/// `ClientOperationFailure`. Tips are advisory: they may be superseded
/// before submission, and nothing here claims otherwise.
pub fn prepare_send(msg: &BinaryMessage, timestamp: u64, tips: Option<(MessageId, MessageId)>) -> (r:
    Result<Vec<Message>, TransportError>)
    ensures
        tips is None ==> r == Err::<Vec<Message>, TransportError>(
            TransportError::ClientOperationFailure,
        ),
        tips matches Some(t) ==> {
            &&& msg.body@.len() <= MAX_BODY_BYTES ==> (r matches Ok(v) && v@.len() == 1
                && is_bundle_for(
                v@[0],
                msg.link.appinst@,
                msg.link.msgid@,
                msg.body@,
                t.0,
                t.1,
            ))
            &&& msg.body@.len() > MAX_BODY_BYTES ==> r == Err::<Vec<Message>, TransportError>(
                TransportError::PayloadSizeExceeded,
            )
        },
{
    match tips {
        Some((trunk, branch)) => msg_to_tangle(msg, timestamp, trunk, branch),
        None => Err(TransportError::ClientOperationFailure),
    }
}

/// Whether every concurrent submission came back with an assigned id.
pub open spec fn all_posted(s: Seq<Option<MessageId>>) -> bool {
    forall|i: int| 0 <= i < s.len() ==> (#[trigger] s[i]) is Some
}

/// Collect the outcomes of the submission fan-out, fail-fast.
///
/// `results` holds one entry per submission, in the order the results
/// became available (which need not be the input order): the assigned id,
/// or `None` where that submission failed. One failure makes the whole
/// batch fail with `ClientOperationFailure`; no partial result is returned.
pub fn collect_send_results(results: &Vec<Option<MessageId>>) -> (r: Result<
    Vec<MessageId>,
    TransportError,
>)
    ensures
        all_posted(results@) ==> (r matches Ok(ids) && ids@.len() == results@.len() && forall|
            i: int,
        |
            0 <= i < results@.len() ==> (#[trigger] ids@[i]).bytes@
                == results@[i].unwrap().bytes@),
        !all_posted(results@) ==> r == Err::<Vec<MessageId>, TransportError>(
            TransportError::ClientOperationFailure,
        ),
{
    let mut ids: Vec<MessageId> = Vec::new();
    let mut i: usize = 0;
    while i < results.len()
        invariant
            i <= results@.len(),
            ids@.len() == i,
            forall|k: int| 0 <= k < i ==> (#[trigger] results@[k]) is Some,
            forall|k: int|
                0 <= k < i ==> (#[trigger] ids@[k]).bytes@ == results@[k].unwrap().bytes@,
        decreases results@.len() - i,
    {
        match &results[i] {
            Some(id) => {
                ids.push(MessageId { bytes: vstd::slice::slice_to_vec(id.bytes.as_slice()) });
            },
            None => {
                return Err(TransportError::ClientOperationFailure);
            },
        }
        i += 1;
    }
    Ok(ids)
}

} // verus!
