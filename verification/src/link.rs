//! Protocol-level message addresses and the link codec.
//!
//! A `TangleAddress` names a logical message slot: an application-instance
//! identifier plus a message identifier, both plain byte strings. The link
//! codec turns such an address into the ledger-searchable index key: the hex
//! text of the two parts concatenated. The key is a pure function of the
//! address, so senders and receivers always agree on it.

use vstd::prelude::*;

use crate::encoding::{hex_encode, hex_of, lemma_hex_of_injective};

verus! {

/// A protocol-level address: application instance plus message identifier.
/// Immutable once constructed; equality is byte-wise.
#[derive(Clone, Debug, Hash)]
pub struct TangleAddress {
    pub appinst: Vec<u8>,
    pub msgid: Vec<u8>,
}

/// The index key an address is looked up under: hex text of the
/// application-instance bytes followed by the message-id bytes.
pub open spec fn index_of(appinst: Seq<u8>, msgid: Seq<u8>) -> Seq<u8> {
    hex_of(appinst + msgid)
}

impl TangleAddress {
    pub fn new(appinst: Vec<u8>, msgid: Vec<u8>) -> (r: Self)
        ensures
            r.appinst@ == appinst@,
            r.msgid@ == msgid@,
    {
        TangleAddress { appinst, msgid }
    }

    /// Encode this address as its ledger index key. Total and deterministic:
    /// the result is fixed by the address bytes alone.
    pub fn to_index(&self) -> (r: Vec<u8>)
        ensures
            r@ == index_of(self.appinst@, self.msgid@),
    {
        let mut joined: Vec<u8> = vstd::slice::slice_to_vec(self.appinst.as_slice());
        let mut tail_part: Vec<u8> = vstd::slice::slice_to_vec(self.msgid.as_slice());
        joined.append(&mut tail_part);
        hex_encode(joined.as_slice())
    }
}

impl PartialEq for TangleAddress {
    fn eq(&self, other: &Self) -> (r: bool) {
        let same_appinst = self.appinst == other.appinst;
        let same_msgid = self.msgid == other.msgid;
        proof {
            // element-wise equality of the byte vectors is their view equality
            if same_appinst {
                assert(self.appinst@ =~= other.appinst@);
            }
            if same_msgid {
                assert(self.msgid@ =~= other.msgid@);
            }
        }
        same_appinst && same_msgid
    }
}

impl vstd::std_specs::cmp::PartialEqSpecImpl for TangleAddress {
    open spec fn obeys_eq_spec() -> bool {
        true
    }

    open spec fn eq_spec(&self, other: &Self) -> bool {
        self.appinst@ == other.appinst@ && self.msgid@ == other.msgid@
    }
}

/// The link codec is injective: among addresses whose application-instance
/// parts have the same byte length, equal index keys come only from equal
/// addresses.
pub proof fn lemma_index_injective(a1: Seq<u8>, m1: Seq<u8>, a2: Seq<u8>, m2: Seq<u8>)
    requires
        a1.len() == a2.len(),
        index_of(a1, m1) == index_of(a2, m2),
    ensures
        a1 == a2,
        m1 == m2,
{
    lemma_hex_of_injective(a1 + m1, a2 + m2);
    assert(a1 =~= (a1 + m1).subrange(0, a1.len() as int));
    assert(a2 =~= (a2 + m2).subrange(0, a2.len() as int));
    assert(m1 =~= (a1 + m1).subrange(a1.len() as int, (a1 + m1).len() as int));
    assert(m2 =~= (a2 + m2).subrange(a2.len() as int, (a2 + m2).len() as int));
}

} // verus!
