//! Hex text encoding of byte strings, as used for the ledger index key and
//! for the indexation payload data.
//!
//! The executable encoding and decoding are done by the `hex` crate; the
//! specification functions here state exactly what those calls return, and
//! the lemmas prove the round-trip and injectivity facts the codec needs.

use vstd::prelude::*;

verus! {

/// The lower-case hex digit (as an ASCII byte) for a nibble value.
pub open spec fn hex_digit(v: u8) -> u8
    recommends
        v < 16,
{
    if v < 10 {
        (v + 0x30) as u8
    } else {
        (v + 0x57) as u8
    }
}

/// The nibble value of an ASCII hex digit, upper or lower case;
/// `None` for any byte that is not a hex digit.
pub open spec fn hex_val(d: u8) -> Option<u8> {
    if 0x30 <= d <= 0x39 {
        Some((d - 0x30) as u8)
    } else if 0x61 <= d <= 0x66 {
        Some((d - 0x57) as u8)
    } else if 0x41 <= d <= 0x46 {
        Some((d - 0x37) as u8)
    } else {
        None
    }
}

/// The lower-case hex text for a byte string: two digits per byte,
/// high nibble first.
pub open spec fn hex_of(s: Seq<u8>) -> Seq<u8>
    decreases s.len(),
{
    if s.len() == 0 {
        Seq::empty()
    } else {
        seq![hex_digit(s[0] / 16), hex_digit(s[0] % 16)] + hex_of(s.subrange(1, s.len() as int))
    }
}

/// Whether a byte string is well-formed hex text: even length, every byte a
/// hex digit (either case).
pub open spec fn is_hex_text(s: Seq<u8>) -> bool {
    s.len() % 2 == 0 && forall|i: int| 0 <= i < s.len() ==> (#[trigger] hex_val(s[i])) is Some
}

/// The byte string a well-formed hex text decodes to.
pub open spec fn hex_bytes(s: Seq<u8>) -> Seq<u8>
    recommends
        is_hex_text(s),
    decreases s.len(),
{
    if s.len() < 2 {
        Seq::empty()
    } else {
        seq![(hex_val(s[0]).unwrap() * 16 + hex_val(s[1]).unwrap()) as u8]
            + hex_bytes(s.subrange(2, s.len() as int))
    }
}

/// Relies on hex::encode: it writes each input byte as two lower-case hex
/// digits, high nibble first, and nothing else.
#[verifier::external_body]
pub(crate) fn hex_encode(b: &[u8]) -> (r: Vec<u8>)
    ensures
        r@ == hex_of(b@),
{
    hex::encode(b).into_bytes()
}

/// Relies on hex::decode: it succeeds exactly on even-length strings of hex
/// digits (either case) and then returns the bytes those digit pairs denote.
#[verifier::external_body]
pub(crate) fn hex_decode(s: &[u8]) -> (r: Option<Vec<u8>>)
    ensures
        r is Some <==> is_hex_text(s@),
        r is Some ==> r.unwrap()@ == hex_bytes(s@),
{
    hex::decode(s).ok()
}

/// Each nibble's digit decodes back to that nibble.
proof fn lemma_digit_val(v: u8)
    requires
        v < 16,
    ensures
        hex_val(hex_digit(v)) == Some(v),
{
}

/// Hex text produced by `hex_of` is well-formed and twice as long as its
/// source.
pub proof fn lemma_hex_of_wf(s: Seq<u8>)
    ensures
        hex_of(s).len() == 2 * s.len(),
        is_hex_text(hex_of(s)),
    decreases s.len(),
{
    if s.len() == 0 {
    } else {
        let tail = s.subrange(1, s.len() as int);
        lemma_hex_of_wf(tail);
        let h = hex_of(s);
        assert(h.len() == 2 + hex_of(tail).len());
        assert forall|i: int| 0 <= i < h.len() implies (#[trigger] hex_val(h[i])) is Some by {
            if i == 0 {
                lemma_digit_val(s[0] / 16);
            } else if i == 1 {
                lemma_digit_val(s[0] % 16);
            } else {
                assert(h[i] == hex_of(tail)[i - 2]);
            }
        }
    }
}

/// Round trip: decoding the hex text of a byte string gives that byte string
/// back.
pub proof fn lemma_hex_round_trip(s: Seq<u8>)
    ensures
        is_hex_text(hex_of(s)),
        hex_bytes(hex_of(s)) == s,
    decreases s.len(),
{
    lemma_hex_of_wf(s);
    if s.len() == 0 {
        assert(hex_bytes(hex_of(s)) =~= s);
    } else {
        let tail = s.subrange(1, s.len() as int);
        lemma_hex_round_trip(tail);
        let h = hex_of(s);
        let pair = seq![hex_digit(s[0] / 16), hex_digit(s[0] % 16)];
        assert(h == pair + hex_of(tail));
        lemma_hex_of_wf(tail);
        assert(h.subrange(2, h.len() as int) =~= hex_of(tail));
        lemma_digit_val(s[0] / 16);
        lemma_digit_val(s[0] % 16);
        assert(hex_val(h[0]).unwrap() * 16 + hex_val(h[1]).unwrap() == (s[0] / 16) * 16 + s[0] % 16);
        assert((s[0] / 16) * 16 + s[0] % 16 == s[0]) by (nonlinear_arith);
        assert(hex_bytes(h) =~= s);
    }
}

/// Hex encoding is injective: equal hex texts come only from equal byte
/// strings.
pub proof fn lemma_hex_of_injective(a: Seq<u8>, b: Seq<u8>)
    requires
        hex_of(a) == hex_of(b),
    ensures
        a == b,
{
    lemma_hex_round_trip(a);
    lemma_hex_round_trip(b);
}

} // verus!
