//! The pure half of envelope building: capping the recipient list, forming
//! the slot payload, and assembling the final envelope from its sealed parts.

use vstd::prelude::*;

use crate::bytes::push_all;
use crate::laws::{lemma_concat_take_step, lemma_envelope_length};
use crate::layout::{
    all_sized, concat_bytes, envelope_bytes, envelope_len, views, KEY_BYTES,
    MAX_RECIPIENTS, NONCE_BYTES, PAYLOAD_BYTES, SLOT_BYTES,
};

verus! {

/// How many recipients actually receive a slot: the list's length, capped at
/// the 7-recipient ceiling.
pub open spec fn capped_count(n_recipients: int) -> int {
    if n_recipients < 7 {
        n_recipients
    } else {
        7
    }
}

/// Returns the recipients that receive a slot: the first `min(len, 7)`
/// entries of `recipients`, in input order. A longer list is truncated to the
/// ceiling; the excess entries get no slot.
pub fn capped_recipients(recipients: &Vec<Vec<u8>>) -> (r: Vec<Vec<u8>>)
    ensures
        r@.len() == capped_count(recipients@.len() as int),
        forall|i: int| 0 <= i < r@.len() ==> #[trigger] r@[i]@ == recipients@[i]@,
{
    let count: usize = if recipients.len() < MAX_RECIPIENTS {
        recipients.len()
    } else {
        MAX_RECIPIENTS
    };
    let mut r: Vec<Vec<u8>> = Vec::new();
    let mut i: usize = 0;
    while i < count
        invariant
            i <= count,
            count == capped_count(recipients@.len() as int),
            r@.len() == i,
            forall|j: int| 0 <= j < i ==> #[trigger] r@[j]@ == recipients@[j]@,
        decreases count - i,
    {
        let mut key: Vec<u8> = Vec::new();
        push_all(&mut key, &recipients[i]);
        proof {
            assert(key@ =~= recipients@[i as int]@);
        }
        r.push(key);
        i = i + 1;
    }
    r
}

/// Builds the 33-byte plaintext of every slot: the effective recipient count
/// as one byte, followed by the 32-byte message key.
pub fn key_payload(count: u8, msg_key: &Vec<u8>) -> (r: Vec<u8>)
    requires
        msg_key@.len() == KEY_BYTES,
    ensures
        r@ == seq![count] + msg_key@,
        r@.len() == PAYLOAD_BYTES,
{
    let mut r: Vec<u8> = Vec::new();
    r.push(count);
    push_all(&mut r, msg_key);
    proof {
        assert(r@ =~= seq![count] + msg_key@);
    }
    r
}

/// Assembles the envelope from its already-sealed parts: the nonce, the
/// ephemeral public key, the 49-byte slots in recipient order, and the sealed
/// body. The result is their exact concatenation.
pub fn assemble_envelope(
    nonce: &Vec<u8>,
    eph_pk: &Vec<u8>,
    slots: &Vec<Vec<u8>>,
    sealed_body: &Vec<u8>,
) -> (r: Vec<u8>)
    requires
        nonce@.len() == NONCE_BYTES,
        eph_pk@.len() == KEY_BYTES,
        slots@.len() <= MAX_RECIPIENTS,
        all_sized(views(slots@), SLOT_BYTES as int),
    ensures
        r@ == envelope_bytes(nonce@, eph_pk@, views(slots@), sealed_body@),
        r@.len() == envelope_len(slots@.len() as int, sealed_body@.len() as int),
{
    let mut r: Vec<u8> = Vec::new();
    push_all(&mut r, nonce);
    push_all(&mut r, eph_pk);
    let mut i: usize = 0;
    while i < slots.len()
        invariant
            i <= slots@.len(),
            r@ == nonce@ + eph_pk@ + concat_bytes(views(slots@).take(i as int)),
        decreases slots@.len() - i,
    {
        push_all(&mut r, &slots[i]);
        proof {
            lemma_concat_take_step(views(slots@), i as int);
            assert(views(slots@)[i as int] == slots@[i as int]@);
            assert(nonce@ + eph_pk@ + concat_bytes(views(slots@).take(i + 1)) =~= (nonce@ + eph_pk@
                + concat_bytes(views(slots@).take(i as int))) + slots@[i as int]@);
        }
        i = i + 1;
    }
    proof {
        assert(views(slots@).take(slots@.len() as int) =~= views(slots@));
    }
    push_all(&mut r, sealed_body);
    proof {
        assert(r@ =~= envelope_bytes(nonce@, eph_pk@, views(slots@), sealed_body@));
        lemma_envelope_length(nonce@, eph_pk@, views(slots@), sealed_body@);
    }
    r
}

} // verus!
