//! Proved laws of the envelope layout: length determinism, and that the
//! header, each slot, and the sealed body can be read back exactly from an
//! assembled envelope.

use vstd::prelude::*;

use crate::layout::{
    all_sized, body_offset, concat_bytes, envelope_bytes, envelope_len, slot_in_range, slot_offset,
};

verus! {

/// Concatenating one more part appends exactly that part's bytes.
pub proof fn lemma_concat_take_step(parts: Seq<Seq<u8>>, i: int)
    requires
        0 <= i < parts.len(),
    ensures
        concat_bytes(parts.take(i + 1)) == concat_bytes(parts.take(i)) + parts[i],
{
    assert(parts.take(i + 1).drop_last() =~= parts.take(i));
    assert(parts.take(i + 1).last() == parts[i]);
}

/// The concatenation of `n` slots of 49 bytes each has exactly `49 * n` bytes.
pub proof fn lemma_concat_slots_len(slots: Seq<Seq<u8>>)
    requires
        all_sized(slots, 49),
    ensures
        concat_bytes(slots).len() == 49 * slots.len(),
    decreases slots.len(),
{
    if slots.len() > 0 {
        assert(all_sized(slots.drop_last(), 49));
        lemma_concat_slots_len(slots.drop_last());
    }
}

/// Within the concatenation of 49-byte slots, slot `i` stands exactly at
/// bytes `[49 * i, 49 * i + 49)`.
pub proof fn lemma_concat_slot_at(slots: Seq<Seq<u8>>, i: int)
    requires
        all_sized(slots, 49),
        0 <= i < slots.len(),
    ensures
        concat_bytes(slots).subrange(49 * i, 49 * i + 49) == slots[i],
    decreases slots.len(),
{
    let n = slots.len() as int;
    assert(all_sized(slots.drop_last(), 49));
    lemma_concat_slots_len(slots.drop_last());
    lemma_concat_slots_len(slots);
    if i < n - 1 {
        lemma_concat_slot_at(slots.drop_last(), i);
        assert(concat_bytes(slots).subrange(49 * i, 49 * i + 49) =~= concat_bytes(
            slots.drop_last(),
        ).subrange(49 * i, 49 * i + 49));
    } else {
        assert(concat_bytes(slots).subrange(49 * i, 49 * i + 49) =~= slots.last());
    }
}

/// Length determinism: an envelope with `n` slots and a given sealed body has
/// exactly `56 + 49 * n + sealed_body.len()` bytes.
pub proof fn lemma_envelope_length(
    nonce: Seq<u8>,
    eph_pk: Seq<u8>,
    slots: Seq<Seq<u8>>,
    sealed_body: Seq<u8>,
)
    requires
        nonce.len() == 24,
        eph_pk.len() == 32,
        all_sized(slots, 49),
    ensures
        envelope_bytes(nonce, eph_pk, slots, sealed_body).len() == envelope_len(
            slots.len() as int,
            sealed_body.len() as int,
        ),
{
    lemma_concat_slots_len(slots);
}

/// Header round-trip: the first 24 bytes of an assembled envelope are the
/// nonce and the next 32 are the ephemeral public key, exactly as given.
pub proof fn lemma_envelope_header(
    nonce: Seq<u8>,
    eph_pk: Seq<u8>,
    slots: Seq<Seq<u8>>,
    sealed_body: Seq<u8>,
)
    requires
        nonce.len() == 24,
        eph_pk.len() == 32,
    ensures
        envelope_bytes(nonce, eph_pk, slots, sealed_body).subrange(0, 24) == nonce,
        envelope_bytes(nonce, eph_pk, slots, sealed_body).subrange(24, 56) == eph_pk,
{
    assert(envelope_bytes(nonce, eph_pk, slots, sealed_body).subrange(0, 24) =~= nonce);
    assert(envelope_bytes(nonce, eph_pk, slots, sealed_body).subrange(24, 56) =~= eph_pk);
}

/// Slot round-trip: reading bytes `[slot_offset(i), slot_offset(i) + 49)` of
/// an assembled envelope gives back slot `i` exactly as it was sealed.
pub proof fn lemma_envelope_slot(
    nonce: Seq<u8>,
    eph_pk: Seq<u8>,
    slots: Seq<Seq<u8>>,
    sealed_body: Seq<u8>,
    i: int,
)
    requires
        nonce.len() == 24,
        eph_pk.len() == 32,
        all_sized(slots, 49),
        0 <= i < slots.len(),
    ensures
        envelope_bytes(nonce, eph_pk, slots, sealed_body).subrange(
            slot_offset(i),
            slot_offset(i) + 49,
        ) == slots[i],
{
    lemma_concat_slots_len(slots);
    lemma_concat_slot_at(slots, i);
    assert(envelope_bytes(nonce, eph_pk, slots, sealed_body).subrange(
        slot_offset(i),
        slot_offset(i) + 49,
    ) =~= concat_bytes(slots).subrange(49 * i, 49 * i + 49));
}

/// Body round-trip: reading an assembled envelope from `body_offset(n)` to
/// its end gives back the sealed body exactly as it was appended.
pub proof fn lemma_envelope_body(
    nonce: Seq<u8>,
    eph_pk: Seq<u8>,
    slots: Seq<Seq<u8>>,
    sealed_body: Seq<u8>,
)
    requires
        nonce.len() == 24,
        eph_pk.len() == 32,
        all_sized(slots, 49),
    ensures
        envelope_bytes(nonce, eph_pk, slots, sealed_body).subrange(
            body_offset(slots.len() as int),
            envelope_bytes(nonce, eph_pk, slots, sealed_body).len() as int,
        ) == sealed_body,
{
    lemma_concat_slots_len(slots);
    assert(envelope_bytes(nonce, eph_pk, slots, sealed_body).subrange(
        body_offset(slots.len() as int),
        envelope_bytes(nonce, eph_pk, slots, sealed_body).len() as int,
    ) =~= sealed_body);
}

/// Scan completeness: in an envelope with `n` slots whose sealed body holds
/// at least its 16-byte tag, every one of the `n` slots lies inside the
/// window the trial scan attempts, so no recipient's slot is ever skipped.
pub proof fn lemma_built_slots_attempted(n: int, sealed_body_len: int, i: int)
    requires
        0 <= i < n,
        sealed_body_len >= 16,
    ensures
        slot_in_range(envelope_len(n, sealed_body_len), i),
{
}

/// Payload round-trip: splitting the 33-byte payload built from a count
/// byte and a 32-byte message key gives both back exactly.
pub proof fn lemma_payload_roundtrip(count: u8, msg_key: Seq<u8>)
    requires
        msg_key.len() == 32,
    ensures
        (seq![count] + msg_key)[0] == count,
        (seq![count] + msg_key).subrange(1, 33) == msg_key,
{
    assert((seq![count] + msg_key).subrange(1, 33) =~= msg_key);
}

/// Malformed-input rejection: an input shorter than the minimum frame of
/// `56 + 49 + 16` bytes has no slot in range at all, so a parse attempts
/// nothing and reports absence.
pub proof fn lemma_short_envelope_has_no_slot(env_len: int, i: int)
    requires
        env_len < 121,
        0 <= i,
    ensures
        !slot_in_range(env_len, i),
{
}

} // verus!
