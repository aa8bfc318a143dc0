//! Constants of the wire format and the spec-level model of an envelope.

use vstd::prelude::*;

verus! {

/// Bytes in the symmetric nonce that opens the envelope.
pub const NONCE_BYTES: usize = 24;

/// Bytes in a curve25519 public key, secret key, and symmetric message key.
pub const KEY_BYTES: usize = 32;

/// Bytes in a secretbox authentication tag.
pub const TAG_BYTES: usize = 16;

/// Bytes in the plaintext of one slot: the recipient-count byte followed by
/// the 32-byte message key.
pub const PAYLOAD_BYTES: usize = 33;

/// Bytes in one sealed slot: the 33-byte payload plus the 16-byte tag.
pub const SLOT_BYTES: usize = 49;

/// Bytes before the first slot: the nonce and the ephemeral public key.
pub const HEADER_BYTES: usize = 56;

/// Ceiling on the number of recipients an envelope can name.
pub const MAX_RECIPIENTS: usize = 7;

/// Shortest well-formed envelope: header, one slot, and an empty sealed body
/// (which is nothing but its tag).
pub const MIN_ENVELOPE_BYTES: usize = 121;

/// The concatenation of a sequence of byte strings, in order.
pub open spec fn concat_bytes(parts: Seq<Seq<u8>>) -> Seq<u8>
    decreases parts.len(),
{
    if parts.len() == 0 {
        Seq::empty()
    } else {
        concat_bytes(parts.drop_last()) + parts.last()
    }
}

/// The views of a sequence of byte vectors.
pub open spec fn views(parts: Seq<Vec<u8>>) -> Seq<Seq<u8>> {
    parts.map_values(|p: Vec<u8>| p@)
}

/// Every part has exactly `width` bytes.
pub open spec fn all_sized(parts: Seq<Seq<u8>>, width: int) -> bool {
    forall|i: int| 0 <= i < parts.len() ==> (#[trigger] parts[i]).len() == width
}

/// The bytes of a whole envelope: nonce, ephemeral public key, the slots in
/// recipient order, then the sealed body.
pub open spec fn envelope_bytes(
    nonce: Seq<u8>,
    eph_pk: Seq<u8>,
    slots: Seq<Seq<u8>>,
    sealed_body: Seq<u8>,
) -> Seq<u8> {
    nonce + eph_pk + concat_bytes(slots) + sealed_body
}

/// Byte offset of slot `i` within an envelope.
pub open spec fn slot_offset(i: int) -> int {
    56 + 49 * i
}

/// Byte offset of the sealed body of an envelope with `n` slots.
pub open spec fn body_offset(n: int) -> int {
    56 + 49 * n
}

/// Whether an envelope of `env_len` bytes has room for slot `i` while still
/// leaving the 16 bytes that the body's own tag needs after it.
pub open spec fn slot_in_range(env_len: int, i: int) -> bool {
    slot_offset(i) + 49 + 16 <= env_len
}

/// Total length of an envelope with `n` slots and a sealed body of
/// `sealed_body_len` bytes.
pub open spec fn envelope_len(n: int, sealed_body_len: int) -> int {
    56 + 49 * n + sealed_body_len
}

} // verus!
