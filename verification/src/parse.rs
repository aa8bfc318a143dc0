//! The pure half of envelope parsing: the minimum-length gate, the exact
//! byte ranges of the header, the slots and the sealed body, and the state
//! kept while the slots are trial-opened.

use vstd::prelude::*;

use crate::bytes::copy_range;
use crate::layout::{
    slot_in_range, slot_offset, HEADER_BYTES, MAX_RECIPIENTS, MIN_ENVELOPE_BYTES,
    NONCE_BYTES, PAYLOAD_BYTES, SLOT_BYTES, TAG_BYTES,
};

verus! {

/// The fixed-position front of an envelope: the shared nonce and the
/// sender's ephemeral public key.
pub struct Header {
    pub nonce: Vec<u8>,
    pub eph_pk: Vec<u8>,
}

/// Reads the header of an envelope. Absent exactly when the input is shorter
/// than the minimum frame (header, one slot, and an empty sealed body), in
/// which case nobody could open it and the whole parse reports absence.
pub fn parse_header(env: &Vec<u8>) -> (r: Option<Header>)
    ensures
        r is Some <==> env@.len() >= MIN_ENVELOPE_BYTES,
        r matches Some(h) ==> h.nonce@ == env@.subrange(0, NONCE_BYTES as int) && h.eph_pk@
            == env@.subrange(NONCE_BYTES as int, HEADER_BYTES as int),
{
    if env.len() < MIN_ENVELOPE_BYTES {
        return None;
    }
    let nonce = copy_range(env, 0, NONCE_BYTES);
    let eph_pk = copy_range(env, NONCE_BYTES, HEADER_BYTES);
    Some(Header { nonce, eph_pk })
}

/// Reads the 49 bytes of slot `i`, if the envelope still has room for that
/// slot ahead of the 16 bytes the body's own tag needs. Indices past that
/// point lie beyond any possible slot region and yield absence, so a trial
/// decryption skips them.
pub fn slot_at(env: &Vec<u8>, i: usize) -> (r: Option<Vec<u8>>)
    requires
        i < MAX_RECIPIENTS,
    ensures
        r is Some <==> slot_in_range(env@.len() as int, i as int),
        r matches Some(s) ==> s@ == env@.subrange(slot_offset(i as int), slot_offset(i as int) + 49),
{
    let offset = HEADER_BYTES + SLOT_BYTES * i;
    if offset + SLOT_BYTES + TAG_BYTES <= env.len() {
        Some(copy_range(env, offset, offset + SLOT_BYTES))
    } else {
        None
    }
}

/// Splits an opened 33-byte slot payload into the recipient-count byte and
/// the 32-byte message key.
pub fn split_payload(payload: &Vec<u8>) -> (r: (u8, Vec<u8>))
    requires
        payload@.len() == PAYLOAD_BYTES,
    ensures
        r.0 == payload@[0],
        r.1@ == payload@.subrange(1, PAYLOAD_BYTES as int),
{
    let count = payload[0];
    let msg_key = copy_range(payload, 1, PAYLOAD_BYTES);
    (count, msg_key)
}

/// Reads the sealed body of an envelope whose opened slot said it has
/// `count` slots: everything from `56 + 49 * count` to the end. Absent
/// exactly when that range cannot hold even the body's 16-byte tag, which in
/// a well-formed envelope never happens and in a malformed one collapses
/// into the same absence the caller reports for any other failure.
pub fn body_slice(env: &Vec<u8>, count: u8) -> (r: Option<Vec<u8>>)
    ensures
        r is Some <==> 56 + 49 * (count as int) + 16 <= env@.len(),
        r matches Some(b) ==> b@ == env@.subrange(
            56 + 49 * (count as int),
            env@.len() as int,
        ),
{
    let offset = HEADER_BYTES + SLOT_BYTES * (count as usize);
    if offset + TAG_BYTES <= env.len() {
        Some(copy_range(env, offset, env.len()))
    } else {
        None
    }
}

/// The state of the slot scan of one decryption attempt.
///
/// Every slot index is tried in order against the shared key; the scan never
/// exits early, and a later successful open overwrites an earlier one, so
/// what is kept is the last slot that opened. For a correctly built envelope
/// at most one slot can open under a given key, so the policy only matters
/// for envelopes no builder produced.
pub struct SlotScan {
    found: bool,
    count: u8,
    msg_key: Vec<u8>,
}

impl SlotScan {
    /// Whether any slot has opened so far.
    pub closed spec fn found(self) -> bool {
        self.found
    }

    /// The recipient-count byte of the last slot that opened.
    pub closed spec fn count(self) -> u8 {
        self.count
    }

    /// The message key of the last slot that opened.
    pub closed spec fn key(self) -> Seq<u8> {
        self.msg_key@
    }

    /// A fresh scan, before any slot has been tried.
    pub fn new() -> (r: SlotScan)
        ensures
            !r.found(),
    {
        SlotScan { found: false, count: 0, msg_key: Vec::new() }
    }

    /// Records one successfully opened 33-byte slot payload, overwriting
    /// whatever an earlier slot yielded.
    pub fn record(&mut self, payload: &Vec<u8>)
        requires
            payload@.len() == PAYLOAD_BYTES,
        ensures
            final(self).found(),
            final(self).count() == payload@[0],
            final(self).key() == payload@.subrange(1, PAYLOAD_BYTES as int),
    {
        let (count, msg_key) = split_payload(payload);
        self.found = true;
        self.count = count;
        self.msg_key = msg_key;
    }

    /// Whether the scan has recovered a payload.
    pub fn has_found(&self) -> (r: bool)
        ensures
            r == self.found(),
    {
        self.found
    }

    /// The recovered recipient-count byte.
    pub fn recovered_count(&self) -> (r: u8)
        requires
            self.found(),
        ensures
            r == self.count(),
    {
        self.count
    }

    /// The recovered 32-byte message key.
    pub fn recovered_key(&self) -> (r: Vec<u8>)
        requires
            self.found(),
        ensures
            r@ == self.key(),
    {
        let r = copy_range(&self.msg_key, 0, self.msg_key.len());
        proof {
            assert(self.msg_key@.subrange(0, self.msg_key@.len() as int) =~= self.msg_key@);
        }
        r
    }
}

} // verus!
