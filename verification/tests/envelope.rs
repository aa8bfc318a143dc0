use private_box::builder::{assemble_envelope, capped_recipients, key_payload};
use private_box::layout::{
    HEADER_BYTES, KEY_BYTES, MAX_RECIPIENTS, MIN_ENVELOPE_BYTES, NONCE_BYTES, PAYLOAD_BYTES,
    SLOT_BYTES, TAG_BYTES,
};
use private_box::parse::{body_slice, parse_header, slot_at, split_payload, SlotScan};

fn patterned(len: usize, seed: u8) -> Vec<u8> {
    let mut v = Vec::new();
    let mut i: usize = 0;
    while i < len {
        v.push(seed.wrapping_add(i as u8));
        i += 1;
    }
    v
}

#[test]
fn constants_agree() {
    assert_eq!(HEADER_BYTES, NONCE_BYTES + KEY_BYTES);
    assert_eq!(SLOT_BYTES, PAYLOAD_BYTES + TAG_BYTES);
    assert_eq!(PAYLOAD_BYTES, 1 + KEY_BYTES);
    assert_eq!(MIN_ENVELOPE_BYTES, HEADER_BYTES + SLOT_BYTES + TAG_BYTES);
}

#[test]
fn length_is_deterministic() {
    for n in 1..=MAX_RECIPIENTS {
        for m in [0usize, 1, 3, 100] {
            let nonce = patterned(NONCE_BYTES, 1);
            let eph_pk = patterned(KEY_BYTES, 2);
            let mut slots = Vec::new();
            for s in 0..n {
                slots.push(patterned(SLOT_BYTES, s as u8));
            }
            let sealed_body = patterned(m + TAG_BYTES, 9);
            let env = assemble_envelope(&nonce, &eph_pk, &slots, &sealed_body);
            assert_eq!(env.len(), 56 + 49 * n + m + 16);
        }
    }
}

#[test]
fn concrete_two_recipient_layout() {
    // The scenario of a 3-byte plaintext and two recipients: the sealed body
    // is 3 + 16 bytes, and the whole envelope 56 + 49 * 2 + 3 + 16 bytes.
    let nonce = patterned(NONCE_BYTES, 10);
    let eph_pk = patterned(KEY_BYTES, 20);
    let slot0 = patterned(SLOT_BYTES, 30);
    let slot1 = patterned(SLOT_BYTES, 40);
    let sealed_body = patterned(3 + TAG_BYTES, 50);
    let slots = vec![slot0.clone(), slot1.clone()];
    let env = assemble_envelope(&nonce, &eph_pk, &slots, &sealed_body);
    assert_eq!(env.len(), 56 + 49 * 2 + 3 + 16);

    let header = parse_header(&env).unwrap();
    assert_eq!(header.nonce, nonce);
    assert_eq!(header.eph_pk, eph_pk);

    assert_eq!(slot_at(&env, 0).unwrap(), slot0);
    assert_eq!(slot_at(&env, 1).unwrap(), slot1);
    for i in 2..MAX_RECIPIENTS {
        assert!(slot_at(&env, i).is_none());
    }

    assert_eq!(body_slice(&env, 2).unwrap(), sealed_body);
}

#[test]
fn full_ceiling_layout() {
    let nonce = patterned(NONCE_BYTES, 3);
    let eph_pk = patterned(KEY_BYTES, 4);
    let mut slots = Vec::new();
    for s in 0..MAX_RECIPIENTS {
        slots.push(patterned(SLOT_BYTES, 100 + s as u8));
    }
    let sealed_body = patterned(TAG_BYTES, 5);
    let env = assemble_envelope(&nonce, &eph_pk, &slots, &sealed_body);
    assert_eq!(env.len(), 56 + 49 * 7 + 16);
    for (i, slot) in slots.iter().enumerate() {
        assert_eq!(&slot_at(&env, i).unwrap(), slot);
    }
    assert_eq!(body_slice(&env, 7).unwrap(), sealed_body);
}

#[test]
fn recipient_list_is_truncated_to_ceiling() {
    // Nine recipients: only the first seven, in input order, keep a slot.
    let mut recipients = Vec::new();
    for s in 0..9u8 {
        recipients.push(patterned(KEY_BYTES, s));
    }
    let capped = capped_recipients(&recipients);
    assert_eq!(capped.len(), 7);
    for i in 0..7 {
        assert_eq!(capped[i], recipients[i]);
    }
}

#[test]
fn small_recipient_lists_are_kept_whole() {
    for n in 0..=7usize {
        let mut recipients = Vec::new();
        for s in 0..n {
            recipients.push(patterned(KEY_BYTES, s as u8));
        }
        let capped = capped_recipients(&recipients);
        assert_eq!(capped, recipients);
    }
}

#[test]
fn short_input_is_rejected() {
    // Anything shorter than header + one slot + body tag cannot name a
    // recipient and is rejected outright.
    for len in [0usize, 1, 23, 24, 55, 56, 104, 120] {
        let env = patterned(len, 7);
        assert!(parse_header(&env).is_none());
    }
    let env = patterned(MIN_ENVELOPE_BYTES, 7);
    assert!(parse_header(&env).is_some());
}

#[test]
fn slot_window_respects_body_tag_reserve() {
    // With 121 bytes there is room for slot 0 only; each further slot needs
    // 49 more bytes.
    let env = patterned(121, 1);
    assert!(slot_at(&env, 0).is_some());
    for i in 1..MAX_RECIPIENTS {
        assert!(slot_at(&env, i).is_none());
    }
    let env = patterned(170, 1);
    assert!(slot_at(&env, 0).is_some());
    assert!(slot_at(&env, 1).is_some());
    assert!(slot_at(&env, 2).is_none());
}

#[test]
fn real_slots_stay_attempted_under_a_long_body() {
    // A long sealed body widens the scan window past the real slots; the
    // real slots must still be read back exactly from their own offsets.
    let nonce = patterned(NONCE_BYTES, 6);
    let eph_pk = patterned(KEY_BYTES, 7);
    let slot0 = patterned(SLOT_BYTES, 8);
    let slots = vec![slot0.clone()];
    let sealed_body = patterned(200 + TAG_BYTES, 9);
    let env = assemble_envelope(&nonce, &eph_pk, &slots, &sealed_body);
    assert_eq!(slot_at(&env, 0).unwrap(), slot0);
    // Later windows fall inside the body: they are attempted (and in a real
    // decryption fail to authenticate), not skipped.
    assert!(slot_at(&env, 1).is_some());
    assert_eq!(body_slice(&env, 1).unwrap(), sealed_body);
}

#[test]
fn payload_round_trip() {
    let msg_key = patterned(KEY_BYTES, 77);
    let payload = key_payload(5, &msg_key);
    assert_eq!(payload.len(), PAYLOAD_BYTES);
    assert_eq!(payload[0], 5);
    let (count, recovered) = split_payload(&payload);
    assert_eq!(count, 5);
    assert_eq!(recovered, msg_key);
}

#[test]
fn slot_scan_keeps_the_last_opened_slot() {
    let mut scan = SlotScan::new();
    assert!(!scan.has_found());

    let first = key_payload(2, &patterned(KEY_BYTES, 11));
    let second = key_payload(3, &patterned(KEY_BYTES, 22));
    scan.record(&first);
    assert!(scan.has_found());
    assert_eq!(scan.recovered_count(), 2);
    scan.record(&second);
    assert_eq!(scan.recovered_count(), 3);
    assert_eq!(scan.recovered_key(), patterned(KEY_BYTES, 22));
}

#[test]
fn body_slice_rejects_a_count_past_the_end() {
    // A hostile slot payload may claim more slots than the envelope holds;
    // the body range then cannot hold its own tag and the parse reports
    // absence instead of reading out of range.
    let env = patterned(56 + 49 * 2 + 3 + 16, 9);
    assert!(body_slice(&env, 2).is_some());
    assert!(body_slice(&env, 3).is_none());
    assert!(body_slice(&env, 255).is_none());
}
