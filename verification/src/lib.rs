//! Verified byte-level logic for the "private-box" multi-recipient encryption
//! envelope format.
//!
//! An envelope is `nonce ++ ephemeral_pubkey ++ slot_1 ++ ... ++ slot_n ++
//! sealed_body`, where each 49-byte slot wraps the 32-byte message key
//! (prefixed with the recipient-count byte) for one recipient, and the sealed
//! body carries the plaintext under the message key with a 16-byte
//! authentication tag.
//!
//! This crate holds everything about the format that is pure byte layout:
//! capping the recipient list, building the key payload, assembling the
//! envelope, and parsing the header, slots and body back out of it, together
//! with proofs that parsing inverts assembly. The cryptographic primitives
//! themselves (secretbox seal/open, curve25519 key agreement, random
//! generation) are supplied by the caller from libsodium and are out of this
//! crate's scope.

pub mod builder;
pub mod bytes;
pub mod laws;
pub mod layout;
pub mod parse;
