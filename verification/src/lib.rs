//! Verification of signed announcements: a trust policy over the outcome of a
//! signature check, a decoder for key identifiers, and a detached-signature
//! verifier over a fixed Ed25519 key.

pub mod ed25519;
pub mod encoding;
pub mod kbsig;
pub mod key_id;
pub mod policy;
