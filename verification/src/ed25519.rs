//! Ed25519 keys and signatures as raw bytes, and the check of a detached
//! signature.
//!
//! The arithmetic is that of libsodium, reached through the `sodiumoxide`
//! crate. The contracts of the three calls are stated here and believed, not
//! proved.

use vstd::prelude::*;

verus! {

/// Number of bytes in a public key.
pub const PUBLICKEYBYTES: usize = 32;

/// Number of bytes in a signature.
pub const SIGNATUREBYTES: usize = 64;

/// The error of [`sodiumoxide::crypto::sign::Signature::from_bytes`]. Nothing
/// is read from it.
#[verifier::external_type_specification]
#[verifier::external_body]
pub struct ExSignatureError(sodiumoxide::crypto::sign::Error);

/// The byte strings that are taken for a signature: 64 bytes, the three
/// highest bits of the last byte unset.
pub open spec fn is_signature_encoding(bytes: Seq<u8>) -> bool {
    &&& bytes.len() == SIGNATUREBYTES
    &&& bytes[SIGNATUREBYTES - 1] & 0xe0 == 0
}

/// What [`sodiumoxide::crypto::sign::verify_detached`] answers for a
/// signature, a message and a public key: whether the signature is a valid
/// Ed25519 signature of the message under the key.
pub uninterp spec fn ed25519_verifies(signature: Seq<u8>, message: Seq<u8>, key: Seq<u8>) -> bool;

/// Calls [`sodiumoxide::crypto::sign::PublicKey::from_slice`].
///
/// Believed of it: it succeeds exactly on 32 bytes, and the key then holds
/// those bytes.
#[verifier::external_body]
pub(crate) fn public_key_from_slice(bytes: &[u8]) -> (key: Option<[u8; 32]>)
    ensures
        key is Some <==> bytes@.len() == PUBLICKEYBYTES,
        key matches Some(k) ==> k@ == bytes@,
{
    sodiumoxide::crypto::sign::PublicKey::from_slice(bytes).map(|k| k.0)
}

/// Calls [`sodiumoxide::crypto::sign::Signature::from_bytes`].
///
/// Believed of it: it succeeds exactly on 64 bytes of which the last has its
/// three highest bits unset, and the signature then holds those bytes.
#[verifier::external_body]
pub(crate) fn signature_from_bytes(bytes: &[u8]) -> (signature: Result<
    [u8; 64],
    sodiumoxide::crypto::sign::Error,
>)
    ensures
        signature is Ok <==> is_signature_encoding(bytes@),
        signature matches Ok(s) ==> s@ == bytes@,
{
    sodiumoxide::crypto::sign::Signature::from_bytes(bytes).map(|s| s.to_bytes())
}

/// Calls [`sodiumoxide::crypto::sign::verify_detached`].
///
/// Believed of it: its answer depends on the signature, the message and the
/// key alone. The signature has to be one that
/// [`sodiumoxide::crypto::sign::Signature::from_bytes`] takes.
#[verifier::external_body]
pub(crate) fn verify_detached_bytes(signature: &[u8; 64], message: &[u8], key: &[u8; 32]) -> (valid:
    bool)
    requires
        is_signature_encoding(signature@),
    ensures
        valid == ed25519_verifies(signature@, message@, key@),
{
    let signature = sodiumoxide::crypto::sign::Signature::from_bytes(signature).unwrap();
    let key = sodiumoxide::crypto::sign::PublicKey(*key);
    sodiumoxide::crypto::sign::verify_detached(&signature, message, &key)
}

} // verus!
