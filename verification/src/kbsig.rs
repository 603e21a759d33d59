//! Detached signatures over an explicit payload, and the signature envelope
//! that carries one.
//!
//! An envelope arrives as Base64 text around a binary encoding of
//! `{ body: { sig, payload } }`. This module unwraps the text and verifies the
//! two byte strings; reading them out of the binary encoding is the caller's
//! part.

use vstd::prelude::*;
use vstd::string::StringSliceAdditionalSpecFns;
use crate::ed25519::{
    ed25519_verifies, is_signature_encoding, signature_from_bytes, verify_detached_bytes,
    SIGNATUREBYTES,
};
use crate::encoding::{base64_decode, base64_value};
use crate::key_id::PublicKey;

verus! {

/// Why a payload is not returned as verified.
#[derive(Debug, Clone, Copy, PartialEq, Eq, Structural)]
pub enum VerifyError {
    /// The input is not framed as it should be: text that is not Base64, or a
    /// signature that is not 64 bytes long.
    MalformedInput,
    /// The signature is not a valid signature of the payload under the key.
    BadSignature,
}

impl VerifyError {
    /// The text of [`VerifyError::message`].
    pub open spec fn message_text(self) -> Seq<char> {
        match self {
            VerifyError::MalformedInput => "malformed input"@,
            VerifyError::BadSignature => "signature verification failed"@,
        }
    }

    /// A line of text for a person to read.
    pub fn message(&self) -> (text: &'static str)
        ensures
            text@ == self.message_text(),
    {
        match self {
            VerifyError::MalformedInput => "malformed input",
            VerifyError::BadSignature => "signature verification failed",
        }
    }
}

/// A detached signature together with the payload that it signs.
#[derive(Debug, Clone, PartialEq, Eq)]
pub struct SignedEnvelope {
    /// The signature over `payload`.
    pub sig: Vec<u8>,
    /// The signed bytes.
    pub payload: Vec<u8>,
}

/// The outcome of a verification, with the payload by its view.
pub open spec fn verified_view(verified: Result<Vec<u8>, VerifyError>) -> Result<
    Seq<u8>,
    VerifyError,
> {
    match verified {
        Ok(payload) => Ok(payload@),
        Err(e) => Err(e),
    }
}

/// What becomes of a payload once its signature has been checked: it is
/// handed on unchanged if the signature is valid, and withheld if not.
pub open spec fn checked_payload(valid: bool, payload: Seq<u8>) -> Result<Seq<u8>, VerifyError> {
    if valid {
        Ok(payload)
    } else {
        Err(VerifyError::BadSignature)
    }
}

/// Whether the bytes are a valid signature of the payload under the key.
/// Bytes that are no signature at all are not.
pub open spec fn is_valid_signature(signature: Seq<u8>, payload: Seq<u8>, key: Seq<u8>) -> bool {
    is_signature_encoding(signature) && ed25519_verifies(signature, payload, key)
}

/// The verdict on a detached signature over a payload.
pub open spec fn detached_verdict(signature: Seq<u8>, payload: Seq<u8>, key: Seq<u8>) -> Result<
    Seq<u8>,
    VerifyError,
> {
    if signature.len() != SIGNATUREBYTES {
        Err(VerifyError::MalformedInput)
    } else {
        checked_payload(is_valid_signature(signature, payload, key), payload)
    }
}

/// What the text of an envelope unwraps to.
pub open spec fn envelope_text_verdict(text: Seq<u8>) -> Result<Seq<u8>, VerifyError> {
    match base64_value(text) {
        Some(bytes) => Ok(bytes),
        None => Err(VerifyError::MalformedInput),
    }
}

/// Hands the payload on if its signature was found valid.
pub fn payload_if_valid(valid: bool, payload: Vec<u8>) -> (verified: Result<Vec<u8>, VerifyError>)
    ensures
        verified_view(verified) == checked_payload(valid, payload@),
{
    if !valid {
        return Err(VerifyError::BadSignature);
    }
    Ok(payload)
}

/// Verifies a detached signature over a payload under a fixed key, and
/// returns the payload unchanged if the signature is valid.
pub fn verify_detached(signature: &[u8], payload: Vec<u8>, key: &PublicKey) -> (verified: Result<
    Vec<u8>,
    VerifyError,
>)
    ensures
        verified_view(verified) == detached_verdict(signature@, payload@, key@),
{
    if signature.len() != SIGNATUREBYTES {
        return Err(VerifyError::MalformedInput);
    }
    let valid = match signature_from_bytes(signature) {
        Ok(sig) => verify_detached_bytes(&sig, payload.as_slice(), &key.0),
        Err(_) => false,
    };
    payload_if_valid(valid, payload)
}

/// Verifies the signature of an envelope under a fixed key, and returns the
/// payload of the envelope if the signature is valid.
pub fn verify_kbsig(envelope: SignedEnvelope, key: &PublicKey) -> (verified: Result<
    Vec<u8>,
    VerifyError,
>)
    ensures
        verified_view(verified) == detached_verdict(envelope.sig@, envelope.payload@, key@),
{
    let SignedEnvelope { sig, payload } = envelope;
    verify_detached(sig.as_slice(), payload, key)
}

/// Unwraps the Base64 text of an envelope to the bytes that it encodes.
pub fn decode_envelope_text(signed_message: &str) -> (decoded: Result<Vec<u8>, VerifyError>)
    ensures
        verified_view(decoded) == envelope_text_verdict(signed_message.spec_bytes()),
{
    match base64_decode(signed_message.as_bytes()) {
        Some(bytes) => Ok(bytes),
        None => Err(VerifyError::MalformedInput),
    }
}

/// A payload with a valid signature comes back exactly as it went in.
pub proof fn lemma_valid_signature_returns_payload(
    signature: Seq<u8>,
    payload: Seq<u8>,
    key: Seq<u8>,
)
    requires
        is_valid_signature(signature, payload, key),
    ensures
        detached_verdict(signature, payload, key) == Ok::<Seq<u8>, VerifyError>(payload),
{
}

/// A payload whose signature is not valid under the key is never returned:
/// the verdict is a bad signature, or malformed input where the signature is
/// not even of the right length.
pub proof fn lemma_invalid_signature_is_rejected(
    signature: Seq<u8>,
    payload: Seq<u8>,
    key: Seq<u8>,
)
    requires
        !is_valid_signature(signature, payload, key),
    ensures
        detached_verdict(signature, payload, key) is Err,
        signature.len() == SIGNATUREBYTES ==> detached_verdict(signature, payload, key) == Err::<
            Seq<u8>,
            VerifyError,
        >(VerifyError::BadSignature),
        signature.len() != SIGNATUREBYTES ==> detached_verdict(signature, payload, key) == Err::<
            Seq<u8>,
            VerifyError,
        >(VerifyError::MalformedInput),
{
}

/// The only payload that a verification returns is the one it was given.
pub proof fn lemma_returned_payload_is_the_signed_one(
    signature: Seq<u8>,
    payload: Seq<u8>,
    key: Seq<u8>,
)
    ensures
        detached_verdict(signature, payload, key) matches Ok(returned) ==> returned == payload
            && is_valid_signature(signature, payload, key),
{
}

/// The verdict depends on signature, payload and key alone: the same three
/// give the same verdict.
pub proof fn lemma_verification_is_repeatable(
    signature: Seq<u8>,
    payload: Seq<u8>,
    key: Seq<u8>,
    signature_again: Seq<u8>,
    payload_again: Seq<u8>,
    key_again: Seq<u8>,
)
    requires
        signature.len() == signature_again.len(),
        payload.len() == payload_again.len(),
        key.len() == key_again.len(),
        forall|i: int| 0 <= i < signature.len() ==> signature[i] == signature_again[i],
        forall|i: int| 0 <= i < payload.len() ==> payload[i] == payload_again[i],
        forall|i: int| 0 <= i < key.len() ==> key[i] == key_again[i],
    ensures
        detached_verdict(signature, payload, key) == detached_verdict(
            signature_again,
            payload_again,
            key_again,
        ),
{
    assert(signature =~= signature_again);
    assert(payload =~= payload_again);
    assert(key =~= key_again);
}

} // verus!
