//! Key identifiers: the text form of an Ed25519 public key.
//!
//! An identifier is hexadecimal text for 35 bytes: a two-byte type tag, the
//! 32 bytes of the key, and a one-byte terminator.

use vstd::prelude::*;
use vstd::slice::slice_subrange;
use vstd::string::StringSliceAdditionalSpecFns;
use crate::ed25519::{public_key_from_slice, PUBLICKEYBYTES};
use crate::encoding::{hex_decode, hex_value, is_hex};

verus! {

/// First byte of the type tag: the version of the encoding.
pub const KID_VERSION: u8 = 0x01;

/// Second byte of the type tag: the kind of key, here an Ed25519 signing key.
pub const KID_TYPE_EDDSA: u8 = 0x20;

/// The terminator that ends an identifier.
pub const KID_SUFFIX: u8 = 0x0a;

/// The identifier of the key that signs the root announcements.
pub const ROOT_NACL_KEY: &'static str =
    "01209ec31411b9b287f62630c2486005af27548ba62a59bbc802e656b888991a20230a";

/// An Ed25519 public key.
#[derive(Debug, Clone, PartialEq, Eq)]
pub struct PublicKey(pub [u8; 32]);

impl View for PublicKey {
    type V = Seq<u8>;

    open spec fn view(&self) -> Seq<u8> {
        self.0@
    }
}

/// Why a key identifier is not taken for a key.
#[derive(Debug, Clone, Copy, PartialEq, Eq, Structural)]
pub enum DecodeError {
    /// The text is not hexadecimal.
    MalformedHex,
    /// The first two bytes are not the type tag.
    WrongKeyType,
    /// The last byte is not the terminator.
    WrongKeySuffix,
    /// What stands between tag and terminator is not 32 bytes long.
    BadKeyLength,
}

impl DecodeError {
    /// The text of [`DecodeError::message`].
    pub open spec fn message_text(self) -> Seq<char> {
        match self {
            DecodeError::MalformedHex => "malformed hex"@,
            DecodeError::WrongKeyType => "wrong key type"@,
            DecodeError::WrongKeySuffix => "wrong key suffix"@,
            DecodeError::BadKeyLength => "bad key length"@,
        }
    }

    /// A line of text for a person to read.
    pub fn message(&self) -> (text: &'static str)
        ensures
            text@ == self.message_text(),
    {
        match self {
            DecodeError::MalformedHex => "malformed hex",
            DecodeError::WrongKeyType => "wrong key type",
            DecodeError::WrongKeySuffix => "wrong key suffix",
            DecodeError::BadKeyLength => "bad key length",
        }
    }
}

/// The bytes start with the type tag.
pub open spec fn has_key_type(bytes: Seq<u8>) -> bool {
    bytes.len() >= 2 && bytes[0] == KID_VERSION && bytes[1] == KID_TYPE_EDDSA
}

/// The bytes end with the terminator.
pub open spec fn has_key_suffix(bytes: Seq<u8>) -> bool {
    bytes.len() >= 1 && bytes[bytes.len() - 1] == KID_SUFFIX
}

/// What the bytes of an identifier stand for: the key between tag and
/// terminator, or the first of the three checks that fails, in the order
/// tag, terminator, length.
pub open spec fn key_id_verdict(bytes: Seq<u8>) -> Result<Seq<u8>, DecodeError> {
    if !has_key_type(bytes) {
        Err(DecodeError::WrongKeyType)
    } else if !has_key_suffix(bytes) {
        Err(DecodeError::WrongKeySuffix)
    } else if bytes.len() != PUBLICKEYBYTES + 3 {
        Err(DecodeError::BadKeyLength)
    } else {
        Ok(bytes.subrange(2, bytes.len() - 1))
    }
}

/// What the text of an identifier stands for.
pub open spec fn key_text_verdict(text: Seq<u8>) -> Result<Seq<u8>, DecodeError> {
    if !is_hex(text) {
        Err(DecodeError::MalformedHex)
    } else {
        key_id_verdict(hex_value(text))
    }
}

/// The identifier of a key, as bytes.
pub open spec fn key_id_of(key: Seq<u8>) -> Seq<u8> {
    seq![KID_VERSION, KID_TYPE_EDDSA] + key + seq![KID_SUFFIX]
}

/// The outcome of a decoding, with the key by its view.
pub open spec fn decoded_view(decoded: Result<PublicKey, DecodeError>) -> Result<
    Seq<u8>,
    DecodeError,
> {
    match decoded {
        Ok(key) => Ok(key@),
        Err(e) => Err(e),
    }
}

/// Takes the key out of the bytes of an identifier.
pub fn decode_key_id(bytes: &[u8]) -> (decoded: Result<PublicKey, DecodeError>)
    ensures
        decoded_view(decoded) == key_id_verdict(bytes@),
{
    let len = bytes.len();
    if len < 2 || bytes[0] != KID_VERSION || bytes[1] != KID_TYPE_EDDSA {
        return Err(DecodeError::WrongKeyType);
    }
    if bytes[len - 1] != KID_SUFFIX {
        return Err(DecodeError::WrongKeySuffix);
    }
    let key_bytes = slice_subrange(bytes, 2, len - 1);
    match public_key_from_slice(key_bytes) {
        Some(key) => Ok(PublicKey(key)),
        None => Err(DecodeError::BadKeyLength),
    }
}

/// Decodes a key identifier, given as hexadecimal text.
pub fn load_nacl_key(kid: &str) -> (decoded: Result<PublicKey, DecodeError>)
    ensures
        decoded_view(decoded) == key_text_verdict(kid.spec_bytes()),
{
    match hex_decode(kid.as_bytes()) {
        Ok(bytes) => decode_key_id(bytes.as_slice()),
        Err(_) => Err(DecodeError::MalformedHex),
    }
}

/// The identifier of a key decodes to that key.
pub proof fn lemma_key_id_round_trip(key: Seq<u8>)
    requires
        key.len() == PUBLICKEYBYTES,
    ensures
        key_id_verdict(key_id_of(key)) == Ok::<Seq<u8>, DecodeError>(key),
{
    let id = key_id_of(key);
    assert(id.subrange(2, id.len() - 1) =~= key);
}

/// Any change to the type tag of a good identifier is a wrong key type,
/// whatever else is changed with it.
pub proof fn lemma_changed_prefix_is_wrong_key_type(good: Seq<u8>, changed: Seq<u8>)
    requires
        key_id_verdict(good) is Ok,
        changed.len() < 2 || changed[0] != good[0] || changed[1] != good[1],
    ensures
        key_id_verdict(changed) == Err::<Seq<u8>, DecodeError>(DecodeError::WrongKeyType),
{
}

/// Any change to the terminator of a good identifier that leaves the type
/// tag in place is a wrong key suffix: another last byte, or none after the
/// tag.
pub proof fn lemma_changed_suffix_is_wrong_key_suffix(good: Seq<u8>, changed: Seq<u8>)
    requires
        key_id_verdict(good) is Ok,
        changed.len() >= 2,
        changed[0] == good[0],
        changed[1] == good[1],
        changed[changed.len() - 1] != good[good.len() - 1],
    ensures
        key_id_verdict(changed) == Err::<Seq<u8>, DecodeError>(DecodeError::WrongKeySuffix),
{
}

/// Any change to the length of a good identifier that leaves type tag and
/// terminator in place is a bad key length.
pub proof fn lemma_changed_length_is_bad_key_length(good: Seq<u8>, changed: Seq<u8>)
    requires
        key_id_verdict(good) is Ok,
        changed.len() >= 2,
        changed[0] == good[0],
        changed[1] == good[1],
        changed[changed.len() - 1] == good[good.len() - 1],
        changed.len() != good.len(),
    ensures
        key_id_verdict(changed) == Err::<Seq<u8>, DecodeError>(DecodeError::BadKeyLength),
{
}

/// A good identifier is the identifier of the key it decodes to, and of no
/// other: it is 35 bytes long, and every byte of it is fixed by the key.
pub proof fn lemma_good_identifier_is_key_id(good: Seq<u8>)
    requires
        key_id_verdict(good) is Ok,
    ensures
        good == key_id_of(key_id_verdict(good)->Ok_0),
{
    let key = good.subrange(2, good.len() - 1);
    assert(good =~= key_id_of(key));
}

/// The outcome depends on the text alone: the same text gives the same
/// outcome.
pub proof fn lemma_decoding_is_repeatable(first: Seq<u8>, second: Seq<u8>)
    requires
        first.len() == second.len(),
        forall|i: int| 0 <= i < first.len() ==> first[i] == second[i],
    ensures
        key_text_verdict(first) == key_text_verdict(second),
{
    assert(first =~= second);
}

} // verus!
