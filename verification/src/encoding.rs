//! Text encodings of binary data: hexadecimal and Base64.
//!
//! Both decoders are those of the `hex` and `base64` crates. Their contracts
//! are stated here and believed, not proved.

use vstd::prelude::*;

verus! {

/// The error of [`hex::decode`]. Nothing is read from it.
#[verifier::external_type_specification]
#[verifier::external_body]
pub struct ExFromHexError(hex::FromHexError);

/// The value of one hexadecimal digit, given as an ASCII byte: `0` to `9`,
/// `A` to `F` or `a` to `f`. Any other byte is no digit.
pub open spec fn hex_digit_value(digit: u8) -> Option<u8> {
    if 0x30 <= digit <= 0x39 {
        Some((digit - 0x30) as u8)
    } else if 0x41 <= digit <= 0x46 {
        Some((digit - 0x41 + 10) as u8)
    } else if 0x61 <= digit <= 0x66 {
        Some((digit - 0x61 + 10) as u8)
    } else {
        None
    }
}

/// Hexadecimal text is an even number of hexadecimal digits.
pub open spec fn is_hex(text: Seq<u8>) -> bool {
    &&& text.len() % 2 == 0
    &&& forall|i: int| 0 <= i < text.len() ==> hex_digit_value(#[trigger] text[i]) is Some
}

/// The bytes that hexadecimal text stands for: two digits a byte, the high
/// half first.
pub open spec fn hex_value(text: Seq<u8>) -> Seq<u8> {
    Seq::new(
        (text.len() / 2) as nat,
        |i: int|
            (16 * hex_digit_value(text[2 * i]).unwrap() + hex_digit_value(
                text[2 * i + 1],
            ).unwrap()) as u8,
    )
}

/// What [`base64::decode`] makes of a text: the decoded bytes, or `None`
/// where it reports an error. The text is Base64 in the standard alphabet,
/// with padding.
pub uninterp spec fn base64_value(text: Seq<u8>) -> Option<Seq<u8>>;

/// Calls [`hex::decode`].
///
/// Believed of it: it succeeds exactly on an even number of hexadecimal
/// digits, upper or lower case, and then returns one byte for each pair of
/// digits, the first digit of a pair being the high half of the byte.
#[verifier::external_body]
pub(crate) fn hex_decode(text: &[u8]) -> (decoded: Result<Vec<u8>, hex::FromHexError>)
    ensures
        decoded is Ok <==> is_hex(text@),
        decoded matches Ok(bytes) ==> bytes@ == hex_value(text@),
{
    hex::decode(text)
}

/// Calls [`base64::decode`], and drops what its error says.
///
/// Believed of it: what it returns depends on the text alone. What that is
/// for a given text is not stated here.
#[verifier::external_body]
pub(crate) fn base64_decode(text: &[u8]) -> (decoded: Option<Vec<u8>>)
    ensures
        base64_value(text@) == match decoded {
            Some(bytes) => Some(bytes@),
            None => None,
        },
{
    base64::decode(text).ok()
}

} // verus!
