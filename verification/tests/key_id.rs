use verify_example::key_id::{
    decode_key_id, load_nacl_key, DecodeError, PublicKey, KID_SUFFIX, KID_TYPE_EDDSA, KID_VERSION,
    ROOT_NACL_KEY,
};

const ROOT_KEY_BYTES: [u8; 32] = [
    0x9e, 0xc3, 0x14, 0x11, 0xb9, 0xb2, 0x87, 0xf6, 0x26, 0x30, 0xc2, 0x48, 0x60, 0x05, 0xaf, 0x27,
    0x54, 0x8b, 0xa6, 0x2a, 0x59, 0xbb, 0xc8, 0x02, 0xe6, 0x56, 0xb8, 0x88, 0x99, 0x1a, 0x20, 0x23,
];

fn key_id_bytes(key: &[u8]) -> Vec<u8> {
    let mut bytes = vec![KID_VERSION, KID_TYPE_EDDSA];
    bytes.extend_from_slice(key);
    bytes.push(KID_SUFFIX);
    bytes
}

#[test]
fn root_key_identifier_decodes_to_its_key() {
    assert_eq!(load_nacl_key(ROOT_NACL_KEY), Ok(PublicKey(ROOT_KEY_BYTES)));
}

#[test]
fn upper_and_mixed_case_hex_decode_alike() {
    let upper = ROOT_NACL_KEY.to_uppercase();
    assert_eq!(load_nacl_key(&upper), Ok(PublicKey(ROOT_KEY_BYTES)));
    let mixed = "01209EC31411b9b287f62630c2486005af27548ba62a59bbc802e656b888991A20230A";
    assert_eq!(load_nacl_key(mixed), Ok(PublicKey(ROOT_KEY_BYTES)));
}

#[test]
fn key_bytes_round_trip() {
    let key = [0x5a_u8; 32];
    assert_eq!(decode_key_id(&key_id_bytes(&key)), Ok(PublicKey(key)));
    assert_eq!(decode_key_id(&key_id_bytes(&ROOT_KEY_BYTES)), Ok(PublicKey(ROOT_KEY_BYTES)));
}

#[test]
fn text_that_is_not_hex_is_malformed_hex() {
    assert_eq!(load_nacl_key("zz"), Err(DecodeError::MalformedHex));
    assert_eq!(load_nacl_key("012"), Err(DecodeError::MalformedHex));
    assert_eq!(load_nacl_key("0120 0a"), Err(DecodeError::MalformedHex));
    assert_eq!(load_nacl_key("01\u{e9}0"), Err(DecodeError::MalformedHex));
    let mut odd = String::from(ROOT_NACL_KEY);
    odd.push('0');
    assert_eq!(load_nacl_key(&odd), Err(DecodeError::MalformedHex));
}

#[test]
fn wrong_prefix_is_wrong_key_type() {
    let changed = ROOT_NACL_KEY.replacen("0120", "0121", 1);
    assert_eq!(load_nacl_key(&changed), Err(DecodeError::WrongKeyType));
    let changed = ROOT_NACL_KEY.replacen("0120", "0220", 1);
    assert_eq!(load_nacl_key(&changed), Err(DecodeError::WrongKeyType));
    let changed = ROOT_NACL_KEY.replacen("0120", "2001", 1);
    assert_eq!(load_nacl_key(&changed), Err(DecodeError::WrongKeyType));
}

#[test]
fn every_change_to_the_prefix_is_wrong_key_type() {
    let good = key_id_bytes(&ROOT_KEY_BYTES);
    for first in 0..=255u8 {
        for second in [0x00u8, 0x01, 0x1f, 0x20, 0x21, 0xff] {
            if first == KID_VERSION && second == KID_TYPE_EDDSA {
                continue;
            }
            let mut changed = good.clone();
            changed[0] = first;
            changed[1] = second;
            assert_eq!(decode_key_id(&changed), Err(DecodeError::WrongKeyType));
        }
    }
}

#[test]
fn every_change_to_the_suffix_is_wrong_key_suffix() {
    let good = key_id_bytes(&ROOT_KEY_BYTES);
    for last in 0..=255u8 {
        if last == KID_SUFFIX {
            continue;
        }
        let mut changed = good.clone();
        changed[34] = last;
        assert_eq!(decode_key_id(&changed), Err(DecodeError::WrongKeySuffix));
    }
}

#[test]
fn missing_terminator_is_wrong_key_suffix() {
    let without = &ROOT_NACL_KEY[..ROOT_NACL_KEY.len() - 2];
    assert_eq!(load_nacl_key(without), Err(DecodeError::WrongKeySuffix));
}

#[test]
fn every_other_length_is_bad_key_length() {
    for len in 0..100usize {
        if len == 32 {
            continue;
        }
        let key = vec![0x11u8; len];
        assert_eq!(decode_key_id(&key_id_bytes(&key)), Err(DecodeError::BadKeyLength));
    }
}

#[test]
fn short_identifiers_are_classified() {
    assert_eq!(load_nacl_key(""), Err(DecodeError::WrongKeyType));
    assert_eq!(load_nacl_key("01"), Err(DecodeError::WrongKeyType));
    assert_eq!(load_nacl_key("0a"), Err(DecodeError::WrongKeyType));
    assert_eq!(load_nacl_key("0120"), Err(DecodeError::WrongKeySuffix));
    assert_eq!(load_nacl_key("01200a"), Err(DecodeError::BadKeyLength));
    assert_eq!(decode_key_id(&[]), Err(DecodeError::WrongKeyType));
    assert_eq!(decode_key_id(&[0x01, 0x20]), Err(DecodeError::WrongKeySuffix));
}

#[test]
fn checks_come_in_the_order_tag_terminator_length() {
    let mut key = vec![0x02, 0x20];
    key.extend_from_slice(&[0u8; 10]);
    key.push(0x0b);
    assert_eq!(decode_key_id(&key), Err(DecodeError::WrongKeyType));
    key[0] = 0x01;
    assert_eq!(decode_key_id(&key), Err(DecodeError::WrongKeySuffix));
    key[12] = 0x0a;
    assert_eq!(decode_key_id(&key), Err(DecodeError::BadKeyLength));
}

#[test]
fn decode_error_messages() {
    assert_eq!(DecodeError::MalformedHex.message(), "malformed hex");
    assert_eq!(DecodeError::WrongKeyType.message(), "wrong key type");
    assert_eq!(DecodeError::WrongKeySuffix.message(), "wrong key suffix");
    assert_eq!(DecodeError::BadKeyLength.message(), "bad key length");
}

#[test]
fn decoding_is_repeatable() {
    assert_eq!(load_nacl_key(ROOT_NACL_KEY), load_nacl_key(ROOT_NACL_KEY));
    assert_eq!(load_nacl_key("0120"), load_nacl_key("0120"));
}
