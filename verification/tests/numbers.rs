use alloy_primitives::U256;
use bridge_api::error::ErrorKind;
use bridge_api::hex::{decode_hex, encode_hex, encode_prefixed_hex, push_hex};
use bridge_api::scale::{decode_fixed_width_unsigned, decode_hex_unsigned, decode_u64, MAX_WIDTH};
use bridge_api::uint256::Uint256;
use parity_scale_codec::Decode;

#[test]
fn hex_text_is_lower_case_two_digits_a_byte() {
    assert_eq!(encode_hex(&[]), "");
    assert_eq!(encode_hex(&[0x00]), "00");
    assert_eq!(encode_hex(&[0x0f, 0xf0, 0xab, 0x9c]), "0ff0ab9c");
    assert_eq!(encode_prefixed_hex(&[]), "0x");
    assert_eq!(encode_prefixed_hex(&[0xde, 0xad, 0xbe, 0xef]), "0xdeadbeef");
}

#[test]
fn hex_text_agrees_on_every_byte() {
    let all: Vec<u8> = (0..=255u8).collect();
    assert_eq!(encode_hex(&all), alloy_primitives::hex::encode(&all));
}

#[test]
fn push_hex_appends() {
    let mut out = String::from("key=");
    push_hex(&mut out, &[0x01, 0xa2]);
    assert_eq!(out, "key=01a2");
}

#[test]
fn hex_decodes_with_and_without_prefix() {
    assert_eq!(decode_hex("0xdeadbeef").unwrap(), vec![0xde, 0xad, 0xbe, 0xef]);
    assert_eq!(decode_hex("deadbeef").unwrap(), vec![0xde, 0xad, 0xbe, 0xef]);
    assert_eq!(decode_hex("0xDEADbeef").unwrap(), vec![0xde, 0xad, 0xbe, 0xef]);
    assert_eq!(decode_hex("0x").unwrap(), Vec::<u8>::new());
    assert_eq!(decode_hex("").unwrap(), Vec::<u8>::new());
}

#[test]
fn hex_of_odd_length_is_read_with_a_leading_zero() {
    assert_eq!(decode_hex("0xabc").unwrap(), vec![0x0a, 0xbc]);
    assert_eq!(decode_hex("0").unwrap(), vec![0x00]);
    assert_eq!(decode_hex("0x0").unwrap(), vec![0x00]);
}

#[test]
fn hex_with_blanks_is_accepted() {
    assert!(decode_hex("0x12 34").is_ok());
    assert!(decode_hex("12\n").is_ok());
}

#[test]
fn hex_with_a_foreign_character_is_a_decode_error() {
    for text in ["0xzz", "0x12g4", "xyz", "0X12", "0x0x12", "0x12é", "null"] {
        let error = decode_hex(text).unwrap_err();
        assert_eq!(error.kind, ErrorKind::DecodeError);
        assert_eq!(error.message, "invalid hex payload");
    }
}

#[test]
fn hex_round_trip() {
    let bytes: Vec<u8> = (0..=255u8).rev().collect();
    assert_eq!(decode_hex(&encode_prefixed_hex(&bytes)).unwrap(), bytes);
    assert_eq!(decode_hex(&encode_hex(&bytes)).unwrap(), bytes);
}

#[test]
fn fixed_width_integers_are_little_endian() {
    let bytes = [0x01u8, 0x02, 0x03, 0x04, 0x05, 0x06, 0x07, 0x08, 0x09];
    assert_eq!(decode_fixed_width_unsigned(&bytes, 0).unwrap(), 0);
    assert_eq!(decode_fixed_width_unsigned(&bytes, 1).unwrap(), 0x01);
    assert_eq!(decode_fixed_width_unsigned(&bytes, 2).unwrap(), 0x0201);
    assert_eq!(decode_fixed_width_unsigned(&bytes, 4).unwrap(), 0x0403_0201);
    assert_eq!(decode_fixed_width_unsigned(&bytes, 8).unwrap(), 0x0807_0605_0403_0201);
    assert_eq!(decode_fixed_width_unsigned(&bytes, 9).unwrap(), 0x09_0807_0605_0403_0201);
}

#[test]
fn fixed_width_integer_of_full_width() {
    let bytes = [0xffu8; 16];
    assert_eq!(decode_fixed_width_unsigned(&bytes, MAX_WIDTH).unwrap(), u128::MAX);
    let mut one_high = [0u8; 16];
    one_high[15] = 0x80;
    assert_eq!(decode_fixed_width_unsigned(&one_high, 16).unwrap(), 1u128 << 127);
}

#[test]
fn fixed_width_integer_needs_its_bytes() {
    let error = decode_fixed_width_unsigned(&[1, 2, 3], 4).unwrap_err();
    assert_eq!(error.kind, ErrorKind::DecodeError);
    assert_eq!(error.message, "not enough bytes for the integer");
    let error = decode_fixed_width_unsigned(&[], 1).unwrap_err();
    assert_eq!(error.kind, ErrorKind::DecodeError);
}

#[test]
fn fixed_width_integer_above_the_widest_is_refused() {
    let bytes = [0u8; 32];
    let error = decode_fixed_width_unsigned(&bytes, 17).unwrap_err();
    assert_eq!(error.kind, ErrorKind::DecodeError);
    assert_eq!(error.message, "integer width is not supported");
}

#[test]
fn u64_is_decoded_as_the_codec_decodes_it() {
    let samples: [[u8; 10]; 4] = [
        [0x64, 0, 0, 0, 0, 0, 0, 0, 0xaa, 0xbb],
        [0x00, 0xf1, 0x53, 0x65, 0, 0, 0, 0, 0, 0],
        [0xff; 10],
        [1, 2, 3, 4, 5, 6, 7, 8, 9, 10],
    ];
    for sample in samples {
        let expected = u64::decode(&mut &sample[..]).unwrap();
        assert_eq!(decode_u64(&sample).unwrap(), expected);
    }
    assert_eq!(decode_u64(&[0x64, 0, 0, 0, 0, 0, 0, 0]).unwrap(), 100);
    assert_eq!(decode_u64(&[0xff; 8]).unwrap(), u64::MAX);
}

#[test]
fn u64_needs_eight_bytes() {
    let error = decode_u64(&[1, 2, 3, 4, 5, 6, 7]).unwrap_err();
    assert_eq!(error.kind, ErrorKind::DecodeError);
    assert_eq!(error.message, "not enough bytes for the integer");
    assert!(u64::decode(&mut &[1u8, 2, 3, 4, 5, 6, 7][..]).is_err());
}

#[test]
fn storage_value_decodes_from_hex_text() {
    assert_eq!(decode_hex_unsigned("0x6400000000000000", 8).unwrap(), 100);
    assert_eq!(decode_hex_unsigned("0x00f1536500000000", 8).unwrap(), 1_700_000_000);
    assert_eq!(decode_hex_unsigned("6400000000000000ffff", 8).unwrap(), 100);
    assert_eq!(decode_hex_unsigned("0x0102030405", 4).unwrap(), 0x0403_0201);
    assert_eq!(decode_hex_unsigned("0x", 0).unwrap(), 0);
}

#[test]
fn storage_value_that_is_malformed_is_a_decode_error() {
    let error = decode_hex_unsigned("0x64000000", 8).unwrap_err();
    assert_eq!(error.kind, ErrorKind::DecodeError);
    assert_eq!(error.message, "not enough bytes for the integer");
    let error = decode_hex_unsigned("0x64000000000000zz", 8).unwrap_err();
    assert_eq!(error.kind, ErrorKind::DecodeError);
    assert_eq!(error.message, "invalid hex payload");
    let error = decode_hex_unsigned("0x64", 17).unwrap_err();
    assert_eq!(error.kind, ErrorKind::DecodeError);
    assert_eq!(error.message, "integer width is not supported");
    let error = decode_hex_unsigned("0xzz", 17).unwrap_err();
    assert_eq!(error.message, "invalid hex payload");
}

#[test]
fn uint256_from_u64_is_big_endian() {
    let n = Uint256::from_u64(0x0102_0304_0506_0708);
    let mut expected = [0u8; 32];
    expected[24..].copy_from_slice(&[1, 2, 3, 4, 5, 6, 7, 8]);
    assert_eq!(n.be_bytes, expected);
    assert_eq!(n.to_be_bytes(), expected);
    assert_eq!(Uint256::from_u64(0).be_bytes, [0u8; 32]);
    assert_eq!(Uint256::from_u64(u64::MAX).to_be_bytes(), U256::from(u64::MAX).to_be_bytes::<32>());
}

#[test]
fn uint256_from_be_bytes_keeps_the_bytes() {
    let mut bytes = [0u8; 32];
    bytes[0] = 0x80;
    bytes[31] = 0x01;
    let n = Uint256::from_be_bytes(bytes);
    assert_eq!(n.to_be_bytes(), bytes);
    assert_eq!(n.to_be_bytes().to_vec(), U256::from_be_bytes(bytes).to_be_bytes_vec());
}

#[test]
fn uint256_in_decimal() {
    assert_eq!(Uint256::from_u64(0).to_decimal(), "0");
    assert_eq!(Uint256::from_u64(100).to_decimal(), "100");
    assert_eq!(Uint256::from_u64(u64::MAX).to_decimal(), "18446744073709551615");
    assert_eq!(
        Uint256::from_be_bytes([0xff; 32]).to_decimal(),
        "115792089237316195423570985008687907853269984665640564039457584007913129639935"
    );
    let mut bytes = [0u8; 32];
    bytes[23] = 1;
    assert_eq!(Uint256::from_be_bytes(bytes).to_decimal(), "18446744073709551616");
}
