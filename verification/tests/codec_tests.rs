use eth_parser::codec::{pubkey_hex, u256_from_le_bytes, u256_to_le_bytes};
use eth_parser::primitives::U256;

#[test]
fn u256_zero_serializes_to_zero_bytes() {
    let bytes = u256_to_le_bytes(&U256::zero());
    assert_eq!(bytes, vec![0u8; 32]);
}

#[test]
fn u256_little_endian_layout_is_exact() {
    let v = U256 { limb0: 0x0102030405060708, limb1: 9, limb2: 0, limb3: 0x8000000000000000 };
    let bytes = u256_to_le_bytes(&v);
    let mut expected = vec![
        0x08, 0x07, 0x06, 0x05, 0x04, 0x03, 0x02, 0x01, // limb0, least significant byte first
        9, 0, 0, 0, 0, 0, 0, 0, // limb1
        0, 0, 0, 0, 0, 0, 0, 0, // limb2
        0, 0, 0, 0, 0, 0, 0, 0, // limb3 below
    ];
    expected[31] = 0x80;
    assert_eq!(bytes, expected);
}

#[test]
fn u256_round_trips_through_le_bytes() {
    let v = U256 { limb0: 123456789, limb1: u64::MAX, limb2: 42, limb3: 7 };
    let bytes = u256_to_le_bytes(&v);
    assert_eq!(bytes.len(), 32);
    let back = u256_from_le_bytes(&bytes);
    assert_eq!(back, v);
}

#[test]
fn le_bytes_round_trip_through_u256() {
    let bytes: Vec<u8> = (0u8..32u8).collect();
    let v = u256_from_le_bytes(&bytes);
    assert_eq!(u256_to_le_bytes(&v), bytes);
}

#[test]
fn pubkey_hex_is_prefixed_lowercase() {
    let out = pubkey_hex(&vec![0x12, 0xab, 0x00, 0xff]);
    assert_eq!(out, "0x12ab00ff");
}

#[test]
fn pubkey_hex_of_empty_key_is_bare_prefix() {
    let out = pubkey_hex(&Vec::new());
    assert_eq!(out, "0x");
}

#[test]
fn pubkey_hex_agrees_with_reference_encoder() {
    let key: Vec<u8> = (0u8..48u8).map(|b| b.wrapping_mul(7)).collect();
    let out = pubkey_hex(&key);
    assert_eq!(out, format!("0x{}", hex::encode(&key)));
}
