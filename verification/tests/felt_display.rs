use makimono::felt::Felt;
use makimono::felt::felt_hex;
use makimono::felt::hex_encode;
use makimono::felt::hex_with_prefix;
use makimono::felt::hex_str_to_key;
use makimono::felt::u64_to_decimal;

#[test]
fn felt_pads_short_input_on_the_left() {
    let f = Felt::from_bytes(&[0xab]);
    assert_eq!(f.0[31], 0xab);
    for i in 0..31 {
        assert_eq!(f.0[i], 0);
    }
}

#[test]
fn felt_round_trip_restores_value() {
    assert_eq!(Felt::from_bytes(&[0xab]).to_hex(), "0xab");
    assert_eq!(Felt::from_bytes(&[0x01, 0x02, 0x03]).to_hex(), "0x010203");
    assert_eq!(Felt::from_bytes(&[0x00, 0xab]).to_hex(), "0xab");
    assert_eq!(Felt::from_bytes(&[]).to_hex(), "0x00");
}

#[test]
fn felt_all_zero_renders_0x00() {
    assert_eq!(Felt::from_bytes(&[0u8; 32]).to_hex(), "0x00");
    assert_eq!(Felt::from_bytes(&[0u8; 7]).to_hex(), "0x00");
}

#[test]
fn felt_full_width_value_keeps_every_byte() {
    let mut b = [0u8; 32];
    for i in 0..32 {
        b[i] = (i as u8) + 1;
    }
    let expected = format!("0x{}", hex::encode(b));
    assert_eq!(Felt::from_bytes(&b).to_hex(), expected);
}

#[test]
fn felt_truncates_overlength_input_to_first_32_bytes() {
    let mut long = vec![0u8; 40];
    for i in 0..40 {
        long[i] = i as u8 + 1;
    }
    let a = Felt::from_bytes(&long);
    let b = Felt::from_bytes(&long[..32]);
    assert_eq!(a.0, b.0);
    assert_eq!(felt_hex(&long), felt_hex(&long[..32]));
}

#[test]
fn hex_encode_matches_reference_encoder() {
    let cases: Vec<Vec<u8>> = vec![
        vec![],
        vec![0x00],
        vec![0xff],
        vec![0x00, 0xff, 0x1a, 0x2b],
        (0u8..=255u8).collect(),
    ];
    for c in cases {
        assert_eq!(hex_encode(&c), hex::encode(&c));
        assert_eq!(hex_with_prefix(&c), format!("0x{}", hex::encode(&c)));
    }
}

#[test]
fn hex_key_accepts_prefixed_and_bare_forms() {
    let a = hex_str_to_key("AB").unwrap();
    let b = hex_str_to_key("0xAB").unwrap();
    let c = hex_str_to_key("0xab").unwrap();
    let padded = format!("0x{}ab", "00".repeat(31));
    let d = hex_str_to_key(&padded).unwrap();
    assert_eq!(a, b);
    assert_eq!(a, c);
    assert_eq!(a, d);
    assert_eq!(a[31], 0xab);
}

#[test]
fn hex_key_rejects_bad_input() {
    assert!(hex_str_to_key("0xg1").is_none());
    assert!(hex_str_to_key("abc").is_none());
    assert!(hex_str_to_key("zz").is_none());
    assert!(hex_str_to_key("0x毛").is_none());
}

#[test]
fn hex_key_empty_string_is_zero_key() {
    assert_eq!(hex_str_to_key("").unwrap(), [0u8; 32]);
    assert_eq!(hex_str_to_key("0x").unwrap(), [0u8; 32]);
}

#[test]
fn hex_key_truncates_overlength_hex() {
    let long = "01".repeat(40);
    let head = "01".repeat(32);
    assert_eq!(hex_str_to_key(&long), hex_str_to_key(&head));
}

#[test]
fn decimal_rendering_matches_reference() {
    for n in [0u64, 1, 9, 10, 99, 12345, 1_000_000_007, u64::MAX] {
        assert_eq!(u64_to_decimal(n), format!("{}", n));
    }
}
