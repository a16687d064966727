use bincode::Options;
use serde_bytes::ByteBuf;

use makimono::codec::read_varu64;
use makimono::codec::read_varu32;
use makimono::codec::read_varu16;
use makimono::codec::read_varu128;
use makimono::codec::read_bytebuf;
use makimono::codec::read_buf_list;
use makimono::codec::read_string;
use makimono::codec::read_opt_tag;
use makimono::txn::decode_tx_location;

fn enc<T: serde::Serialize>(v: &T) -> Vec<u8> {
    bincode::DefaultOptions::new().serialize(v).unwrap()
}

#[test]
fn varu64_agrees_with_reference_encoder() {
    for v in [0u64, 1, 249, 250, 251, 255, 256, 65535, 65536, 0xffff_ffff, 0x1_0000_0000, u64::MAX]
    {
        let bytes = enc(&v);
        let (got, end) = read_varu64(&bytes, 0).unwrap();
        assert_eq!(got, v);
        assert_eq!(end, bytes.len());
    }
}

#[test]
fn varu64_accepts_non_minimal_and_rejects_markers() {
    assert_eq!(read_varu64(&vec![250], 0), Some((250, 1)));
    assert_eq!(read_varu64(&vec![251, 5, 0], 0), Some((5, 3)));
    assert_eq!(read_varu64(&vec![252, 1, 0, 0, 0], 0), Some((1, 5)));
    assert_eq!(read_varu64(&vec![254, 0, 0, 0, 0, 0, 0, 0, 0, 0, 0, 0, 0, 0, 0, 0, 0], 0), None);
    assert_eq!(read_varu64(&vec![255], 0), None);
    assert_eq!(read_varu64(&vec![251, 5], 0), None);
    assert_eq!(read_varu64(&vec![], 0), None);
}

#[test]
fn varu32_and_varu16_enforce_their_ranges() {
    let big = enc(&(u32::MAX as u64 + 1));
    assert_eq!(read_varu32(&big, 0), None);
    let ok = enc(&(u32::MAX as u64));
    assert_eq!(read_varu32(&ok, 0).unwrap().0, u32::MAX);
    let big16 = enc(&(u16::MAX as u64 + 1));
    assert_eq!(read_varu16(&big16, 0), None);
    let ok16 = enc(&(u16::MAX as u64));
    assert_eq!(read_varu16(&ok16, 0).unwrap().0, u16::MAX);
}

#[test]
fn varu128_agrees_with_reference_encoder() {
    for v in [0u128, 250, 251, 65536, u64::MAX as u128, u64::MAX as u128 + 1, u128::MAX] {
        let bytes = enc(&v);
        let (got, end) = read_varu128(&bytes, 0).unwrap();
        assert_eq!(got, v);
        assert_eq!(end, bytes.len());
    }
}

#[test]
fn bytebuf_reads_length_prefixed_bytes() {
    for payload in [vec![], vec![1u8], vec![0u8; 300]] {
        let bytes = enc(&ByteBuf::from(payload.clone()));
        let (got, end) = read_bytebuf(&bytes, 0).unwrap();
        assert_eq!(got, payload);
        assert_eq!(end, bytes.len());
    }
    // a length larger than what remains is rejected
    assert_eq!(read_bytebuf(&vec![5, 1, 2], 0), None);
}

#[test]
fn buf_list_reads_count_then_items() {
    let items = vec![
        ByteBuf::from(vec![1u8, 2]),
        ByteBuf::from(vec![]),
        ByteBuf::from(vec![9u8; 40]),
    ];
    let bytes = enc(&items);
    let (got, end) = read_buf_list(&bytes, 0).unwrap();
    assert_eq!(end, bytes.len());
    assert_eq!(got.len(), 3);
    assert_eq!(got[0], vec![1u8, 2]);
    assert_eq!(got[1], Vec::<u8>::new());
    assert_eq!(got[2], vec![9u8; 40]);
    // a count with too few items behind it is rejected
    assert_eq!(read_buf_list(&vec![2, 0], 0), None);
}

#[test]
fn string_requires_valid_utf8() {
    let bytes = enc(&"reverted: overdrawn".to_string());
    let (got, end) = read_string(&bytes, 0).unwrap();
    assert_eq!(got, "reverted: overdrawn");
    assert_eq!(end, bytes.len());

    let bad = enc(&ByteBuf::from(vec![0xffu8, 0xfe]));
    assert_eq!(read_string(&bad, 0), None);
    assert!(bincode::DefaultOptions::new().deserialize::<String>(&bad).is_err());
}

#[test]
fn option_tag_is_one_byte_zero_or_one() {
    let none = enc(&Option::<u64>::None);
    let some = enc(&Some(7u64));
    assert_eq!(read_opt_tag(&none, 0), Some((false, 1)));
    assert_eq!(read_opt_tag(&some, 0), Some((true, 1)));
    assert_eq!(read_opt_tag(&vec![2], 0), None);
}

#[test]
fn varu64_sweep_agrees_with_reference_encoder() {
    let mut v: u64 = 0;
    for step in 0..2000u64 {
        let bytes = enc(&v);
        assert_eq!(read_varu64(&bytes, 0), Some((v, bytes.len())));
        v = v.wrapping_mul(3).wrapping_add(step * 7 + 1);
    }
    let mut p: u64 = 1;
    for _ in 0..63 {
        for d in [p - 1, p, p + 1] {
            let bytes = enc(&d);
            assert_eq!(read_varu64(&bytes, 0), Some((d, bytes.len())));
        }
        p = p.wrapping_mul(2);
    }
}

#[test]
fn varu128_sweep_agrees_with_reference_encoder() {
    let mut p: u128 = 1;
    for _ in 0..127 {
        for d in [p - 1, p, p + 1] {
            let bytes = enc(&d);
            assert_eq!(read_varu128(&bytes, 0), Some((d, bytes.len())));
        }
        p = p.wrapping_mul(2);
    }
}

#[test]
fn bytebuf_sweep_over_lengths() {
    for len in 0..300usize {
        let payload: Vec<u8> = (0..len).map(|i| (i * 37 % 251) as u8).collect();
        let bytes = enc(&ByteBuf::from(payload.clone()));
        let (got, end) = read_bytebuf(&bytes, 0).unwrap();
        assert_eq!(got, payload);
        assert_eq!(end, bytes.len());
    }
}

#[test]
fn buf_list_sweep_over_counts() {
    for count in 0..64usize {
        let items: Vec<ByteBuf> =
            (0..count).map(|i| ByteBuf::from(vec![i as u8; i % 5])).collect();
        let bytes = enc(&items);
        let (got, end) = read_buf_list(&bytes, 0).unwrap();
        assert_eq!(end, bytes.len());
        assert_eq!(got.len(), count);
        for (i, item) in got.iter().enumerate() {
            assert_eq!(*item, vec![i as u8; i % 5]);
        }
    }
}

#[test]
fn tx_location_round_trips() {
    let bytes = enc(&(123456u32, 42u16));
    assert_eq!(decode_tx_location(&bytes), Some((123456, 42)));
    // trailing bytes are rejected
    let mut extra = bytes.clone();
    extra.push(0);
    assert_eq!(decode_tx_location(&extra), None);
    assert_eq!(decode_tx_location(&vec![255]), None);
}
