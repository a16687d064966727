use bincode::Options;
use serde_bytes::ByteBuf;

use makimono::block::decode_block_record;
use makimono::block::block_summary_of;
use makimono::block::block_detail_of;
use makimono::block::block_pager;
use makimono::block::block_key;
use makimono::block::block_number_from_key;
use makimono::block::BlockSummary;
use makimono::DbError;

fn enc<T: serde::Serialize>(v: &T) -> Vec<u8> {
    bincode::DefaultOptions::new().serialize(v).unwrap()
}

fn block_record_bytes(
    block_number: u64,
    timestamp: u64,
    tx_count: u64,
    block_hash: &[u8],
    parent_hash: &[u8],
    tx_hashes: &[&[u8]],
) -> Vec<u8> {
    let mut out = enc(&(
        ByteBuf::from(parent_hash.to_vec()),
        block_number,
        ByteBuf::from(vec![0x11u8]),
        ByteBuf::from(vec![0x22u8]),
        timestamp,
        tx_count,
        ByteBuf::from(vec![0x33u8]),
        5u64,
        ByteBuf::from(vec![0x44u8]),
        Some(2u64),
        Some(ByteBuf::from(vec![0x55u8])),
        Option::<ByteBuf>::None,
        [0u8, 13u8, 0u8, 1u8],
        (1u128, 2u128, 3u128, 4u128, 5u128, u128::MAX),
    ));
    out.push(1); // data-availability mode: second variant
    out.extend(enc(&(
        ByteBuf::from(block_hash.to_vec()),
        77u128,
        tx_hashes.iter().map(|h| ByteBuf::from(h.to_vec())).collect::<Vec<_>>(),
    )));
    out
}

#[test]
fn block_record_decodes_every_field() {
    let bytes = block_record_bytes(9, 1700000000, 2, &[0xaa], &[0xbb], &[&[0x01], &[0x02]]);
    let rec = decode_block_record(&bytes).unwrap();
    assert_eq!(rec.block_number, 9);
    assert_eq!(rec.timestamp, 1700000000);
    assert_eq!(rec.transaction_count, 2);
    assert_eq!(rec.event_count, 5);
    assert_eq!(rec.l2_gas_used, 77);
    assert_eq!(rec.block_hash, vec![0xaa]);
    assert_eq!(rec.parent_hash, vec![0xbb]);
    assert_eq!(rec.tx_hashes, vec![vec![0x01], vec![0x02]]);

    let s = block_summary_of(&rec);
    assert_eq!(s.block_number, 9);
    assert_eq!(s.block_hash, "0xaa");
    assert_eq!(s.parent_hash, "0xbb");
    assert_eq!(s.transaction_count, 2);

    let d = block_detail_of(&rec);
    assert_eq!(d.state_root, "0x11");
    assert_eq!(d.sequencer_address, "0x22");
    assert_eq!(d.tx_hashes, vec!["0x01".to_string(), "0x02".to_string()]);
}

#[test]
fn block_record_rejects_trailing_or_truncated_bytes() {
    let bytes = block_record_bytes(1, 2, 3, &[0xaa], &[0xbb], &[]);
    let mut extra = bytes.clone();
    extra.push(0);
    assert!(decode_block_record(&extra).is_none());
    let cut = bytes[..bytes.len() - 1].to_vec();
    assert!(decode_block_record(&cut).is_none());
    assert!(decode_block_record(&vec![]).is_none());
}

#[test]
fn block_keys_are_4_byte_big_endian() {
    assert_eq!(block_key(0x01020304).unwrap(), vec![1, 2, 3, 4]);
    assert_eq!(block_key(u32::MAX as u64 + 1), None);
    assert_eq!(block_number_from_key(&vec![1, 2, 3, 4]), Some(0x01020304));
    assert_eq!(block_number_from_key(&vec![1, 2, 3]), None);
}

fn run_pager(store: &[(u64, Vec<u8>)], latest: u64, offset: u64, limit: u64) -> Vec<BlockSummary> {
    let mut pager = block_pager(latest, offset, limit);
    let mut out = Vec::new();
    while let Some(n) = pager.next_to_fetch() {
        let fetched = store.iter().find(|(k, _)| *k == n).map(|(_, v)| v);
        if let Some(s) = pager.feed(fetched) {
            out.push(s);
        }
    }
    out
}

fn ten_block_store(present: &[u64]) -> Vec<(u64, Vec<u8>)> {
    present
        .iter()
        .map(|&n| (n, block_record_bytes(n, 1000 + n, 1, &[n as u8 + 1], &[n as u8], &[])))
        .collect()
}

#[test]
fn pagination_newest_first_window() {
    let store = ten_block_store(&[0, 1, 2, 3, 4, 5, 6, 7, 8, 9]);
    let got: Vec<u64> = run_pager(&store, 9, 0, 5).iter().map(|s| s.block_number).collect();
    assert_eq!(got, vec![9, 8, 7, 6, 5]);
    let clamped: Vec<u64> = run_pager(&store, 9, 9, 5).iter().map(|s| s.block_number).collect();
    assert_eq!(clamped, vec![0]);
}

#[test]
fn pagination_skips_gaps_without_counting_them() {
    let store = ten_block_store(&[9, 8, 6, 5, 4]);
    let got: Vec<u64> = run_pager(&store, 9, 0, 4).iter().map(|s| s.block_number).collect();
    assert_eq!(got, vec![9, 8, 6, 5]);
}

#[test]
fn pagination_with_zero_limit_is_empty() {
    let store = ten_block_store(&[0, 1, 2]);
    assert!(run_pager(&store, 2, 0, 0).is_empty());
}

#[test]
fn pagination_on_empty_prefix_of_chain() {
    // only the genesis block exists
    let store = ten_block_store(&[0]);
    let got: Vec<u64> = run_pager(&store, 0, 0, 5).iter().map(|s| s.block_number).collect();
    assert_eq!(got, vec![0]);
}

#[test]
fn db_error_messages_name_their_subject() {
    assert_eq!(
        DbError::PathNotFound("/tmp/x".into()).message(),
        "Database path does not exist: /tmp/x"
    );
    assert_eq!(DbError::RocksDb("boom".into()).message(), "RocksDB error: boom");
    assert_eq!(
        DbError::Deserialize("bad tag".into()).message(),
        "Deserialization error: bad tag"
    );
}

#[test]
fn pagination_skips_undecodable_records_too() {
    let mut store = ten_block_store(&[9, 8, 6, 5, 4]);
    store.push((7, vec![0xde, 0xad]));
    let got: Vec<u64> = run_pager(&store, 9, 0, 4).iter().map(|s| s.block_number).collect();
    assert_eq!(got, vec![9, 8, 6, 5]);
}
