use bincode::Options;
use serde_bytes::ByteBuf;

use makimono::txn::decode_transaction_record;
use makimono::txn::transaction_detail_of;
use makimono::txn::transaction_detail;
use makimono::txn::transaction_summary_of;
use makimono::txn::block_transactions;
use makimono::txn::make_transaction_column_key;
use makimono::txn::transaction_key;
use makimono::txn::TransactionType;
use makimono::txn::ExecutionStatus;

fn enc<T: serde::Serialize>(v: &T) -> Vec<u8> {
    bincode::DefaultOptions::new().serialize(v).unwrap()
}

fn buf(bytes: &[u8]) -> ByteBuf {
    ByteBuf::from(bytes.to_vec())
}

/// The receipt fields every kind shares, with one event and one message and
/// a successful result.
fn receipt_common_bytes(tx_hash: &[u8]) -> Vec<u8> {
    let mut out = enc(&buf(tx_hash)); // transaction_hash
    out.extend(enc(&buf(&[0x0f]))); // actual_fee.amount
    out.push(1); // actual_fee.unit: second variant (Fri)
    out.extend(enc(&vec![(buf(&[0x21]), buf(&[0x22]), vec![buf(&[0x23])])])); // messages_sent
    out.extend(enc(&vec![(buf(&[0x31]), vec![buf(&[0x32])], vec![buf(&[0x33]), buf(&[0x34])])])); // events
    out.extend(enc(&(
        10u64,
        0u64,
        1u64,
        2u64,
        3u64,
        4u64,
        5u64,
        6u64,
        7u64,
        8u64,
        (1u128, 2u128, 3u128),
        (4u128, 5u128, 6u128),
    ))); // execution_resources
    out.push(0); // execution_result: Succeeded
    out
}

fn invoke_v1_record(tx_hash: &[u8]) -> Vec<u8> {
    let mut out = vec![0u8, 1u8]; // transaction: Invoke, version V1
    out.extend(enc(&(
        buf(&[0xaa]), // sender_address
        vec![buf(&[0xc1]), buf(&[0xc2])], // calldata
        buf(&[0x99]), // max_fee
        vec![buf(&[0x51])], // signature
        buf(&[0x07]), // nonce
    )));
    out.push(0); // receipt: Invoke
    out.extend(receipt_common_bytes(tx_hash));
    out
}

#[test]
fn invoke_v1_decodes_with_exact_field_provenance() {
    let bytes = invoke_v1_record(&[0xee]);
    let rec = decode_transaction_record(&bytes).unwrap();
    let d = transaction_detail_of(rec, 3, 1);
    assert_eq!(d.tx_hash, "0xee");
    assert_eq!(d.tx_type, TransactionType::Invoke);
    assert_eq!(d.status, ExecutionStatus::Succeeded);
    assert_eq!(d.block_number, 3);
    assert_eq!(d.tx_index, 1);
    assert_eq!(d.actual_fee, "0x0f");
    assert_eq!(d.fee_unit, "FRI");
    assert_eq!(d.sender_address.as_deref(), Some("0xaa"));
    assert_eq!(d.calldata, vec!["0xc1".to_string(), "0xc2".to_string()]);
    assert_eq!(d.signature, vec!["0x51".to_string()]);
    assert_eq!(d.nonce.as_deref(), Some("0x07"));
    assert_eq!(d.version.as_deref(), Some("1"));
    assert_eq!(d.events.len(), 1);
    assert_eq!(d.events[0].from_address, "0x31");
    assert_eq!(d.events[0].keys, vec!["0x32".to_string()]);
    assert_eq!(d.events[0].data, vec!["0x33".to_string(), "0x34".to_string()]);
    assert_eq!(d.messages_sent.len(), 1);
    assert_eq!(d.messages_sent[0].from_address, "0x21");
    assert_eq!(d.messages_sent[0].to_address, "0x22");
    assert_eq!(d.messages_sent[0].payload, vec!["0x23".to_string()]);
}

#[test]
fn l1_handler_has_decimal_nonce_and_no_signature() {
    let mut out = vec![1u8]; // transaction: L1Handler
    out.extend(enc(&(
        buf(&[0x00]), // version
        745u64, // nonce
        buf(&[0xcc]), // contract_address
        buf(&[0xdd]), // entry_point_selector
        vec![buf(&[0xc9])], // calldata
    )));
    out.push(1); // receipt: L1Handler
    out.extend([9u8; 32]); // message_hash
    out.extend(receipt_common_bytes(&[0xe1]));
    let rec = decode_transaction_record(&out).unwrap();
    let d = transaction_detail_of(rec, 0, 0);
    assert_eq!(d.tx_type, TransactionType::L1Handler);
    assert_eq!(d.sender_address.as_deref(), Some("0xcc"));
    assert_eq!(d.nonce.as_deref(), Some("745"));
    assert_eq!(d.version.as_deref(), Some("0x00"));
    assert!(d.signature.is_empty());
    assert_eq!(d.calldata, vec!["0xc9".to_string()]);
}

#[test]
fn declare_v2_has_no_calldata() {
    let mut out = vec![2u8, 2u8]; // transaction: Declare V2
    out.extend(enc(&(
        buf(&[0xab]), // sender_address
        buf(&[0x77]), // compiled_class_hash
        buf(&[0x88]), // max_fee
        vec![buf(&[0x51]), buf(&[0x52])], // signature
        buf(&[0x05]), // nonce
        buf(&[0x99]), // class_hash
    )));
    out.push(2); // receipt: Declare
    out.extend(receipt_common_bytes(&[0xe2]));
    let rec = decode_transaction_record(&out).unwrap();
    let d = transaction_detail_of(rec, 0, 0);
    assert_eq!(d.tx_type, TransactionType::Declare);
    assert_eq!(d.sender_address.as_deref(), Some("0xab"));
    assert!(d.calldata.is_empty());
    assert_eq!(d.signature.len(), 2);
    assert_eq!(d.nonce.as_deref(), Some("0x05"));
    assert_eq!(d.version.as_deref(), Some("2"));
}

#[test]
fn deploy_has_neither_sender_nor_nonce() {
    let mut out = vec![3u8]; // transaction: Deploy
    out.extend(enc(&(
        buf(&[0x01]), // version
        buf(&[0x99]), // class_hash
        buf(&[0x13]), // contract_address_salt
        vec![buf(&[0xc5])], // constructor_calldata
    )));
    out.push(3); // receipt: Deploy
    out.extend(receipt_common_bytes(&[0xe3]));
    out.extend(enc(&buf(&[0xf0]))); // receipt contract_address
    let rec = decode_transaction_record(&out).unwrap();
    let d = transaction_detail_of(rec, 0, 0);
    assert_eq!(d.tx_type, TransactionType::Deploy);
    assert_eq!(d.sender_address, None);
    assert_eq!(d.nonce, None);
    assert_eq!(d.version.as_deref(), Some("0x01"));
    assert_eq!(d.calldata, vec!["0xc5".to_string()]);
    assert!(d.signature.is_empty());
}

#[test]
fn invoke_v3_skips_resource_bounds() {
    let mut out = vec![0u8, 2u8]; // transaction: Invoke V3
    out.extend(enc(&(
        buf(&[0xaa]), // sender_address
        vec![buf(&[0xc1])], // calldata
        vec![buf(&[0x51])], // signature
        buf(&[0x07]), // nonce
        ((1u64, 2u128), (3u64, 4u128), Some((5u64, 6u128))), // resource_bounds
        12u64, // tip
        vec![buf(&[0x61])], // paymaster_data
        Vec::<ByteBuf>::new(), // account_deployment_data
        0u32, // nonce_data_availability_mode
        1u32, // fee_data_availability_mode
    )));
    out.push(0); // receipt: Invoke
    out.extend(receipt_common_bytes(&[0xe4]));
    let rec = decode_transaction_record(&out).unwrap();
    let d = transaction_detail_of(rec, 0, 0);
    assert_eq!(d.version.as_deref(), Some("3"));
    assert_eq!(d.sender_address.as_deref(), Some("0xaa"));
}

#[test]
fn deploy_account_v3_decodes() {
    let mut out = vec![4u8, 1u8]; // transaction: DeployAccount V3
    out.extend(enc(&(
        vec![buf(&[0x51])], // signature
        buf(&[0x09]), // nonce
        buf(&[0x13]), // contract_address_salt
        vec![buf(&[0xc7])], // constructor_calldata
        buf(&[0x99]), // class_hash
        ((1u64, 2u128), (3u64, 4u128), Option::<(u64, u128)>::None), // resource_bounds
        0u64, // tip
        Vec::<ByteBuf>::new(), // paymaster_data
        1u32, // nonce_data_availability_mode
        1u32, // fee_data_availability_mode
    )));
    out.push(4); // receipt: DeployAccount
    out.extend(receipt_common_bytes(&[0xe5]));
    out.extend(enc(&buf(&[0xf1]))); // receipt contract_address
    let rec = decode_transaction_record(&out).unwrap();
    let d = transaction_detail_of(rec, 0, 0);
    assert_eq!(d.tx_type, TransactionType::DeployAccount);
    assert_eq!(d.sender_address, None);
    assert_eq!(d.nonce.as_deref(), Some("0x09"));
    assert_eq!(d.version.as_deref(), Some("3"));
    assert_eq!(d.calldata, vec!["0xc7".to_string()]);
}

#[test]
fn reverted_result_carries_its_reason() {
    let mut out = vec![0u8, 1u8];
    out.extend(enc(&(
        buf(&[0xaa]),
        Vec::<ByteBuf>::new(),
        buf(&[0x99]),
        Vec::<ByteBuf>::new(),
        buf(&[0x07]),
    )));
    out.push(0);
    let mut rc = enc(&buf(&[0xee]));
    rc.extend(enc(&buf(&[0x0f])));
    rc.push(0); // Wei
    rc.extend(enc(&Vec::<(ByteBuf, ByteBuf, Vec<ByteBuf>)>::new()));
    rc.extend(enc(&Vec::<(ByteBuf, Vec<ByteBuf>, Vec<ByteBuf>)>::new()));
    rc.extend(enc(&(
        0u64,
        0u64,
        0u64,
        0u64,
        0u64,
        0u64,
        0u64,
        0u64,
        0u64,
        0u64,
        (0u128, 0u128, 0u128),
        (0u128, 0u128, 0u128),
    )));
    rc.push(1); // Reverted
    rc.extend(enc(&"out of gas".to_string()));
    out.extend(rc);
    let rec = decode_transaction_record(&out).unwrap();
    let d = transaction_detail_of(rec, 0, 0);
    assert_eq!(d.status, ExecutionStatus::Reverted("out of gas".to_string()));
    assert_eq!(d.fee_unit, "WEI");
}

#[test]
fn record_rejects_trailing_bytes_and_bad_tags() {
    let good = invoke_v1_record(&[0xee]);
    let mut extra = good.clone();
    extra.push(0);
    assert!(decode_transaction_record(&extra).is_none());
    assert!(decode_transaction_record(&vec![5u8]).is_none()); // kind tag out of range
    assert!(decode_transaction_record(&vec![0u8, 3u8]).is_none()); // invoke version tag out of range
    assert!(decode_transaction_record(&vec![]).is_none());
}

fn block_with_hashes(hashes: &[&[u8]]) -> Vec<u8> {
    let mut out = enc(&(
        buf(&[0xbb]),
        3u64,
        buf(&[0x11]),
        buf(&[0x22]),
        99u64,
        hashes.len() as u64,
        buf(&[]),
        0u64,
        buf(&[]),
        Option::<u64>::None,
        Option::<ByteBuf>::None,
        Option::<ByteBuf>::None,
        [0u8, 13u8, 0u8, 1u8],
        (1u128, 1u128, 1u128, 1u128, 1u128, 1u128),
    ));
    out.push(0);
    out.extend(enc(&(
        buf(&[0xaa]),
        0u128,
        hashes.iter().map(|h| buf(h)).collect::<Vec<_>>(),
    )));
    out
}

#[test]
fn decode_failure_falls_back_to_the_block_hash_list() {
    let garbage = vec![0xde, 0xad, 0xbe, 0xef];
    let block = block_with_hashes(&[&[0x0a], &[0x0b]]);
    let d = transaction_detail(Some(&garbage), Some(&block), 3, 1).unwrap();
    assert_eq!(d.tx_hash, "0x0b");
    assert_eq!(d.tx_type, TransactionType::Invoke);
    assert_eq!(d.status, ExecutionStatus::Succeeded);
    assert_eq!(d.actual_fee, "0x0");
    assert_eq!(d.fee_unit, "UNKNOWN");
    assert!(d.calldata.is_empty());
    assert!(d.signature.is_empty());
    assert!(d.events.is_empty());
    assert_eq!(d.sender_address, None);
}

#[test]
fn fallback_needs_the_hash_to_exist() {
    let block = block_with_hashes(&[&[0x0a]]);
    assert!(transaction_detail(None, Some(&block), 3, 5).is_none());
    assert!(transaction_detail(None, None, 3, 0).is_none());
    let garbage = vec![0xff];
    assert!(transaction_detail(Some(&garbage), None, 3, 0).is_none());
}

#[test]
fn good_record_wins_over_fallback() {
    let record = invoke_v1_record(&[0xee]);
    let block = block_with_hashes(&[&[0x0a]]);
    let d = transaction_detail(Some(&record), Some(&block), 3, 0).unwrap();
    assert_eq!(d.tx_hash, "0xee");
    assert_eq!(d.fee_unit, "FRI");
}

#[test]
fn block_transactions_lists_hashes_with_defaults() {
    let block = block_with_hashes(&[&[0x0a], &[0x0b]]);
    let rows = block_transactions(Some(&block), 3);
    assert_eq!(rows.len(), 2);
    assert_eq!(rows[0].tx_hash, "0x0a");
    assert_eq!(rows[0].tx_type, TransactionType::Invoke);
    assert_eq!(rows[0].status, ExecutionStatus::Succeeded);
    assert_eq!(rows[0].tx_index, 0);
    assert_eq!(rows[1].tx_hash, "0x0b");
    assert_eq!(rows[1].tx_index, 1);
    assert!(block_transactions(None, 3).is_empty());
    assert!(block_transactions(Some(&vec![0xff]), 3).is_empty());
}

#[test]
fn summary_of_a_record_reads_its_receipt() {
    let rec = decode_transaction_record(&invoke_v1_record(&[0xee])).unwrap();
    let s = transaction_summary_of(&rec, 8, 2);
    assert_eq!(s.tx_hash, "0xee");
    assert_eq!(s.tx_type, TransactionType::Invoke);
    assert_eq!(s.status, ExecutionStatus::Succeeded);
    assert_eq!(s.block_number, 8);
    assert_eq!(s.tx_index, 2);
}

#[test]
fn transaction_keys_lay_out_block_then_index() {
    assert_eq!(make_transaction_column_key(0x01020304, 0x0506), [1, 2, 3, 4, 5, 6]);
    assert_eq!(transaction_key(0x01020304, 0x0506).unwrap(), vec![1, 2, 3, 4, 5, 6]);
    assert_eq!(transaction_key(u32::MAX as u64 + 1, 0), None);
    assert_eq!(transaction_key(0, u16::MAX as u64 + 1), None);
}
