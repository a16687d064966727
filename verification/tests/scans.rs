use bincode::Options;
use serde_bytes::ByteBuf;

use makimono::contract::contract_info;
use makimono::contract::class_info;
use makimono::contract::storage_entries_from_scan;
use makimono::contract::contracts_from_scan;
use makimono::contract::nonce_keys_from_scan;
use makimono::contract::attach_nonces;
use makimono::contract::classes_from_scan;
use makimono::contract::felt_value_hex;
use makimono::contract::nonce_from_value;
use makimono::contract::ClassType;
use makimono::felt::hex_str_to_key;
use makimono::responses::health_response;
use makimono::responses::block_list_response;
use makimono::responses::transaction_list_response;
use makimono::responses::status_strings;
use makimono::txn::ExecutionStatus;

fn enc<T: serde::Serialize>(v: &T) -> Vec<u8> {
    bincode::DefaultOptions::new().serialize(v).unwrap()
}

fn felt_value(bytes: &[u8]) -> Vec<u8> {
    enc(&ByteBuf::from(bytes.to_vec()))
}

#[test]
fn stored_felt_and_nonce_values_decode() {
    assert_eq!(felt_value_hex(&felt_value(&[0xab])).unwrap(), "0xab");
    assert_eq!(felt_value_hex(&vec![3, 1, 2]), None); // length overruns the value
    assert_eq!(nonce_from_value(&enc(&42u64)), Some(42));
    assert_eq!(nonce_from_value(&enc(&(u32::MAX as u64 + 7))), Some(u32::MAX as u64 + 7));
    let mut extra = enc(&1u64);
    extra.push(0);
    assert_eq!(nonce_from_value(&extra), None);
}

#[test]
fn contract_info_merges_independent_lookups() {
    let chv = felt_value(&[0x42]);
    let nv = enc(&9u64);
    let ci = contract_info("AB", Some(&chv), Some(&nv)).unwrap();
    assert_eq!(ci.address, format!("0x{}ab", "00".repeat(31)));
    assert_eq!(ci.class_hash.as_deref(), Some("0x42"));
    assert_eq!(ci.nonce, Some(9));

    // either side may be absent or malformed without failing the other
    let ci = contract_info("AB", None, Some(&nv)).unwrap();
    assert_eq!(ci.class_hash, None);
    assert_eq!(ci.nonce, Some(9));
    let bad = vec![9, 9];
    let ci = contract_info("AB", Some(&bad), None).unwrap();
    assert_eq!(ci.class_hash, None);
    assert_eq!(ci.nonce, None);

    // a malformed address is the only thing that yields nothing
    assert!(contract_info("xyz", Some(&chv), Some(&nv)).is_none());
}

#[test]
fn address_normalization_resolves_both_forms_alike() {
    let long = format!("0x{}ab", "00".repeat(31));
    let a = contract_info("AB", None, None).unwrap();
    let b = contract_info(&long, None, None).unwrap();
    assert_eq!(a.address, b.address);
    assert_eq!(hex_str_to_key("AB"), hex_str_to_key(&long));
}

fn storage_key(addr: &[u8; 32], slot: u8) -> Vec<u8> {
    let mut k = addr.to_vec();
    let mut s = [0u8; 32];
    s[31] = slot;
    k.extend_from_slice(&s);
    k
}

#[test]
fn storage_scan_stops_at_the_address_boundary() {
    let a = [0x0au8; 32];
    let b = [0x0bu8; 32];
    let pairs = vec![
        (storage_key(&a, 1), felt_value(&[0x11])),
        (storage_key(&a, 2), felt_value(&[0x12])),
        (storage_key(&b, 1), felt_value(&[0x13])),
        (storage_key(&b, 2), felt_value(&[0x14])),
    ];
    let rows = storage_entries_from_scan(&pairs, &a, 1000);
    assert_eq!(rows.len(), 2);
    assert_eq!(rows[0].key, format!("0x{}01", "00".repeat(31)));
    assert_eq!(rows[0].value, "0x11");
    assert_eq!(rows[1].value, "0x12");
    for r in &rows {
        assert!(!r.value.contains("13"));
        assert!(!r.value.contains("14"));
    }
}

#[test]
fn storage_scan_honours_the_limit_and_skips_short_keys() {
    let a = [0x0au8; 32];
    let pairs = vec![
        (vec![0x0a; 10], felt_value(&[0x77])), // short key: skipped, not counted
        (storage_key(&a, 1), felt_value(&[0x11])),
        (storage_key(&a, 2), vec![9, 9]), // malformed value: skipped, not counted
        (storage_key(&a, 3), felt_value(&[0x13])),
        (storage_key(&a, 4), felt_value(&[0x14])),
    ];
    let rows = storage_entries_from_scan(&pairs, &a, 2);
    assert_eq!(rows.len(), 2);
    assert_eq!(rows[0].value, "0x11");
    assert_eq!(rows[1].value, "0x13");
}

#[test]
fn storage_scan_limit_is_checked_after_each_row() {
    // the limit check runs after a row is filled, so a zero limit still
    // yields the first row of the prefix
    let a = [0x0au8; 32];
    let pairs = vec![
        (storage_key(&a, 1), felt_value(&[0x11])),
        (storage_key(&a, 2), felt_value(&[0x12])),
    ];
    assert_eq!(storage_entries_from_scan(&pairs, &a, 0).len(), 1);
    assert_eq!(storage_entries_from_scan(&pairs, &a, 1).len(), 1);
}

#[test]
fn contract_listing_accepts_short_keys_without_nonce_lookup() {
    let a = [0x0au8; 32];
    let pairs = vec![
        (a.to_vec(), felt_value(&[0x41])),
        (vec![0xcd], felt_value(&[0x42])), // short key: hex of what is present
        (vec![], felt_value(&[0x43])), // empty key: skipped
        ([0x0bu8; 32].to_vec(), felt_value(&[0x44])),
    ];
    let rows = contracts_from_scan(&pairs, 10);
    assert_eq!(rows.len(), 3);
    assert_eq!(rows[0].address, format!("0x{}", "0a".repeat(32)));
    assert_eq!(rows[0].class_hash.as_deref(), Some("0x41"));
    assert_eq!(rows[1].address, "0xcd");
    assert_eq!(rows[2].class_hash.as_deref(), Some("0x44"));
    for r in &rows {
        assert_eq!(r.nonce, None);
    }

    let keys = nonce_keys_from_scan(&pairs, 10);
    assert_eq!(keys.len(), 3);
    assert_eq!(keys[0].as_deref(), Some(&a[..]));
    assert_eq!(keys[1], None);

    let values = vec![Some(enc(&5u64)), None, Some(enc(&8u64))];
    let rows = attach_nonces(rows, &values);
    assert_eq!(rows[0].nonce, Some(5));
    assert_eq!(rows[1].nonce, None);
    assert_eq!(rows[2].nonce, Some(8));
    assert_eq!(rows[0].class_hash.as_deref(), Some("0x41"));
}

#[test]
fn contract_listing_honours_the_limit() {
    let pairs: Vec<(Vec<u8>, Vec<u8>)> = (0u8..5)
        .map(|i| ([i; 32].to_vec(), felt_value(&[i + 1])))
        .collect();
    assert_eq!(contracts_from_scan(&pairs, 3).len(), 3);
    assert_eq!(nonce_keys_from_scan(&pairs, 3).len(), 3);
}

#[test]
fn class_record_is_classified_by_its_first_byte() {
    let hash = format!("0x{}", "11".repeat(32));
    let sierra = vec![0u8, 1, 2, 3];
    let legacy = vec![1u8, 9];
    let other = vec![7u8];
    assert_eq!(class_info(&hash, Some(&sierra)).unwrap().class_type, ClassType::Sierra);
    assert_eq!(class_info(&hash, Some(&legacy)).unwrap().class_type, ClassType::Legacy);
    let ci = class_info(&hash, Some(&other)).unwrap();
    assert_eq!(ci.class_type, ClassType::Unknown);
    assert_eq!(ci.class_hash, hash);
    assert_eq!(ci.compiled_class_hash, None);
    assert!(class_info(&hash, Some(&vec![])).is_none()); // empty value
    assert!(class_info(&hash, None).is_none()); // not stored
    assert!(class_info("nothex", Some(&sierra)).is_none()); // bad hash string
}

#[test]
fn class_listing_accepts_only_32_byte_keys() {
    let pairs = vec![
        ([0x11u8; 32].to_vec(), vec![0u8]),
        (vec![0x22; 31], vec![0u8]), // wrong length: skipped
        ([0x33u8; 32].to_vec(), vec![1u8]),
        ([0x44u8; 32].to_vec(), vec![]),
    ];
    let rows = classes_from_scan(&pairs, 10);
    assert_eq!(rows.len(), 3);
    assert_eq!(rows[0].class_type, ClassType::Sierra);
    assert_eq!(rows[1].class_type, ClassType::Legacy);
    assert_eq!(rows[2].class_type, ClassType::Unknown);
    assert_eq!(rows[0].class_hash, format!("0x{}", "11".repeat(32)));
    assert_eq!(classes_from_scan(&pairs, 2).len(), 2);
}

#[test]
fn response_shapes_fill_their_rules() {
    assert_eq!(health_response().status, "ok");
    let page = block_list_response(Vec::new(), Some(9), 2, 5);
    assert_eq!(page.total, 10);
    assert_eq!(page.offset, 2);
    assert_eq!(page.limit, 5);
    assert_eq!(block_list_response(Vec::new(), None, 0, 5).total, 0);
    let txs = transaction_list_response(Vec::new(), 7);
    assert_eq!(txs.total, 0);
    assert_eq!(txs.block_number, 7);
    assert_eq!(
        status_strings(ExecutionStatus::Succeeded),
        ("SUCCEEDED".to_string(), None)
    );
    assert_eq!(
        status_strings(ExecutionStatus::Reverted("why".into())),
        ("REVERTED".to_string(), Some("why".to_string()))
    );
}

#[test]
fn unknown_hash_lookup_is_a_miss_not_an_error() {
    // the index lookup path: a well-formed but unknown hash still yields a
    // valid key, and the absent store value simply produces no location
    let key = hex_str_to_key("0xdeadbeef");
    assert!(key.is_some());
    let fetched: Option<Vec<u8>> = None;
    let location = fetched.and_then(|v| makimono::txn::decode_tx_location(&v));
    assert_eq!(location, None);
}
