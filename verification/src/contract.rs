//! Contract records: per-contract class hash and nonce, the per-contract
//! storage-slot range, and class-declaration records classified by their
//! discriminant byte.

use vstd::prelude::*;
use vstd::string::StringSliceAdditionalSpecFns;
use crate::codec::spec_varu64;
use crate::codec::spec_bytebuf;
use crate::codec::read_varu64;
use crate::codec::read_bytebuf;
use crate::codec::copy_range;
use crate::felt::felt_hex_of;
use crate::felt::felt_hex;
use crate::felt::hex_chars;
use crate::felt::hex_with_prefix;
use crate::felt::hex_str_to_key;
use crate::felt::spec_hex_key;

verus! {

/// What is known of a contract: its address in full 32-byte hex form, and
/// the class hash and nonce where the store holds them.
#[derive(Debug, Clone)]
pub struct ContractInfo {
    pub address: String,
    pub class_hash: Option<String>,
    pub nonce: Option<u64>,
}

/// The same row in ghost form.
pub struct ContractInfoV {
    pub address: Seq<char>,
    pub class_hash: Option<Seq<char>>,
    pub nonce: Option<u64>,
}

impl View for ContractInfo {
    type V = ContractInfoV;

    open spec fn view(&self) -> ContractInfoV {
        ContractInfoV {
            address: self.address@,
            class_hash: match &self.class_hash {
                Some(s) => Some(s@),
                None => None,
            },
            nonce: self.nonce,
        }
    }
}

impl DeepView for ContractInfo {
    type V = ContractInfoV;

    open spec fn deep_view(&self) -> ContractInfoV {
        self@
    }
}

/// One storage slot: the raw 32-byte storage key in hex, and the value as a
/// felt.
#[derive(Debug, Clone)]
pub struct StorageEntry {
    pub key: String,
    pub value: String,
}

/// The same entry in ghost form.
pub struct StorageEntryV {
    pub key: Seq<char>,
    pub value: Seq<char>,
}

impl View for StorageEntry {
    type V = StorageEntryV;

    open spec fn view(&self) -> StorageEntryV {
        StorageEntryV { key: self.key@, value: self.value@ }
    }
}

impl DeepView for StorageEntry {
    type V = StorageEntryV;

    open spec fn deep_view(&self) -> StorageEntryV {
        self@
    }
}

/// The two class kinds the store distinguishes, and the catch-all for an
/// unrecognized discriminant.
#[derive(Debug, Clone, Copy, PartialEq, Eq, Structural)]
pub enum ClassType {
    Legacy,
    Sierra,
    Unknown,
}

impl ClassType {
    /// The upper-case label used in API responses.
    pub fn label(&self) -> (r: String)
        ensures
            r@ == spec_class_type_label(*self),
    {
        proof {
            reveal_strlit("LEGACY");
            reveal_strlit("SIERRA");
            reveal_strlit("UNKNOWN");
        }
        match self {
            ClassType::Legacy => "LEGACY".to_owned(),
            ClassType::Sierra => "SIERRA".to_owned(),
            ClassType::Unknown => "UNKNOWN".to_owned(),
        }
    }
}

/// The label of each class kind.
pub open spec fn spec_class_type_label(t: ClassType) -> Seq<char> {
    match t {
        ClassType::Legacy => "LEGACY"@,
        ClassType::Sierra => "SIERRA"@,
        ClassType::Unknown => "UNKNOWN"@,
    }
}

/// What is known of a declared class. Only the discriminant byte of the
/// record is read, so the compiled class hash is never populated here; full
/// body decoding would be a separate, opt-in step.
#[derive(Debug, Clone)]
pub struct ClassInfo {
    pub class_hash: String,
    pub class_type: ClassType,
    pub compiled_class_hash: Option<String>,
}

/// The same row in ghost form.
pub struct ClassInfoV {
    pub class_hash: Seq<char>,
    pub class_type: ClassType,
    pub compiled_class_hash: Option<Seq<char>>,
}

impl View for ClassInfo {
    type V = ClassInfoV;

    open spec fn view(&self) -> ClassInfoV {
        ClassInfoV {
            class_hash: self.class_hash@,
            class_type: self.class_type,
            compiled_class_hash: match &self.compiled_class_hash {
                Some(s) => Some(s@),
                None => None,
            },
        }
    }
}

impl DeepView for ClassInfo {
    type V = ClassInfoV;

    open spec fn deep_view(&self) -> ClassInfoV {
        self@
    }
}

/// The class kind a record's first byte names.
pub open spec fn spec_class_type(b: u8) -> ClassType {
    if b == 0 {
        ClassType::Sierra
    } else if b == 1 {
        ClassType::Legacy
    } else {
        ClassType::Unknown
    }
}

/// A stored felt value: one length-prefixed byte string filling the whole
/// value, rendered as hex.
pub open spec fn spec_felt_value(s: Seq<u8>) -> Option<Seq<char>> {
    match spec_bytebuf(s, 0) {
        Some((b, p)) => if p == s.len() {
            Some(felt_hex_of(b))
        } else {
            None
        },
        None => None,
    }
}

/// Decode a stored felt value and render it, or report a malformed value.
pub fn felt_value_hex(bytes: &Vec<u8>) -> (r: Option<String>)
    ensures
        match r {
            Some(v) => spec_felt_value(bytes@) == Some(v@),
            None => spec_felt_value(bytes@) is None,
        },
{
    match read_bytebuf(bytes, 0) {
        Some((b, p)) => {
            if p == bytes.len() {
                Some(felt_hex(b.as_slice()))
            } else {
                None
            }
        },
        None => None,
    }
}

/// A stored nonce: one variable-width integer filling the whole value.
pub open spec fn spec_nonce_value(s: Seq<u8>) -> Option<u64> {
    match spec_varu64(s, 0) {
        Some((n, p)) => if p == s.len() {
            Some(n)
        } else {
            None
        },
        None => None,
    }
}

/// Decode a stored nonce, or report a malformed value.
pub fn nonce_from_value(bytes: &Vec<u8>) -> (r: Option<u64>)
    ensures
        r == spec_nonce_value(bytes@),
{
    match read_varu64(bytes, 0) {
        Some((n, p)) => {
            if p == bytes.len() {
                Some(n)
            } else {
                None
            }
        },
        None => None,
    }
}

/// Merge a contract's two independent point lookups: either value may be
/// absent or malformed without failing the other. Nothing is found only
/// when the address itself is not valid hex.
pub fn contract_info(
    address: &str,
    class_hash_value: Option<&Vec<u8>>,
    nonce_value: Option<&Vec<u8>>,
) -> (r: Option<ContractInfo>)
    ensures
        ({
            match spec_hex_key(address.spec_bytes()) {
                Some(k) => r matches Some(ci) && ci@.address == seq!['0', 'x'] + hex_chars(k)
                    && ci@.class_hash == (match class_hash_value {
                    Some(v) => spec_felt_value(v@),
                    None => None,
                }) && ci@.nonce == (match nonce_value {
                    Some(v) => spec_nonce_value(v@),
                    None => None,
                }),
                None => r is None,
            }
        }),
{
    let key = match hex_str_to_key(address) {
        Some(k) => k,
        None => { return None },
    };
    let class_hash = match class_hash_value {
        Some(v) => felt_value_hex(v),
        None => None,
    };
    let nonce = match nonce_value {
        Some(v) => nonce_from_value(v),
        None => None,
    };
    Some(ContractInfo { address: hex_with_prefix(key.as_slice()), class_hash, nonce })
}

/// The storage rows a forward scan yields, starting at entry `k` with
/// `limit` rows still wanted: a key shorter than the 64-byte layout is
/// skipped; the scan stops at the first key whose leading 32 bytes leave
/// the address prefix, or once a row fills the limit; a malformed value is
/// skipped and does not count.
pub open spec fn spec_storage_entries(
    pairs: Seq<(Seq<u8>, Seq<u8>)>,
    prefix: Seq<u8>,
    limit: int,
    k: int,
) -> Seq<StorageEntryV>
    decreases pairs.len() - k,
{
    if k < 0 || k >= pairs.len() {
        Seq::empty()
    } else {
        let key = pairs[k].0;
        let value = pairs[k].1;
        if key.len() < 64 {
            spec_storage_entries(pairs, prefix, limit, k + 1)
        } else if key.take(32) != prefix {
            Seq::empty()
        } else {
            match spec_felt_value(value) {
                Some(v) => {
                    let e = StorageEntryV {
                        key: seq!['0', 'x'] + hex_chars(key.subrange(32, 64)),
                        value: v,
                    };
                    if limit <= 1 {
                        seq![e]
                    } else {
                        seq![e] + spec_storage_entries(pairs, prefix, limit - 1, k + 1)
                    }
                },
                None => spec_storage_entries(pairs, prefix, limit, k + 1),
            }
        }
    }
}

/// Whether a key is at least 32 bytes long and starts with the prefix.
fn has_prefix32(key: &Vec<u8>, prefix: &[u8; 32]) -> (r: bool)
    requires
        key@.len() >= 32,
    ensures
        r == (key@.take(32) == prefix@),
{
    let mut i: usize = 0;
    while i < 32
        invariant
            i <= 32,
            key@.len() >= 32,
            forall|j: int| 0 <= j < i ==> key@[j] == prefix@[j],
        decreases 32 - i,
    {
        if key[i] != prefix[i] {
            proof {
                assert(key@.take(32)[i as int] != prefix@[i as int]);
            }
            return false;
        }
        i += 1;
    }
    proof {
        assert(key@.take(32) =~= prefix@);
    }
    true
}

/// Walk scanned storage pairs into display rows, per
/// [`spec_storage_entries`]: stop at the address-prefix boundary or once
/// `limit` rows are filled, whichever comes first.
#[verifier::rlimit(60)]
pub fn storage_entries_from_scan(
    pairs: &Vec<(Vec<u8>, Vec<u8>)>,
    prefix: &[u8; 32],
    limit: usize,
) -> (r: Vec<StorageEntry>)
    ensures
        r.deep_view() == spec_storage_entries(pairs.deep_view(), prefix@, limit as int, 0),
{
    let ghost l = pairs.deep_view();
    let mut out: Vec<StorageEntry> = Vec::new();
    let mut i: usize = 0;
    proof {
        assert(l.len() == pairs@.len());
    }
    while i < pairs.len()
        invariant
            i <= pairs@.len(),
            l == pairs.deep_view(),
            l.len() == pairs@.len(),
            out@.len() <= limit || (limit == 0 && out@.len() <= 1),
            spec_storage_entries(l, prefix@, limit as int, 0) == out.deep_view()
                + spec_storage_entries(l, prefix@, limit as int - out@.len() as int, i as int),
        decreases pairs@.len() - i,
    {
        let ghost rem = limit as int - out@.len() as int;
        let key = &pairs[i].0;
        let value = &pairs[i].1;
        proof {
            assert(l[i as int].0 =~= key@);
            assert(l[i as int].1 =~= value@);
        }
        if key.len() < 64 {
            i += 1;
            continue ;
        }
        if !has_prefix32(key, prefix) {
            proof {
                assert(spec_storage_entries(l, prefix@, rem, i as int) =~= Seq::<
                    StorageEntryV,
                >::empty());
                assert(out.deep_view() + Seq::<StorageEntryV>::empty() =~= out.deep_view());
            }
            return out;
        }
        match felt_value_hex(value) {
            Some(v) => {
                let suffix = copy_range(key, 32, 64);
                let entry = StorageEntry { key: hex_with_prefix(suffix.as_slice()), value: v };
                let ghost pre = out.deep_view();
                proof {
                    assert(suffix@ =~= key@.subrange(32, 64));
                    assert(entry@ == spec_storage_entries(l, prefix@, rem, i as int)[0]);
                }
                out.push(entry);
                proof {
                    assert(out.deep_view() =~= pre.push(entry@));
                }
                if out.len() >= limit {
                    proof {
                        assert(rem <= 1);
                        assert(spec_storage_entries(l, prefix@, rem, i as int) =~= seq![entry@]);
                        assert(out.deep_view() =~= pre + seq![entry@]);
                    }
                    return out;
                }
                proof {
                    assert(spec_storage_entries(l, prefix@, rem, i as int) == seq![entry@]
                        + spec_storage_entries(l, prefix@, rem - 1, i + 1));
                    assert(pre + (seq![entry@] + spec_storage_entries(l, prefix@, rem - 1, i + 1))
                        =~= out.deep_view() + spec_storage_entries(l, prefix@, rem - 1, i + 1));
                }
            },
            None => {
                proof {
                    assert(spec_storage_entries(l, prefix@, rem, i as int) == spec_storage_entries(
                        l,
                        prefix@,
                        rem,
                        i + 1,
                    ));
                }
            },
        }
        i += 1;
    }
    proof {
        assert(spec_storage_entries(l, prefix@, limit as int - out@.len() as int, l.len() as int)
            =~= Seq::<StorageEntryV>::empty());
        assert(out.deep_view() + Seq::<StorageEntryV>::empty() =~= out.deep_view());
    }
    out
}

/// Every row a storage scan yields lies under the requested address prefix:
/// it comes from a scanned key whose leading 32 bytes equal the prefix, so
/// no row of an adjacent contract is ever returned.
pub proof fn lemma_storage_scan_stays_in_prefix(
    pairs: Seq<(Seq<u8>, Seq<u8>)>,
    prefix: Seq<u8>,
    limit: int,
    k: int,
    e: StorageEntryV,
)
    requires
        spec_storage_entries(pairs, prefix, limit, k).contains(e),
    ensures
        exists|j: int|
            k <= j < pairs.len() && (#[trigger] pairs[j].0).len() >= 64 && pairs[j].0.take(32)
                == prefix && e.key == seq!['0', 'x'] + hex_chars(pairs[j].0.subrange(32, 64)),
    decreases pairs.len() - k,
{
    if 0 <= k < pairs.len() {
        let key = pairs[k].0;
        let value = pairs[k].1;
        if key.len() < 64 {
            lemma_storage_scan_stays_in_prefix(pairs, prefix, limit, k + 1, e);
        } else if key.take(32) != prefix {
        } else {
            match spec_felt_value(value) {
                Some(v) => {
                    let e0 = StorageEntryV {
                        key: seq!['0', 'x'] + hex_chars(key.subrange(32, 64)),
                        value: v,
                    };
                    if e == e0 {
                        assert(k <= k < pairs.len() && (pairs[k].0).len() >= 64 && pairs[k].0.take(
                            32,
                        ) == prefix && e.key == seq!['0', 'x'] + hex_chars(
                            pairs[k].0.subrange(32, 64),
                        ));
                    } else {
                        if limit > 1 {
                            assert(spec_storage_entries(pairs, prefix, limit - 1, k + 1).contains(
                                e,
                            ));
                            lemma_storage_scan_stays_in_prefix(pairs, prefix, limit - 1, k + 1, e);
                        }
                    }
                },
                None => {
                    lemma_storage_scan_stays_in_prefix(pairs, prefix, limit, k + 1, e);
                },
            }
        }
    }
}

/// Classify a class record by its value: nothing for an empty value, else
/// by the first byte.
pub fn class_info(class_hash: &str, value: Option<&Vec<u8>>) -> (r: Option<ClassInfo>)
    ensures
        ({
            match spec_hex_key(class_hash.spec_bytes()) {
                Some(k) => match value {
                    Some(v) => if v@.len() == 0 {
                        r is None
                    } else {
                        r matches Some(ci) && ci@.class_hash == seq!['0', 'x'] + hex_chars(k)
                            && ci@.class_type == spec_class_type(v@[0])
                            && ci@.compiled_class_hash is None
                    },
                    None => r is None,
                },
                None => r is None,
            }
        }),
{
    let key = match hex_str_to_key(class_hash) {
        Some(k) => k,
        None => { return None },
    };
    let v = match value {
        Some(v) => v,
        None => { return None },
    };
    if v.len() == 0 {
        return None;
    }
    let class_type = if v[0] == 0 {
        ClassType::Sierra
    } else if v[0] == 1 {
        ClassType::Legacy
    } else {
        ClassType::Unknown
    };
    Some(ClassInfo { class_hash: hex_with_prefix(key.as_slice()), class_type, compiled_class_hash: None })
}

/// The contract rows a scan of the class-hash records yields, from entry
/// `k` with `limit` rows still wanted, nonces not yet attached: a key of at
/// least 32 bytes gives a row addressed by its first 32 bytes; a shorter,
/// nonempty key is still accepted, hex-encoded whole; an empty key is
/// skipped and does not count.
pub open spec fn spec_contract_rows(
    pairs: Seq<(Seq<u8>, Seq<u8>)>,
    limit: int,
    k: int,
) -> Seq<ContractInfoV>
    decreases pairs.len() - k,
{
    if k < 0 || k >= pairs.len() {
        Seq::empty()
    } else {
        let key = pairs[k].0;
        let value = pairs[k].1;
        if key.len() == 0 {
            spec_contract_rows(pairs, limit, k + 1)
        } else {
            let addr = if key.len() >= 32 {
                key.take(32)
            } else {
                key
            };
            let row = ContractInfoV {
                address: seq!['0', 'x'] + hex_chars(addr),
                class_hash: spec_felt_value(value),
                nonce: None,
            };
            if limit <= 1 {
                seq![row]
            } else {
                seq![row] + spec_contract_rows(pairs, limit - 1, k + 1)
            }
        }
    }
}

/// The 32-byte nonce-lookup key of each row of [`spec_contract_rows`]:
/// present only where the scanned key had the full 32-byte address.
pub open spec fn spec_nonce_keys(pairs: Seq<(Seq<u8>, Seq<u8>)>, limit: int, k: int) -> Seq<
    Option<Seq<u8>>,
>
    decreases pairs.len() - k,
{
    if k < 0 || k >= pairs.len() {
        Seq::empty()
    } else {
        let key = pairs[k].0;
        if key.len() == 0 {
            spec_nonce_keys(pairs, limit, k + 1)
        } else {
            let nk = if key.len() >= 32 {
                Some(key.take(32))
            } else {
                None
            };
            if limit <= 1 {
                seq![nk]
            } else {
                seq![nk] + spec_nonce_keys(pairs, limit - 1, k + 1)
            }
        }
    }
}

/// Walk scanned class-hash pairs into contract rows, nonces left empty, per
/// [`spec_contract_rows`].
#[verifier::rlimit(60)]
pub fn contracts_from_scan(pairs: &Vec<(Vec<u8>, Vec<u8>)>, limit: usize) -> (r: Vec<ContractInfo>)
    ensures
        r.deep_view() == spec_contract_rows(pairs.deep_view(), limit as int, 0),
{
    let ghost l = pairs.deep_view();
    let mut out: Vec<ContractInfo> = Vec::new();
    let mut i: usize = 0;
    proof {
        assert(l.len() == pairs@.len());
    }
    while i < pairs.len()
        invariant
            i <= pairs@.len(),
            l == pairs.deep_view(),
            l.len() == pairs@.len(),
            spec_contract_rows(l, limit as int, 0) == out.deep_view() + spec_contract_rows(
                l,
                limit as int - out@.len() as int,
                i as int,
            ),
        decreases pairs@.len() - i,
    {
        let ghost rem = limit as int - out@.len() as int;
        let key = &pairs[i].0;
        let value = &pairs[i].1;
        proof {
            assert(l[i as int].0 =~= key@);
            assert(l[i as int].1 =~= value@);
        }
        if key.len() == 0 {
            i += 1;
            continue ;
        }
        let addr: Vec<u8> = if key.len() >= 32 {
            copy_range(key, 0, 32)
        } else {
            copy_range(key, 0, key.len())
        };
        proof {
            if key@.len() >= 32 {
                assert(addr@ =~= key@.take(32));
            } else {
                assert(addr@ =~= key@);
            }
        }
        let row = ContractInfo {
            address: hex_with_prefix(addr.as_slice()),
            class_hash: felt_value_hex(value),
            nonce: None,
        };
        let ghost pre = out.deep_view();
        proof {
            assert(row@ == spec_contract_rows(l, rem, i as int)[0]);
        }
        out.push(row);
        proof {
            assert(out.deep_view() =~= pre.push(row@));
        }
        if out.len() >= limit {
            proof {
                assert(rem <= 1);
                assert(spec_contract_rows(l, rem, i as int) =~= seq![out.deep_view().last()]);
                assert(out.deep_view() =~= pre + spec_contract_rows(l, rem, i as int));
            }
            return out;
        }
        proof {
            assert(spec_contract_rows(l, rem, i as int) == seq![out.deep_view().last()]
                + spec_contract_rows(l, rem - 1, i + 1));
            assert(pre + (seq![out.deep_view().last()] + spec_contract_rows(l, rem - 1, i + 1))
                =~= out.deep_view() + spec_contract_rows(l, rem - 1, i + 1));
        }
        i += 1;
    }
    proof {
        assert(spec_contract_rows(l, limit as int - out@.len() as int, l.len() as int) =~= Seq::<
            ContractInfoV,
        >::empty());
        assert(out.deep_view() + Seq::<ContractInfoV>::empty() =~= out.deep_view());
    }
    out
}

/// Walk the same scanned pairs into the nonce-lookup keys of each row, per
/// [`spec_nonce_keys`].
#[verifier::rlimit(60)]
pub fn nonce_keys_from_scan(pairs: &Vec<(Vec<u8>, Vec<u8>)>, limit: usize) -> (r: Vec<
    Option<Vec<u8>>,
>)
    ensures
        r.deep_view() == spec_nonce_keys(pairs.deep_view(), limit as int, 0),
{
    let ghost l = pairs.deep_view();
    let mut out: Vec<Option<Vec<u8>>> = Vec::new();
    let mut i: usize = 0;
    proof {
        assert(l.len() == pairs@.len());
    }
    while i < pairs.len()
        invariant
            i <= pairs@.len(),
            l == pairs.deep_view(),
            l.len() == pairs@.len(),
            spec_nonce_keys(l, limit as int, 0) == out.deep_view() + spec_nonce_keys(
                l,
                limit as int - out@.len() as int,
                i as int,
            ),
        decreases pairs@.len() - i,
    {
        let ghost rem = limit as int - out@.len() as int;
        let key = &pairs[i].0;
        proof {
            assert(l[i as int].0 =~= key@);
        }
        if key.len() == 0 {
            i += 1;
            continue ;
        }
        let nk: Option<Vec<u8>> = if key.len() >= 32 {
            Some(copy_range(key, 0, 32))
        } else {
            None
        };
        let ghost pre = out.deep_view();
        proof {
            if key@.len() >= 32 {
                assert(nk.deep_view() matches Some(b) && b =~= key@.take(32));
            }
            assert(nk.deep_view() == spec_nonce_keys(l, rem, i as int)[0]);
        }
        out.push(nk);
        proof {
            assert(out.deep_view() =~= pre.push(out.deep_view().last()));
        }
        if out.len() >= limit {
            proof {
                assert(rem <= 1);
                assert(spec_nonce_keys(l, rem, i as int) =~= seq![out.deep_view().last()]);
                assert(out.deep_view() =~= pre + spec_nonce_keys(l, rem, i as int));
            }
            return out;
        }
        proof {
            assert(spec_nonce_keys(l, rem, i as int) == seq![out.deep_view().last()]
                + spec_nonce_keys(l, rem - 1, i + 1));
            assert(pre + (seq![out.deep_view().last()] + spec_nonce_keys(l, rem - 1, i + 1))
                =~= out.deep_view() + spec_nonce_keys(l, rem - 1, i + 1));
        }
        i += 1;
    }
    proof {
        assert(spec_nonce_keys(l, limit as int - out@.len() as int, l.len() as int) =~= Seq::<
            Option<Seq<u8>>,
        >::empty());
        assert(out.deep_view() + Seq::<Option<Seq<u8>>>::empty() =~= out.deep_view());
    }
    out
}

/// Attach fetched nonce values to contract rows: row `i` takes the decoded
/// nonce of value `i` where one was fetched and decodes; every other field
/// is kept.
pub fn attach_nonces(rows: Vec<ContractInfo>, values: &Vec<Option<Vec<u8>>>) -> (r: Vec<
    ContractInfo,
>)
    ensures
        r@.len() == rows@.len(),
        forall|i: int|
            0 <= i < r@.len() ==> (#[trigger] r.deep_view()[i]).address
                == rows.deep_view()[i].address && r.deep_view()[i].class_hash
                == rows.deep_view()[i].class_hash && r.deep_view()[i].nonce == (if 0 <= i
                < values@.len() {
                match values.deep_view()[i] {
                    Some(v) => spec_nonce_value(v),
                    None => rows.deep_view()[i].nonce,
                }
            } else {
                rows.deep_view()[i].nonce
            }),
{
    let ghost rowsv = rows.deep_view();
    let mut out: Vec<ContractInfo> = Vec::new();
    let mut i: usize = 0;
    let n = rows.len();
    let mut rest = rows;
    while i < n
        invariant
            i <= n,
            rest@.len() == n,
            rest.deep_view() == rowsv,
            out@.len() == i,
            forall|j: int|
                0 <= j < i ==> (#[trigger] out.deep_view()[j]).address == rowsv[j].address
                    && out.deep_view()[j].class_hash == rowsv[j].class_hash
                    && out.deep_view()[j].nonce == (if 0 <= j < values@.len() {
                    match values.deep_view()[j] {
                        Some(v) => spec_nonce_value(v),
                        None => rowsv[j].nonce,
                    }
                } else {
                    rowsv[j].nonce
                }),
        decreases n - i,
    {
        let row = &rest[i];
        let nonce: Option<u64> = if i < values.len() {
            match &values[i] {
                Some(v) => {
                    proof {
                        assert(values.deep_view()[i as int] matches Some(b) && b =~= v@);
                    }
                    nonce_from_value(v)
                },
                None => {
                    proof {
                        assert(values.deep_view()[i as int] is None);
                    }
                    row.nonce
                },
            }
        } else {
            row.nonce
        };
        let updated = ContractInfo {
            address: row.address.clone(),
            class_hash: match &row.class_hash {
                Some(s) => Some(s.clone()),
                None => None,
            },
            nonce,
        };
        proof {
            assert(rowsv[i as int] == rest.deep_view()[i as int]);
            assert(updated@.address == rowsv[i as int].address);
            assert(updated@.class_hash == rowsv[i as int].class_hash);
        }
        let ghost pre = out.deep_view();
        let ghost upv = updated@;
        out.push(updated);
        proof {
            assert(out.deep_view() =~= pre.push(upv));
            assert forall|j: int| 0 <= j < i + 1 implies (#[trigger] out.deep_view()[j]).address
                == rowsv[j].address && out.deep_view()[j].class_hash == rowsv[j].class_hash
                && out.deep_view()[j].nonce == (if 0 <= j < values@.len() {
                match values.deep_view()[j] {
                    Some(v) => spec_nonce_value(v),
                    None => rowsv[j].nonce,
                }
            } else {
                rowsv[j].nonce
            }) by {
                if j < i {
                    assert(out.deep_view()[j] == pre[j]);
                } else {
                    assert(out.deep_view()[j] == upv);
                }
            }
        }
        i += 1;
    }
    out
}

/// The class rows a scan of the class records yields, from entry `k` with
/// `limit` rows still wanted: only exactly-32-byte keys are accepted; any
/// other key is skipped and does not count.
pub open spec fn spec_class_rows(pairs: Seq<(Seq<u8>, Seq<u8>)>, limit: int, k: int) -> Seq<
    ClassInfoV,
>
    decreases pairs.len() - k,
{
    if k < 0 || k >= pairs.len() {
        Seq::empty()
    } else {
        let key = pairs[k].0;
        let value = pairs[k].1;
        if key.len() != 32 {
            spec_class_rows(pairs, limit, k + 1)
        } else {
            let row = ClassInfoV {
                class_hash: seq!['0', 'x'] + hex_chars(key),
                class_type: if value.len() == 0 {
                    ClassType::Unknown
                } else {
                    spec_class_type(value[0])
                },
                compiled_class_hash: None,
            };
            if limit <= 1 {
                seq![row]
            } else {
                seq![row] + spec_class_rows(pairs, limit - 1, k + 1)
            }
        }
    }
}

/// Walk scanned class records into class rows, per [`spec_class_rows`].
#[verifier::rlimit(60)]
pub fn classes_from_scan(pairs: &Vec<(Vec<u8>, Vec<u8>)>, limit: usize) -> (r: Vec<ClassInfo>)
    ensures
        r.deep_view() == spec_class_rows(pairs.deep_view(), limit as int, 0),
{
    let ghost l = pairs.deep_view();
    let mut out: Vec<ClassInfo> = Vec::new();
    let mut i: usize = 0;
    proof {
        assert(l.len() == pairs@.len());
    }
    while i < pairs.len()
        invariant
            i <= pairs@.len(),
            l == pairs.deep_view(),
            l.len() == pairs@.len(),
            spec_class_rows(l, limit as int, 0) == out.deep_view() + spec_class_rows(
                l,
                limit as int - out@.len() as int,
                i as int,
            ),
        decreases pairs@.len() - i,
    {
        let ghost rem = limit as int - out@.len() as int;
        let key = &pairs[i].0;
        let value = &pairs[i].1;
        proof {
            assert(l[i as int].0 =~= key@);
            assert(l[i as int].1 =~= value@);
        }
        if key.len() != 32 {
            i += 1;
            continue ;
        }
        let class_type = if value.len() == 0 {
            ClassType::Unknown
        } else if value[0] == 0 {
            ClassType::Sierra
        } else if value[0] == 1 {
            ClassType::Legacy
        } else {
            ClassType::Unknown
        };
        let row = ClassInfo {
            class_hash: hex_with_prefix(key.as_slice()),
            class_type,
            compiled_class_hash: None,
        };
        let ghost pre = out.deep_view();
        proof {
            assert(row@ == spec_class_rows(l, rem, i as int)[0]);
        }
        out.push(row);
        proof {
            assert(out.deep_view() =~= pre.push(row@));
        }
        if out.len() >= limit {
            proof {
                assert(rem <= 1);
                assert(spec_class_rows(l, rem, i as int) =~= seq![row@]);
                assert(out.deep_view() =~= pre + spec_class_rows(l, rem, i as int));
            }
            return out;
        }
        proof {
            assert(spec_class_rows(l, rem, i as int) == seq![row@] + spec_class_rows(
                l,
                rem - 1,
                i + 1,
            ));
            assert(pre + (seq![row@] + spec_class_rows(l, rem - 1, i + 1)) =~= out.deep_view()
                + spec_class_rows(l, rem - 1, i + 1));
        }
        i += 1;
    }
    proof {
        assert(spec_class_rows(l, limit as int - out@.len() as int, l.len() as int) =~= Seq::<
            ClassInfoV,
        >::empty());
        assert(out.deep_view() + Seq::<ClassInfoV>::empty() =~= out.deep_view());
    }
    out
}

} // verus!
