//! Block records: the per-block header record stored under a 4-byte
//! big-endian block number, and the listing and pagination rules over it.

use vstd::prelude::*;
use crate::codec::spec_opt_tag;
use crate::codec::spec_varu64;
use crate::codec::spec_varu32;
use crate::codec::spec_varu128;
use crate::codec::spec_bytebuf;
use crate::codec::spec_buf_list;
use crate::codec::read_opt_tag;
use crate::codec::read_varu64;
use crate::codec::read_varu32;
use crate::codec::read_varu128;
use crate::codec::read_bytebuf;
use crate::codec::read_buf_list;
use crate::felt::felt_hex_of;
use crate::felt::felt_hex;

verus! {

/// The fields of a decoded block record that this crate exposes. Decoding
/// validates the whole record; fields not listed here are checked and
/// dropped.
pub struct BlockRecordV {
    pub block_number: u64,
    pub timestamp: u64,
    pub transaction_count: u64,
    pub event_count: u64,
    pub parent_hash: Seq<u8>,
    pub state_root: Seq<u8>,
    pub sequencer_address: Seq<u8>,
    pub block_hash: Seq<u8>,
    pub l2_gas_used: u128,
    pub tx_hashes: Seq<Seq<u8>>,
}

/// A decoded block record.
#[derive(Debug, Clone)]
pub struct BlockRecord {
    pub block_number: u64,
    pub timestamp: u64,
    pub transaction_count: u64,
    pub event_count: u64,
    pub parent_hash: Vec<u8>,
    pub state_root: Vec<u8>,
    pub sequencer_address: Vec<u8>,
    pub block_hash: Vec<u8>,
    pub l2_gas_used: u128,
    pub tx_hashes: Vec<Vec<u8>>,
}

impl View for BlockRecord {
    type V = BlockRecordV;

    open spec fn view(&self) -> BlockRecordV {
        BlockRecordV {
            block_number: self.block_number,
            timestamp: self.timestamp,
            transaction_count: self.transaction_count,
            event_count: self.event_count,
            parent_hash: self.parent_hash@,
            state_root: self.state_root@,
            sequencer_address: self.sequencer_address@,
            block_hash: self.block_hash@,
            l2_gas_used: self.l2_gas_used,
            tx_hashes: self.tx_hashes.deep_view(),
        }
    }
}

/// An optional integer field: a tag byte, then the value when present.
pub open spec fn spec_skip_opt_u64(s: Seq<u8>, pos: int) -> Option<int> {
    match spec_opt_tag(s, pos) {
        Some((present, p)) => if present {
            match spec_varu64(s, p) {
                Some((_, q)) => Some(q),
                None => None,
            }
        } else {
            Some(p)
        },
        None => None,
    }
}

/// An optional byte-string field: a tag byte, then the bytes when present.
pub open spec fn spec_skip_opt_buf(s: Seq<u8>, pos: int) -> Option<int> {
    match spec_opt_tag(s, pos) {
        Some((present, p)) => if present {
            match spec_bytebuf(s, p) {
                Some((_, q)) => Some(q),
                None => None,
            }
        } else {
            Some(p)
        },
        None => None,
    }
}

/// The gas-price vector: six variable-width 128-bit prices.
pub open spec fn spec_skip_gas_prices(s: Seq<u8>, pos: int) -> Option<int> {
    match spec_varu128(s, pos) {
        Some((_, p1)) => match spec_varu128(s, p1) {
            Some((_, p2)) => match spec_varu128(s, p2) {
                Some((_, p3)) => match spec_varu128(s, p3) {
                    Some((_, p4)) => match spec_varu128(s, p4) {
                        Some((_, p5)) => match spec_varu128(s, p5) {
                            Some((_, p6)) => Some(p6),
                            None => None,
                        },
                        None => None,
                    },
                    None => None,
                },
                None => None,
            },
            None => None,
        },
        None => None,
    }
}

/// An enum tag that must name one of `n` variants.
pub open spec fn spec_enum_tag(s: Seq<u8>, pos: int, n: u32) -> Option<(u32, int)> {
    match spec_varu32(s, pos) {
        Some((v, p)) => if v < n {
            Some((v, p))
        } else {
            None
        },
        None => None,
    }
}

/// The block header: hashes and counters, then commitments, optional
/// state-diff metadata, a 4-byte protocol version, gas prices and the
/// data-availability mode tag (two variants).
pub open spec fn spec_block_header(s: Seq<u8>, pos: int) -> Option<(BlockRecordV, int)> {
    match spec_bytebuf(s, pos) {
        Some((parent_hash, p1)) => match spec_varu64(s, p1) {
            Some((block_number, p2)) => match spec_bytebuf(s, p2) {
                Some((state_root, p3)) => match spec_bytebuf(s, p3) {
                    Some((sequencer, p4)) => match spec_varu64(s, p4) {
                        Some((timestamp, p5)) => match spec_varu64(s, p5) {
                            Some((tx_count, p6)) => match spec_bytebuf(s, p6) {
                                Some((_, p7)) => match spec_varu64(s, p7) {
                                    Some((event_count, p8)) => match spec_bytebuf(s, p8) {
                                        Some((_, p9)) => match spec_skip_opt_u64(s, p9) {
                                            Some(p10) => match spec_skip_opt_buf(s, p10) {
                                                Some(p11) => match spec_skip_opt_buf(s, p11) {
                                                    Some(p12) => if p12 + 4 <= s.len() {
                                                        match spec_skip_gas_prices(s, p12 + 4) {
                                                            Some(p13) => match spec_enum_tag(
                                                                s,
                                                                p13,
                                                                2,
                                                            ) {
                                                                Some((_, p14)) => Some(
                                                                    (
                                                                        BlockRecordV {
                                                                            block_number,
                                                                            timestamp,
                                                                            transaction_count:
                                                                                tx_count,
                                                                            event_count,
                                                                            parent_hash,
                                                                            state_root,
                                                                            sequencer_address:
                                                                                sequencer,
                                                                            block_hash: Seq::empty(),
                                                                            l2_gas_used: 0,
                                                                            tx_hashes: Seq::empty(),
                                                                        },
                                                                        p14,
                                                                    ),
                                                                ),
                                                                None => None,
                                                            },
                                                            None => None,
                                                        }
                                                    } else {
                                                        None
                                                    },
                                                    None => None,
                                                },
                                                None => None,
                                            },
                                            None => None,
                                        },
                                        None => None,
                                    },
                                    None => None,
                                },
                                None => None,
                            },
                            None => None,
                        },
                        None => None,
                    },
                    None => None,
                },
                None => None,
            },
            None => None,
        },
        None => None,
    }
}

/// A whole block record: the header, then the block hash, the total L2 gas
/// used, and the ordered transaction-hash list; nothing may follow.
pub open spec fn spec_block_record(s: Seq<u8>) -> Option<BlockRecordV> {
    match spec_block_header(s, 0) {
        Some((h, p)) => match spec_bytebuf(s, p) {
            Some((block_hash, q1)) => match spec_varu128(s, q1) {
                Some((l2_gas_used, q2)) => match spec_buf_list(s, q2) {
                    Some((tx_hashes, q3)) => if q3 == s.len() {
                        Some(
                            BlockRecordV {
                                block_hash,
                                l2_gas_used,
                                tx_hashes,
                                ..h
                            },
                        )
                    } else {
                        None
                    },
                    None => None,
                },
                None => None,
            },
            None => None,
        },
        None => None,
    }
}

/// Read past an optional integer field.
fn skip_opt_u64(s: &Vec<u8>, pos: usize) -> (r: Option<usize>)
    ensures
        match r {
            Some(p) => spec_skip_opt_u64(s@, pos as int) == Some(p as int) && pos < p <= s@.len(),
            None => spec_skip_opt_u64(s@, pos as int) is None,
        },
{
    match read_opt_tag(s, pos) {
        Some((present, p)) => {
            if present {
                match read_varu64(s, p) {
                    Some((_, q)) => Some(q),
                    None => None,
                }
            } else {
                Some(p)
            }
        },
        None => None,
    }
}

/// Read past an optional byte-string field.
fn skip_opt_buf(s: &Vec<u8>, pos: usize) -> (r: Option<usize>)
    ensures
        match r {
            Some(p) => spec_skip_opt_buf(s@, pos as int) == Some(p as int) && pos < p <= s@.len(),
            None => spec_skip_opt_buf(s@, pos as int) is None,
        },
{
    match read_opt_tag(s, pos) {
        Some((present, p)) => {
            if present {
                match read_bytebuf(s, p) {
                    Some((_, q)) => Some(q),
                    None => None,
                }
            } else {
                Some(p)
            }
        },
        None => None,
    }
}

/// Read past the six gas prices.
fn skip_gas_prices(s: &Vec<u8>, pos: usize) -> (r: Option<usize>)
    ensures
        match r {
            Some(p) => spec_skip_gas_prices(s@, pos as int) == Some(p as int) && pos < p
                <= s@.len(),
            None => spec_skip_gas_prices(s@, pos as int) is None,
        },
{
    let mut cur: usize = pos;
    match read_varu128(s, cur) {
        Some((_, p)) => { cur = p },
        None => { return None },
    }
    match read_varu128(s, cur) {
        Some((_, p)) => { cur = p },
        None => { return None },
    }
    match read_varu128(s, cur) {
        Some((_, p)) => { cur = p },
        None => { return None },
    }
    match read_varu128(s, cur) {
        Some((_, p)) => { cur = p },
        None => { return None },
    }
    match read_varu128(s, cur) {
        Some((_, p)) => { cur = p },
        None => { return None },
    }
    match read_varu128(s, cur) {
        Some((_, p)) => Some(p),
        None => None,
    }
}

/// Read an enum tag naming one of `n` variants.
pub(crate) fn read_enum_tag(s: &Vec<u8>, pos: usize, n: u32) -> (r: Option<(u32, usize)>)
    ensures
        match r {
            Some((v, p)) => spec_enum_tag(s@, pos as int, n) == Some((v, p as int)) && pos < p
                <= s@.len() && v < n,
            None => spec_enum_tag(s@, pos as int, n) is None,
        },
{
    match read_varu32(s, pos) {
        Some((v, p)) => {
            if v < n {
                Some((v, p))
            } else {
                None
            }
        },
        None => None,
    }
}

/// Decode a whole block record, or report that the bytes do not hold one.
pub fn decode_block_record(bytes: &Vec<u8>) -> (r: Option<BlockRecord>)
    ensures
        match r {
            Some(rec) => spec_block_record(bytes@) == Some(rec@),
            None => spec_block_record(bytes@) is None,
        },
{
    let s = bytes;
    let (parent_hash, p1) = match read_bytebuf(s, 0) {
        Some(x) => x,
        None => { return None },
    };
    let (block_number, p2) = match read_varu64(s, p1) {
        Some(x) => x,
        None => { return None },
    };
    let (state_root, p3) = match read_bytebuf(s, p2) {
        Some(x) => x,
        None => { return None },
    };
    let (sequencer_address, p4) = match read_bytebuf(s, p3) {
        Some(x) => x,
        None => { return None },
    };
    let (timestamp, p5) = match read_varu64(s, p4) {
        Some(x) => x,
        None => { return None },
    };
    let (transaction_count, p6) = match read_varu64(s, p5) {
        Some(x) => x,
        None => { return None },
    };
    let p7 = match read_bytebuf(s, p6) {
        Some((_, p)) => p,
        None => { return None },
    };
    let (event_count, p8) = match read_varu64(s, p7) {
        Some(x) => x,
        None => { return None },
    };
    let p9 = match read_bytebuf(s, p8) {
        Some((_, p)) => p,
        None => { return None },
    };
    let p10 = match skip_opt_u64(s, p9) {
        Some(p) => p,
        None => { return None },
    };
    let p11 = match skip_opt_buf(s, p10) {
        Some(p) => p,
        None => { return None },
    };
    let p12 = match skip_opt_buf(s, p11) {
        Some(p) => p,
        None => { return None },
    };
    if s.len() - p12 < 4 {
        return None;
    }
    let p13 = match skip_gas_prices(s, p12 + 4) {
        Some(p) => p,
        None => { return None },
    };
    let p14 = match read_enum_tag(s, p13, 2) {
        Some((_, p)) => p,
        None => { return None },
    };
    let (block_hash, q1) = match read_bytebuf(s, p14) {
        Some(x) => x,
        None => { return None },
    };
    let (l2_gas_used, q2) = match read_varu128(s, q1) {
        Some(x) => x,
        None => { return None },
    };
    let (tx_hashes, q3) = match read_buf_list(s, q2) {
        Some(x) => x,
        None => { return None },
    };
    if q3 != s.len() {
        return None;
    }
    Some(
        BlockRecord {
            block_number,
            timestamp,
            transaction_count,
            event_count,
            parent_hash,
            state_root,
            sequencer_address,
            block_hash,
            l2_gas_used,
            tx_hashes,
        },
    )
}

/// A block row for list views.
#[derive(Debug, Clone)]
pub struct BlockSummary {
    pub block_number: u64,
    pub block_hash: String,
    pub parent_hash: String,
    pub timestamp: u64,
    pub transaction_count: u64,
}

/// The same row in ghost form.
pub struct BlockSummaryV {
    pub block_number: u64,
    pub block_hash: Seq<char>,
    pub parent_hash: Seq<char>,
    pub timestamp: u64,
    pub transaction_count: u64,
}

impl View for BlockSummary {
    type V = BlockSummaryV;

    open spec fn view(&self) -> BlockSummaryV {
        BlockSummaryV {
            block_number: self.block_number,
            block_hash: self.block_hash@,
            parent_hash: self.parent_hash@,
            timestamp: self.timestamp,
            transaction_count: self.transaction_count,
        }
    }
}

impl DeepView for BlockSummary {
    type V = BlockSummaryV;

    open spec fn deep_view(&self) -> BlockSummaryV {
        self@
    }
}

/// Full block details.
#[derive(Debug, Clone)]
pub struct BlockDetail {
    pub block_number: u64,
    pub block_hash: String,
    pub parent_hash: String,
    pub state_root: String,
    pub sequencer_address: String,
    pub timestamp: u64,
    pub transaction_count: u64,
    pub event_count: u64,
    pub l2_gas_used: u128,
    pub tx_hashes: Vec<String>,
}

/// The summary a decoded record displays as.
pub open spec fn spec_summary_of(rec: BlockRecordV) -> BlockSummaryV {
    BlockSummaryV {
        block_number: rec.block_number,
        block_hash: felt_hex_of(rec.block_hash),
        parent_hash: felt_hex_of(rec.parent_hash),
        timestamp: rec.timestamp,
        transaction_count: rec.transaction_count,
    }
}

/// Build the list row of a decoded block record.
pub fn block_summary_of(rec: &BlockRecord) -> (r: BlockSummary)
    ensures
        r@ == spec_summary_of(rec@),
{
    BlockSummary {
        block_number: rec.block_number,
        block_hash: felt_hex(rec.block_hash.as_slice()),
        parent_hash: felt_hex(rec.parent_hash.as_slice()),
        timestamp: rec.timestamp,
        transaction_count: rec.transaction_count,
    }
}

/// Build the detail view of a decoded block record: every felt field is
/// rendered as hex, and the transaction hashes keep their stored order.
pub fn block_detail_of(rec: &BlockRecord) -> (r: BlockDetail)
    ensures
        r.block_number == rec.block_number,
        r.timestamp == rec.timestamp,
        r.transaction_count == rec.transaction_count,
        r.event_count == rec.event_count,
        r.l2_gas_used == rec.l2_gas_used,
        r.block_hash@ == felt_hex_of(rec.block_hash@),
        r.parent_hash@ == felt_hex_of(rec.parent_hash@),
        r.state_root@ == felt_hex_of(rec.state_root@),
        r.sequencer_address@ == felt_hex_of(rec.sequencer_address@),
        r.tx_hashes.deep_view() == rec.tx_hashes.deep_view().map_values(
            |b: Seq<u8>| felt_hex_of(b),
        ),
{
    let mut tx_hashes: Vec<String> = Vec::new();
    let mut i: usize = 0;
    while i < rec.tx_hashes.len()
        invariant
            i <= rec.tx_hashes@.len(),
            tx_hashes.deep_view() =~= rec.tx_hashes.deep_view().take(i as int).map_values(
                |b: Seq<u8>| felt_hex_of(b),
            ),
        decreases rec.tx_hashes@.len() - i,
    {
        let ghost pre = tx_hashes.deep_view();
        tx_hashes.push(felt_hex(rec.tx_hashes[i].as_slice()));
        proof {
            assert(rec.tx_hashes.deep_view()[i as int] =~= rec.tx_hashes@[i as int]@);
            assert(tx_hashes.deep_view() =~= pre.push(felt_hex_of(rec.tx_hashes@[i as int]@)));
            assert(rec.tx_hashes.deep_view().take(i + 1int).map_values(
                |b: Seq<u8>| felt_hex_of(b),
            ) =~= pre.push(felt_hex_of(rec.tx_hashes.deep_view()[i as int])));
        }
        i += 1;
    }
    proof {
        assert(rec.tx_hashes.deep_view().take(rec.tx_hashes@.len() as int)
            =~= rec.tx_hashes.deep_view());
    }
    BlockDetail {
        block_number: rec.block_number,
        block_hash: felt_hex(rec.block_hash.as_slice()),
        parent_hash: felt_hex(rec.parent_hash.as_slice()),
        state_root: felt_hex(rec.state_root.as_slice()),
        sequencer_address: felt_hex(rec.sequencer_address.as_slice()),
        timestamp: rec.timestamp,
        transaction_count: rec.transaction_count,
        event_count: rec.event_count,
        l2_gas_used: rec.l2_gas_used,
        tx_hashes,
    }
}

/// The 4-byte big-endian store key of a block number, or nothing when the
/// number does not fit in 32 bits.
pub fn block_key(block_n: u64) -> (r: Option<Vec<u8>>)
    ensures
        block_n <= u32::MAX as u64 ==> (r matches Some(k) && k@.len() == 4 && be32(k@)
            == block_n),
        block_n > u32::MAX as u64 ==> r is None,
{
    if block_n > u32::MAX as u64 {
        return None;
    }
    let n = block_n as u32;
    let mut k: Vec<u8> = Vec::new();
    k.push((n / 0x100_0000) as u8);
    k.push(((n / 0x1_0000) % 0x100) as u8);
    k.push(((n / 0x100) % 0x100) as u8);
    k.push((n % 0x100) as u8);
    proof {
        assert(be32(k@) == block_n);
    }
    Some(k)
}

/// Value of a 4-byte big-endian key.
pub open spec fn be32(s: Seq<u8>) -> u64
    recommends
        s.len() == 4,
{
    (s[0] as int * 0x100_0000 + s[1] as int * 0x1_0000 + s[2] as int * 0x100 + s[3] as int) as u64
}

/// The block number a 4-byte big-endian store key names, or nothing for a
/// key of any other length.
pub fn block_number_from_key(key: &Vec<u8>) -> (r: Option<u64>)
    ensures
        key@.len() == 4 ==> r == Some(be32(key@)),
        key@.len() != 4 ==> r is None,
{
    if key.len() != 4 {
        return None;
    }
    Some(
        key[0] as u64 * 0x100_0000 + key[1] as u64 * 0x1_0000 + key[2] as u64 * 0x100
            + key[3] as u64,
    )
}

/// The state of one block listing, newest first: the next candidate number
/// to look up, and how many rows are still wanted. A candidate whose record
/// is missing or undecodable yields no row and does not count against the
/// limit; the walk ends at block zero or once the limit is filled.
#[derive(Debug, Clone, Copy, PartialEq, Eq, Structural)]
pub struct BlockPager {
    pub next: Option<u64>,
    pub remaining: u64,
}

/// Start a listing at `latest - offset` (clamped at zero), wanting `limit`
/// rows.
pub fn block_pager(latest: u64, offset: u64, limit: u64) -> (r: BlockPager)
    ensures
        r.next == Some(
            if offset <= latest {
                (latest - offset) as u64
            } else {
                0u64
            },
        ),
        r.remaining == limit,
{
    let start: u64 = if offset <= latest {
        latest - offset
    } else {
        0
    };
    BlockPager { next: Some(start), remaining: limit }
}

impl BlockPager {
    /// The block number to fetch next, or nothing when the listing is done:
    /// the limit is filled or the walk has passed block zero.
    pub fn next_to_fetch(&self) -> (r: Option<u64>)
        ensures
            r == (if self.remaining > 0 {
                self.next
            } else {
                None::<u64>
            }),
    {
        if self.remaining > 0 {
            self.next
        } else {
            None
        }
    }

    /// Take what the store returned for the current candidate: a decodable
    /// record yields its row and fills one slot of the limit; a missing or
    /// undecodable record yields nothing and leaves the limit untouched.
    /// Either way the walk steps down one block number, stopping after
    /// block zero.
    pub fn feed(&mut self, bytes: Option<&Vec<u8>>) -> (r: Option<BlockSummary>)
        requires
            old(self).remaining > 0,
            old(self).next is Some,
        ensures
            final(self).next == (if old(self).next->0 > 0 {
                Some((old(self).next->0 - 1) as u64)
            } else {
                None::<u64>
            }),
            ({
                let dec = match bytes {
                    Some(b) => spec_block_record(b@),
                    None => None,
                };
                match dec {
                    Some(rec) => r matches Some(s) && s@ == spec_summary_of(rec)
                        && final(self).remaining == old(self).remaining - 1,
                    None => r is None && final(self).remaining == old(self).remaining,
                }
            }),
    {
        let n = match self.next {
            Some(n) => n,
            None => 0,
        };
        self.next = if n > 0 {
            Some(n - 1)
        } else {
            None
        };
        let bytes = match bytes {
            Some(b) => b,
            None => { return None },
        };
        match decode_block_record(bytes) {
            Some(rec) => {
                self.remaining = self.remaining - 1;
                Some(block_summary_of(&rec))
            },
            None => None,
        }
    }
}

} // verus!
