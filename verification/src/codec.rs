//! Primitives of the store's record encoding: little-endian variable-width
//! integers, length-prefixed byte strings, option and enum tags, and lists.
//! Every record this crate decodes is built from these.

use vstd::prelude::*;
use vstd::utf8::valid_utf8;
use vstd::utf8::decode_utf8;

verus! {

/// Value of two little-endian bytes.
pub open spec fn le16(s: Seq<u8>, pos: int) -> u64
    recommends
        0 <= pos,
        pos + 2 <= s.len(),
{
    (s[pos] as int + s[pos + 1] as int * 0x100) as u64
}

/// Value of four little-endian bytes.
pub open spec fn le32(s: Seq<u8>, pos: int) -> u64
    recommends
        0 <= pos,
        pos + 4 <= s.len(),
{
    (s[pos] as int + s[pos + 1] as int * 0x100 + s[pos + 2] as int * 0x1_0000 + s[pos + 3] as int
        * 0x100_0000) as u64
}

/// Value of eight little-endian bytes.
pub open spec fn le64(s: Seq<u8>, pos: int) -> u64
    recommends
        0 <= pos,
        pos + 8 <= s.len(),
{
    (s[pos] as int + s[pos + 1] as int * 0x100 + s[pos + 2] as int * 0x1_0000 + s[pos + 3] as int
        * 0x100_0000 + s[pos + 4] as int * 0x1_0000_0000 + s[pos + 5] as int * 0x100_0000_0000 + s[
        pos + 6] as int * 0x1_0000_0000_0000 + s[pos + 7] as int * 0x100_0000_0000_0000) as u64
}

/// Value of sixteen little-endian bytes.
pub open spec fn le128(s: Seq<u8>, pos: int) -> u128
    recommends
        0 <= pos,
        pos + 16 <= s.len(),
{
    (le64(s, pos) as int + le64(s, pos + 8) as int * 0x1_0000_0000_0000_0000) as u128
}

/// A variable-width unsigned integer up to 64 bits: one byte up to 250, or a
/// marker byte 251/252/253 followed by a 2-, 4- or 8-byte little-endian
/// value. Markers 254 and 255 are not valid here.
pub open spec fn spec_varu64(s: Seq<u8>, pos: int) -> Option<(u64, int)> {
    if 0 <= pos < s.len() {
        let b0 = s[pos];
        if b0 <= 250 {
            Some((b0 as u64, pos + 1))
        } else if b0 == 251 {
            if pos + 3 <= s.len() {
                Some((le16(s, pos + 1), pos + 3))
            } else {
                None
            }
        } else if b0 == 252 {
            if pos + 5 <= s.len() {
                Some((le32(s, pos + 1), pos + 5))
            } else {
                None
            }
        } else if b0 == 253 {
            if pos + 9 <= s.len() {
                Some((le64(s, pos + 1), pos + 9))
            } else {
                None
            }
        } else {
            None
        }
    } else {
        None
    }
}

/// A variable-width integer read into 32 bits: rejected when the value does
/// not fit.
pub open spec fn spec_varu32(s: Seq<u8>, pos: int) -> Option<(u32, int)> {
    match spec_varu64(s, pos) {
        Some((v, p)) => if v <= u32::MAX as u64 {
            Some((v as u32, p))
        } else {
            None
        },
        None => None,
    }
}

/// A variable-width integer read into 16 bits: rejected when the value does
/// not fit.
pub open spec fn spec_varu16(s: Seq<u8>, pos: int) -> Option<(u16, int)> {
    match spec_varu64(s, pos) {
        Some((v, p)) => if v <= u16::MAX as u64 {
            Some((v as u16, p))
        } else {
            None
        },
        None => None,
    }
}

/// A variable-width unsigned integer up to 128 bits: as [`spec_varu64`], with
/// marker 254 followed by a 16-byte little-endian value also accepted.
pub open spec fn spec_varu128(s: Seq<u8>, pos: int) -> Option<(u128, int)> {
    if 0 <= pos < s.len() {
        let b0 = s[pos];
        if b0 <= 253 {
            match spec_varu64(s, pos) {
                Some((v, p)) => Some((v as u128, p)),
                None => None,
            }
        } else if b0 == 254 {
            if pos + 17 <= s.len() {
                Some((le128(s, pos + 1), pos + 17))
            } else {
                None
            }
        } else {
            None
        }
    } else {
        None
    }
}

/// An option tag: one byte, 0 for none and 1 for some; anything else is
/// rejected.
pub open spec fn spec_opt_tag(s: Seq<u8>, pos: int) -> Option<(bool, int)> {
    if 0 <= pos < s.len() {
        if s[pos] == 0 {
            Some((false, pos + 1))
        } else if s[pos] == 1 {
            Some((true, pos + 1))
        } else {
            None
        }
    } else {
        None
    }
}

/// A length-prefixed byte string: a variable-width length, then that many raw
/// bytes, all of which must be present.
pub open spec fn spec_bytebuf(s: Seq<u8>, pos: int) -> Option<(Seq<u8>, int)> {
    match spec_varu64(s, pos) {
        Some((n, p)) => if n <= usize::MAX as u64 && p + n <= s.len() {
            Some((s.subrange(p, p + n as int), p + n as int))
        } else {
            None
        },
        None => None,
    }
}

/// A length-prefixed UTF-8 string; invalid UTF-8 is rejected.
pub open spec fn spec_string(s: Seq<u8>, pos: int) -> Option<(Seq<char>, int)> {
    match spec_bytebuf(s, pos) {
        Some((b, p)) => if valid_utf8(b) {
            Some((decode_utf8(b), p))
        } else {
            None
        },
        None => None,
    }
}

/// `n` consecutive length-prefixed byte strings.
pub open spec fn spec_bufs(s: Seq<u8>, pos: int, n: nat) -> Option<(Seq<Seq<u8>>, int)>
    decreases n,
{
    if n == 0 {
        Some((Seq::empty(), pos))
    } else {
        match spec_bytebuf(s, pos) {
            Some((b, p)) => match spec_bufs(s, p, (n - 1) as nat) {
                Some((rest, q)) => Some((seq![b] + rest, q)),
                None => None,
            },
            None => None,
        }
    }
}

/// A list of byte strings: a variable-width count, then that many
/// length-prefixed byte strings.
pub open spec fn spec_buf_list(s: Seq<u8>, pos: int) -> Option<(Seq<Seq<u8>>, int)> {
    match spec_varu64(s, pos) {
        Some((n, p)) => if n <= usize::MAX as u64 {
            spec_bufs(s, p, n as nat)
        } else {
            None
        },
        None => None,
    }
}

/// Read an option tag byte.
pub fn read_opt_tag(s: &Vec<u8>, pos: usize) -> (r: Option<(bool, usize)>)
    ensures
        match r {
            Some((v, p)) => spec_opt_tag(s@, pos as int) == Some((v, p as int)) && pos < p
                <= s@.len(),
            None => spec_opt_tag(s@, pos as int) is None,
        },
{
    if pos < s.len() {
        let b = s[pos];
        if b == 0 {
            Some((false, pos + 1))
        } else if b == 1 {
            Some((true, pos + 1))
        } else {
            None
        }
    } else {
        None
    }
}

/// Read a variable-width unsigned integer of up to 64 bits.
pub fn read_varu64(s: &Vec<u8>, pos: usize) -> (r: Option<(u64, usize)>)
    ensures
        match r {
            Some((v, p)) => spec_varu64(s@, pos as int) == Some((v, p as int)) && pos < p
                <= s@.len(),
            None => spec_varu64(s@, pos as int) is None,
        },
{
    if pos >= s.len() {
        return None;
    }
    let b0 = s[pos];
    if b0 <= 250 {
        Some((b0 as u64, pos + 1))
    } else if b0 == 251 {
        if s.len() - pos >= 3 {
            let v = s[pos + 1] as u64 + s[pos + 2] as u64 * 0x100;
            Some((v, pos + 3))
        } else {
            None
        }
    } else if b0 == 252 {
        if s.len() - pos >= 5 {
            let v = s[pos + 1] as u64 + s[pos + 2] as u64 * 0x100 + s[pos + 3] as u64 * 0x1_0000
                + s[pos + 4] as u64 * 0x100_0000;
            Some((v, pos + 5))
        } else {
            None
        }
    } else if b0 == 253 {
        if s.len() - pos >= 9 {
            let v = read_le64(s, pos + 1);
            Some((v, pos + 9))
        } else {
            None
        }
    } else {
        None
    }
}

/// Assemble eight little-endian bytes.
fn read_le64(s: &Vec<u8>, pos: usize) -> (r: u64)
    requires
        pos + 8 <= s@.len(),
    ensures
        r == le64(s@, pos as int),
{
    proof {
        assert(pos + 8 <= vstd::std_specs::vec::spec_vec_len(s));
    }
    s[pos] as u64 + s[pos + 1] as u64 * 0x100 + s[pos + 2] as u64 * 0x1_0000 + s[pos + 3] as u64
        * 0x100_0000 + s[pos + 4] as u64 * 0x1_0000_0000 + s[pos + 5] as u64 * 0x100_0000_0000 + s[
        pos + 6] as u64 * 0x1_0000_0000_0000 + s[pos + 7] as u64 * 0x100_0000_0000_0000
}

/// Read a variable-width unsigned integer that must fit in 32 bits.
pub fn read_varu32(s: &Vec<u8>, pos: usize) -> (r: Option<(u32, usize)>)
    ensures
        match r {
            Some((v, p)) => spec_varu32(s@, pos as int) == Some((v, p as int)) && pos < p
                <= s@.len(),
            None => spec_varu32(s@, pos as int) is None,
        },
{
    match read_varu64(s, pos) {
        Some((v, p)) => {
            if v <= u32::MAX as u64 {
                Some((v as u32, p))
            } else {
                None
            }
        },
        None => None,
    }
}

/// Read a variable-width unsigned integer that must fit in 16 bits.
pub fn read_varu16(s: &Vec<u8>, pos: usize) -> (r: Option<(u16, usize)>)
    ensures
        match r {
            Some((v, p)) => spec_varu16(s@, pos as int) == Some((v, p as int)) && pos < p
                <= s@.len(),
            None => spec_varu16(s@, pos as int) is None,
        },
{
    match read_varu64(s, pos) {
        Some((v, p)) => {
            if v <= u16::MAX as u64 {
                Some((v as u16, p))
            } else {
                None
            }
        },
        None => None,
    }
}

/// Read a variable-width unsigned integer of up to 128 bits.
pub fn read_varu128(s: &Vec<u8>, pos: usize) -> (r: Option<(u128, usize)>)
    ensures
        match r {
            Some((v, p)) => spec_varu128(s@, pos as int) == Some((v, p as int)) && pos < p
                <= s@.len(),
            None => spec_varu128(s@, pos as int) is None,
        },
{
    if pos >= s.len() {
        return None;
    }
    let b0 = s[pos];
    if b0 <= 253 {
        match read_varu64(s, pos) {
            Some((v, p)) => Some((v as u128, p)),
            None => None,
        }
    } else if b0 == 254 {
        if s.len() - pos >= 17 {
            let lo = read_le64(s, pos + 1);
            let hi = read_le64(s, pos + 9);
            let v = lo as u128 + hi as u128 * 0x1_0000_0000_0000_0000;
            Some((v, pos + 17))
        } else {
            None
        }
    } else {
        None
    }
}

/// Copy the bytes of `s` in `[a, b)` into a fresh vector.
pub fn copy_range(s: &Vec<u8>, a: usize, b: usize) -> (r: Vec<u8>)
    requires
        a <= b <= s@.len(),
    ensures
        r@ == s@.subrange(a as int, b as int),
{
    let mut out: Vec<u8> = Vec::new();
    let mut i: usize = a;
    while i < b
        invariant
            a <= i <= b <= s@.len(),
            out@ == s@.subrange(a as int, i as int),
        decreases b - i,
    {
        out.push(s[i]);
        proof {
            assert(s@.subrange(a as int, i + 1int) =~= s@.subrange(a as int, i as int).push(
                s@[i as int],
            ));
        }
        i += 1;
    }
    out
}

/// Read a length-prefixed byte string.
pub fn read_bytebuf(s: &Vec<u8>, pos: usize) -> (r: Option<(Vec<u8>, usize)>)
    ensures
        match r {
            Some((v, p)) => spec_bytebuf(s@, pos as int) == Some((v@, p as int)) && pos < p
                <= s@.len(),
            None => spec_bytebuf(s@, pos as int) is None,
        },
{
    match read_varu64(s, pos) {
        Some((n, p)) => {
            if n <= (s.len() - p) as u64 {
                let q = p + n as usize;
                let v = copy_range(s, p, q);
                Some((v, q))
            } else {
                None
            }
        },
        None => None,
    }
}

/// Read a length-prefixed UTF-8 string.
pub fn read_string(s: &Vec<u8>, pos: usize) -> (r: Option<(String, usize)>)
    ensures
        match r {
            Some((v, p)) => spec_string(s@, pos as int) == Some((v@, p as int)) && pos < p
                <= s@.len(),
            None => spec_string(s@, pos as int) is None,
        },
{
    match read_bytebuf(s, pos) {
        Some((b, p)) => {
            match crate::felt::bytes_to_string(b) {
                Some(t) => Some((t, p)),
                None => None,
            }
        },
        None => None,
    }
}

/// Read a list of byte strings: a count, then that many byte strings.
pub fn read_buf_list(s: &Vec<u8>, pos: usize) -> (r: Option<(Vec<Vec<u8>>, usize)>)
    ensures
        match r {
            Some((v, p)) => spec_buf_list(s@, pos as int) == Some((v.deep_view(), p as int)) && pos
                < p <= s@.len(),
            None => spec_buf_list(s@, pos as int) is None,
        },
{
    match read_varu64(s, pos) {
        Some((n, p0)) => {
            let mut acc: Vec<Vec<u8>> = Vec::new();
            let mut cur: usize = p0;
            let mut i: u64 = 0;
            proof {
                assert(acc.deep_view() =~= Seq::<Seq<u8>>::empty());
                assert(Seq::<Seq<u8>>::empty() + Seq::<Seq<u8>>::empty()
                    =~= Seq::<Seq<u8>>::empty());
            }
            while i < n
                invariant
                    i <= n,
                    pos < cur <= s@.len(),
                    cur as int >= p0 as int + i as int,
                    spec_varu64(s@, pos as int) == Some((n, p0 as int)),
                    acc.deep_view().len() == i,
                    spec_bufs(s@, p0 as int, n as nat) == (match spec_bufs(
                        s@,
                        cur as int,
                        (n - i) as nat,
                    ) {
                        Some((rest, q)) => Some((acc.deep_view() + rest, q)),
                        None => None::<(Seq<Seq<u8>>, int)>,
                    }),
                decreases n - i,
            {
                match read_bytebuf(s, cur) {
                    Some((b, q)) => {
                        let ghost old_acc = acc.deep_view();
                        acc.push(b);
                        proof {
                            assert(acc.deep_view() =~~= old_acc.push(b@));
                            assert(spec_bufs(s@, cur as int, (n - i) as nat) == (match spec_bufs(
                                s@,
                                q as int,
                                (n - i - 1) as nat,
                            ) {
                                Some((rest, end)) => Some((seq![b@] + rest, end)),
                                None => None::<(Seq<Seq<u8>>, int)>,
                            }));
                            match spec_bufs(s@, q as int, (n - i - 1) as nat) {
                                Some((rest, end)) => {
                                    assert(old_acc + (seq![b@] + rest) =~= old_acc.push(b@)
                                        + rest);
                                },
                                None => {},
                            }
                        }
                        cur = q;
                    },
                    None => {
                        proof {
                            assert(spec_bufs(s@, cur as int, (n - i) as nat) is None);
                            assert(spec_bufs(s@, p0 as int, n as nat) is None);
                            assert(spec_buf_list(s@, pos as int) is None);
                        }
                        return None;
                    },
                }
                i += 1;
            }
            proof {
                assert(n <= usize::MAX as u64);
                assert(spec_bufs(s@, cur as int, 0nat) == Some(
                    (Seq::<Seq<u8>>::empty(), cur as int),
                ));
                assert(acc.deep_view() + Seq::<Seq<u8>>::empty() =~= acc.deep_view());
                assert(spec_bufs(s@, p0 as int, n as nat) == Some((acc.deep_view(), cur as int)));
                assert(spec_buf_list(s@, pos as int) == Some((acc.deep_view(), cur as int)));
            }
            Some((acc, cur))
        },
        None => None,
    }
}

} // verus!
