//! Field elements: 252-bit values held as 32-byte big-endian buffers, with
//! the padding, truncation and hex-display rules used across every record.

use vstd::prelude::*;
use vstd::utf8::*;
use vstd::string::StringSliceAdditionalSpecFns;

verus! {

/// ASCII code of the lower-case hex digit for a nibble.
pub open spec fn hex_digit_byte(n: u8) -> u8
    recommends
        n < 16,
{
    if n < 10 {
        (48 + n) as u8
    } else {
        (87 + n) as u8
    }
}

/// Lower-case hex expansion of a byte string: two digits per byte.
pub open spec fn hex_bytes(b: Seq<u8>) -> Seq<u8> {
    Seq::new(b.len() * 2, |i: int| if i % 2 == 0 {
        hex_digit_byte(b[i / 2] / 16)
    } else {
        hex_digit_byte(b[i / 2] % 16)
    })
}

/// The same hex expansion as characters.
pub open spec fn hex_chars(b: Seq<u8>) -> Seq<char> {
    hex_bytes(b).map(|_i: int, x: u8| x as char)
}

/// The 32-byte buffer a byte string decodes to: right-aligned with zero fill
/// on the left; inputs longer than 32 bytes keep only their first 32 bytes.
pub open spec fn spec_felt_from_bytes(b: Seq<u8>) -> Seq<u8> {
    let t = if b.len() <= 32 { b } else { b.subrange(0, 32) };
    Seq::new(32, |i: int| if i < 32 - t.len() {
        0u8
    } else {
        t[i - (32 - t.len())]
    })
}

/// Index of the first nonzero byte at or after `i`, or the last index when
/// every byte from `i` on is zero.
pub open spec fn spec_first_nonzero(b: Seq<u8>, i: int) -> int
    decreases b.len() - i,
{
    if i >= b.len() - 1 {
        b.len() - 1
    } else if b[i] != 0 {
        i
    } else {
        spec_first_nonzero(b, i + 1)
    }
}

/// Display form of a 32-byte buffer: `0x` then hex with leading zero bytes
/// stripped; the last byte is always kept, so all zeros render as `0x00`.
pub open spec fn spec_felt_to_hex(buf: Seq<u8>) -> Seq<char>
    recommends
        buf.len() == 32,
{
    seq!['0', 'x'] + hex_chars(buf.skip(spec_first_nonzero(buf, 0)))
}

/// A field element: a 252-bit unsigned value as a 32-byte big-endian buffer.
#[derive(Debug, Clone, Copy)]
pub struct Felt(pub [u8; 32]);

/// Display form of a byte string decoded as a felt: pad, then strip.
pub open spec fn felt_hex_of(b: Seq<u8>) -> Seq<char> {
    spec_felt_to_hex(spec_felt_from_bytes(b))
}

/// Decode a byte string as a felt and render it, in one step.
pub fn felt_hex(bytes: &[u8]) -> (r: String)
    ensures
        r@ == felt_hex_of(bytes@),
{
    Felt::from_bytes(bytes).to_hex()
}

impl Felt {
    /// Decode a byte string of any length into a felt, per
    /// [`spec_felt_from_bytes`]: left zero padding, tail truncation past 32.
    pub fn from_bytes(bytes: &[u8]) -> (r: Felt)
        ensures
            r.0@ == spec_felt_from_bytes(bytes@),
    {
        let mut buf = [0u8; 32];
        let len: usize = if bytes.len() < 32 {
            bytes.len()
        } else {
            32
        };
        let mut i: usize = 0;
        while i < len
            invariant
                i <= len,
                len <= 32,
                len <= bytes@.len(),
                len == if bytes@.len() <= 32 { bytes@.len() as int } else { 32int },
                buf@.len() == 32,
                forall|j: int| 0 <= j < 32 - len ==> buf@[j] == 0u8,
                forall|j: int| 32 - len <= j < 32 - len + i ==> buf@[j] == bytes@[j - (32 - len)],
                forall|j: int| 32 - len + i <= j < 32 ==> buf@[j] == 0u8,
            decreases len - i,
        {
            buf[32 - len + i] = bytes[i];
            i += 1;
        }
        let r = Felt(buf);
        proof {
            assert(r.0@ =~= spec_felt_from_bytes(bytes@));
        }
        r
    }

    /// Render as `0x` plus lower-case hex with leading zero bytes stripped,
    /// per [`spec_felt_to_hex`].
    pub fn to_hex(&self) -> (r: String)
        ensures
            r@ == spec_felt_to_hex(self.0@),
    {
        let mut first: usize = 0;
        while first < 31 && self.0[first] == 0
            invariant
                first <= 31,
                forall|j: int| 0 <= j < first ==> self.0@[j] == 0u8,
            decreases 31 - first,
        {
            first += 1;
        }
        proof {
            lemma_first_nonzero_from(self.0@, 0, first as int);
        }
        let mut out: Vec<u8> = Vec::new();
        out.push(48);
        out.push(120);
        let ghost tail = self.0@.skip(first as int);
        let mut i: usize = first;
        while i < 32
            invariant
                first <= i <= 32,
                tail == self.0@.skip(first as int),
                out@ == seq![48u8, 120u8] + hex_bytes(self.0@.subrange(first as int, i as int)),
            decreases 32 - i,
        {
            let b = self.0[i];
            let ghost pre = self.0@.subrange(first as int, i as int);
            out.push(hex_digit(b / 16));
            out.push(hex_digit(b % 16));
            proof {
                lemma_hex_bytes_push(pre, b);
                assert(self.0@.subrange(first as int, i + 1int) == pre.push(b));
            }
            i += 1;
        }
        proof {
            assert(self.0@.subrange(first as int, 32) =~= tail);
            lemma_ascii_hex(out@, self.0@.subrange(first as int, 32));
        }
        let s = ascii_to_string(out);
        proof {
            assert(s@ =~= spec_felt_to_hex(self.0@));
        }
        s
    }
}

/// The lower-case hex digit for a nibble, as its ASCII byte.
fn hex_digit(n: u8) -> (r: u8)
    requires
        n < 16,
    ensures
        r == hex_digit_byte(n),
{
    if n < 10 {
        48 + n
    } else {
        87 + n
    }
}

/// Hex-encode a whole byte string as `0x`-free lower-case digits.
pub fn hex_encode(bytes: &[u8]) -> (r: String)
    ensures
        r@ == hex_chars(bytes@),
{
    let mut out: Vec<u8> = Vec::new();
    let mut i: usize = 0;
    while i < bytes.len()
        invariant
            i <= bytes@.len(),
            out@ == hex_bytes(bytes@.subrange(0, i as int)),
        decreases bytes@.len() - i,
    {
        let b = bytes[i];
        let ghost pre = bytes@.subrange(0, i as int);
        out.push(hex_digit(b / 16));
        out.push(hex_digit(b % 16));
        proof {
            lemma_hex_bytes_push(pre, b);
            assert(bytes@.subrange(0, i + 1int) == pre.push(b));
        }
        i += 1;
    }
    proof {
        assert(bytes@.subrange(0, bytes@.len() as int) =~= bytes@);
        lemma_ascii_hex(out@, bytes@);
    }
    ascii_to_string(out)
}

/// Hex-encode a byte string with a `0x` prefix and no stripping.
pub fn hex_with_prefix(bytes: &[u8]) -> (r: String)
    ensures
        r@ == seq!['0', 'x'] + hex_chars(bytes@),
{
    let mut out: Vec<u8> = Vec::new();
    out.push(48);
    out.push(120);
    let mut i: usize = 0;
    while i < bytes.len()
        invariant
            i <= bytes@.len(),
            out@ == seq![48u8, 120u8] + hex_bytes(bytes@.subrange(0, i as int)),
        decreases bytes@.len() - i,
    {
        let b = bytes[i];
        let ghost pre = bytes@.subrange(0, i as int);
        out.push(hex_digit(b / 16));
        out.push(hex_digit(b % 16));
        proof {
            lemma_hex_bytes_push(pre, b);
            assert(bytes@.subrange(0, i + 1int) == pre.push(b));
        }
        i += 1;
    }
    proof {
        assert(bytes@.subrange(0, bytes@.len() as int) =~= bytes@);
        lemma_ascii_hex(out@, bytes@);
    }
    ascii_to_string(out)
}

proof fn lemma_hex_bytes_push(b: Seq<u8>, x: u8)
    ensures
        hex_bytes(b.push(x)) =~= hex_bytes(b) + seq![hex_digit_byte(x / 16), hex_digit_byte(x % 16)],
{
}

proof fn lemma_first_nonzero_props(b: Seq<u8>, i: int)
    requires
        0 <= i < b.len(),
    ensures
        i <= spec_first_nonzero(b, i) < b.len(),
        forall|k: int| i <= k < spec_first_nonzero(b, i) ==> b[k] == 0u8,
        b[spec_first_nonzero(b, i)] != 0u8 || spec_first_nonzero(b, i) == b.len() - 1,
    decreases b.len() - i,
{
    if i < b.len() - 1 && b[i] == 0 {
        lemma_first_nonzero_props(b, i + 1);
    }
}

/// The displayed tail of a byte string decoded as a felt: the bytes from
/// its first nonzero byte on; a value with no nonzero byte keeps one zero
/// byte.
pub open spec fn spec_felt_stripped(b: Seq<u8>) -> Seq<u8> {
    if b.len() == 0 {
        seq![0u8]
    } else {
        b.skip(spec_first_nonzero(b, 0))
    }
}

/// Round trip: decoding a byte string of at most 32 bytes restores it with
/// zero bytes on the left, and rendering the decoded felt shows exactly the
/// string's own bytes from its first nonzero byte on.
pub proof fn lemma_felt_round_trip(b: Seq<u8>)
    requires
        b.len() <= 32,
    ensures
        spec_felt_from_bytes(b).len() == 32,
        spec_felt_from_bytes(b).skip(32 - b.len() as int) == b,
        forall|i: int| 0 <= i < 32 - b.len() ==> spec_felt_from_bytes(b)[i] == 0u8,
        felt_hex_of(b) == seq!['0', 'x'] + hex_chars(spec_felt_stripped(b)),
{
    let buf = spec_felt_from_bytes(b);
    assert(buf.skip(32 - b.len() as int) =~= b);
    if b.len() == 0 {
        lemma_first_nonzero_from(buf, 0, 31);
        assert(buf.skip(31) =~= seq![0u8]);
    } else {
        let j = spec_first_nonzero(b, 0);
        lemma_first_nonzero_props(b, 0);
        let k = 32 - b.len() + j;
        lemma_first_nonzero_from(buf, 0, k);
        assert(buf.skip(k) =~= b.skip(j));
    }
}

/// Decoding the all-zero 32-byte string renders exactly `0x00`: the last
/// zero byte is kept, never a bare `0x`.
pub proof fn lemma_zero_felt_display()
    ensures
        felt_hex_of(Seq::new(32, |i: int| 0u8)) == "0x00"@,
{
    reveal_strlit("0x00");
    let z = Seq::new(32, |i: int| 0u8);
    lemma_felt_round_trip(z);
    lemma_first_nonzero_from(z, 0, 31);
    assert(spec_felt_stripped(z) =~= seq![0u8]);
    assert(hex_chars(seq![0u8]) =~= seq!['0', '0']) by {
        assert(hex_bytes(seq![0u8]).len() == 2);
        assert(hex_bytes(seq![0u8])[0] == 48u8);
        assert(hex_bytes(seq![0u8])[1] == 48u8);
        assert(hex_chars(seq![0u8])[0] == '0');
        assert(hex_chars(seq![0u8])[1] == '0');
    }
    assert(seq!['0', 'x'] + hex_chars(seq![0u8]) =~= "0x00"@);
}

/// Truncation: a string longer than 32 bytes decodes exactly as its first
/// 32 bytes do; the tail is dropped, not folded in.
pub proof fn lemma_felt_truncation(b: Seq<u8>)
    requires
        b.len() >= 32,
    ensures
        spec_felt_from_bytes(b) == spec_felt_from_bytes(b.take(32)),
{
    assert(spec_felt_from_bytes(b) =~= spec_felt_from_bytes(b.take(32)));
}

proof fn lemma_first_nonzero_from(b: Seq<u8>, i: int, k: int)
    requires
        0 <= i <= k,
        k < b.len(),
        forall|j: int| i <= j < k ==> b[j] == 0u8,
        b[k] != 0u8 || k == b.len() - 1,
    ensures
        spec_first_nonzero(b, i) == k,
    decreases k - i,
{
    if i < k {
        lemma_first_nonzero_from(b, i + 1, k);
    }
}

/// Hex digits are ASCII, so the string made of them has exactly those
/// characters.
proof fn lemma_ascii_hex(out: Seq<u8>, src: Seq<u8>)
    requires
        out == seq![48u8, 120u8] + hex_bytes(src) || out == hex_bytes(src),
    ensures
        forall|j: int| 0 <= j < out.len() ==> out[j] < 128,
        out.map(|_i: int, x: u8| x as char) =~= if out.len() == hex_bytes(src).len() {
            hex_chars(src)
        } else {
            seq!['0', 'x'] + hex_chars(src)
        },
{
    assert forall|j: int| 0 <= j < out.len() implies out[j] < 128 by {
        if out.len() != hex_bytes(src).len() && j < 2 {
        } else {
        }
    }
}

/// The decimal digits of an integer, as ASCII bytes.
pub open spec fn spec_decimal_bytes(n: u64) -> Seq<u8>
    decreases n,
{
    if n < 10 {
        seq![(48 + n) as u8]
    } else {
        spec_decimal_bytes(n / 10).push((48 + n % 10) as u8)
    }
}

/// The decimal digits of an integer, as characters.
pub open spec fn spec_decimal(n: u64) -> Seq<char> {
    spec_decimal_bytes(n).map(|_i: int, x: u8| x as char)
}

proof fn lemma_decimal_ascii(n: u64)
    ensures
        forall|j: int| 0 <= j < spec_decimal_bytes(n).len() ==> spec_decimal_bytes(n)[j] < 128,
    decreases n,
{
    if n >= 10 {
        lemma_decimal_ascii(n / 10);
        let pre = spec_decimal_bytes(n / 10);
        assert forall|j: int|
            0 <= j < spec_decimal_bytes(n).len() implies spec_decimal_bytes(n)[j] < 128 by {
            if j < pre.len() {
                assert(spec_decimal_bytes(n)[j] == pre[j]);
            } else {
                assert(spec_decimal_bytes(n)[j] == (48 + n % 10) as u8);
            }
        }
    }
}

fn push_decimal(out: &mut Vec<u8>, n: u64)
    ensures
        final(out)@ == old(out)@ + spec_decimal_bytes(n),
    decreases n,
{
    if n < 10 {
        out.push(48 + n as u8);
        proof {
            assert(out@ =~= old(out)@ + seq![(48 + n) as u8]);
        }
    } else {
        let ghost base = out@;
        push_decimal(out, n / 10);
        out.push(48 + (n % 10) as u8);
        proof {
            assert(out@ =~= base + spec_decimal_bytes(n));
        }
    }
}

/// Render an integer in decimal.
pub fn u64_to_decimal(n: u64) -> (r: String)
    ensures
        r@ == spec_decimal(n),
{
    let mut out: Vec<u8> = Vec::new();
    push_decimal(&mut out, n);
    proof {
        lemma_decimal_ascii(n);
        assert(out@ =~= spec_decimal_bytes(n));
    }
    ascii_to_string(out)
}

/// Render each byte string of a list as a felt in hex.
pub fn felt_hex_list(v: &Vec<Vec<u8>>) -> (r: Vec<String>)
    ensures
        r.deep_view() == v.deep_view().map_values(|b: Seq<u8>| felt_hex_of(b)),
{
    let mut out: Vec<String> = Vec::new();
    let mut i: usize = 0;
    while i < v.len()
        invariant
            i <= v@.len(),
            out.deep_view() =~= v.deep_view().take(i as int).map_values(
                |b: Seq<u8>| felt_hex_of(b),
            ),
        decreases v@.len() - i,
    {
        let ghost pre = out.deep_view();
        out.push(felt_hex(v[i].as_slice()));
        proof {
            assert(v.deep_view()[i as int] =~= v@[i as int]@);
            assert(out.deep_view() =~= pre.push(felt_hex_of(v@[i as int]@)));
            assert(v.deep_view().take(i + 1int).map_values(|b: Seq<u8>| felt_hex_of(b))
                =~= pre.push(felt_hex_of(v.deep_view()[i as int])));
        }
        i += 1;
    }
    proof {
        assert(v.deep_view().take(v@.len() as int) =~= v.deep_view());
    }
    out
}

/// Whether a byte is an ASCII hex digit, upper or lower case.
pub open spec fn is_hex_digit(b: u8) -> bool {
    (48 <= b <= 57) || (97 <= b <= 102) || (65 <= b <= 70)
}

/// The value of an ASCII hex digit.
pub open spec fn hex_val(b: u8) -> u8
    recommends
        is_hex_digit(b),
{
    if 48 <= b <= 57 {
        (b - 48) as u8
    } else if 97 <= b <= 102 {
        (b - 87) as u8
    } else {
        (b - 55) as u8
    }
}

/// A hex string's bytes with a leading `0x` removed, when it has one.
pub open spec fn spec_strip_0x(s: Seq<u8>) -> Seq<u8> {
    if s.len() >= 2 && s[0] == 48 && s[1] == 120 {
        s.skip(2)
    } else {
        s
    }
}

/// The bytes a hex string denotes: defined only for an even number of hex
/// digits, rejected otherwise.
pub open spec fn spec_hex_decode(s: Seq<u8>) -> Option<Seq<u8>> {
    if s.len() % 2 == 0 && (forall|i: int| 0 <= i < s.len() ==> is_hex_digit(#[trigger] s[i])) {
        Some(
            Seq::new(
                s.len() / 2,
                |i: int| (hex_val(s[2 * i]) * 16 + hex_val(s[2 * i + 1])) as u8,
            ),
        )
    } else {
        None
    }
}

/// The normalized 32-byte store key a caller-supplied hex string resolves
/// to: optional `0x` stripped, digits decoded, then the felt padding and
/// truncation rule applied.
pub open spec fn spec_hex_key(s: Seq<u8>) -> Option<Seq<u8>> {
    match spec_hex_decode(spec_strip_0x(s)) {
        Some(b) => Some(spec_felt_from_bytes(b)),
        None => None,
    }
}

/// The value of one ASCII hex digit, or nothing for any other byte.
fn hex_val_of(b: u8) -> (r: Option<u8>)
    ensures
        is_hex_digit(b) ==> r == Some(hex_val(b)),
        !is_hex_digit(b) ==> r is None,
{
    if 48 <= b && b <= 57 {
        Some(b - 48)
    } else if 97 <= b && b <= 102 {
        Some(b - 87)
    } else if 65 <= b && b <= 70 {
        Some(b - 55)
    } else {
        None
    }
}

/// Resolve a caller-supplied hex string (with or without `0x`, any length)
/// to the 32-byte key of [`spec_hex_key`], or nothing when it is not valid
/// hex of even length.
pub fn hex_str_to_key(s: &str) -> (r: Option<[u8; 32]>)
    ensures
        match r {
            Some(k) => spec_hex_key(s.spec_bytes()) == Some(k@),
            None => spec_hex_key(s.spec_bytes()) is None,
        },
{
    let bytes = s.as_bytes();
    let total = bytes.len();
    let start: usize = if total >= 2 && bytes[0] == 48 && bytes[1] == 120 {
        2
    } else {
        0
    };
    let ghost stripped = spec_strip_0x(s.spec_bytes());
    proof {
        assert(stripped =~= bytes@.skip(start as int));
    }
    let n = total - start;
    if n % 2 != 0 {
        proof {
            assert(stripped.len() % 2 != 0);
            assert(spec_hex_decode(stripped) is None);
        }
        return None;
    }
    let mut out: Vec<u8> = Vec::new();
    let mut i: usize = 0;
    while i < n / 2
        invariant
            i <= n / 2,
            n % 2 == 0,
            start + n == total,
            total == bytes@.len(),
            stripped == spec_strip_0x(s.spec_bytes()),
            stripped =~= bytes@.skip(start as int),
            out@.len() == i,
            forall|j: int| 0 <= j < 2 * i ==> is_hex_digit(#[trigger] stripped[j]),
            forall|j: int| 0 <= j < i ==> out@[j] == (hex_val(stripped[2 * j]) * 16 + hex_val(
                stripped[2 * j + 1],
            )) as u8,
        decreases n - 2 * i,
    {
        let hi = match hex_val_of(bytes[start + 2 * i]) {
            Some(v) => v,
            None => {
                proof {
                    assert(!is_hex_digit(stripped[2 * i as int]));
                    assert(spec_hex_decode(stripped) is None);
                }
                return None;
            },
        };
        let lo = match hex_val_of(bytes[start + 2 * i + 1]) {
            Some(v) => v,
            None => {
                proof {
                    assert(!is_hex_digit(stripped[2 * i as int + 1]));
                    assert(spec_hex_decode(stripped) is None);
                }
                return None;
            },
        };
        out.push(hi * 16 + lo);
        i += 1;
    }
    proof {
        assert forall|j: int| 0 <= j < stripped.len() implies is_hex_digit(
            #[trigger] stripped[j],
        ) by {}
        assert(spec_hex_decode(stripped) == Some(out@)) by {
            assert(out@ =~= Seq::new(
                stripped.len() / 2,
                |j: int| (hex_val(stripped[2 * j]) * 16 + hex_val(stripped[2 * j + 1])) as u8,
            ));
        }
    }
    let f = Felt::from_bytes(out.as_slice());
    Some(f.0)
}

/// Prefixing `0x` to a hex string that has no such prefix never changes
/// what key it resolves to.
pub proof fn lemma_hex_key_prefix_0x(s: Seq<u8>)
    requires
        spec_strip_0x(s) == s,
    ensures
        spec_hex_key(seq![48u8, 120u8] + s) == spec_hex_key(s),
{
    assert(spec_strip_0x(seq![48u8, 120u8] + s) =~= s) by {
        assert((seq![48u8, 120u8] + s).skip(2) =~= s);
    }
}

/// Prefixing a zero byte pair (`00`) never changes the key, as long as the
/// string still denotes at most 32 bytes: both forms right-align into the
/// same zero-filled buffer.
pub proof fn lemma_hex_key_zero_pad(s: Seq<u8>)
    requires
        spec_strip_0x(s) == s,
        spec_hex_decode(s) matches Some(b) && b.len() < 32,
    ensures
        spec_hex_key(seq![48u8, 48u8] + s) == spec_hex_key(s),
{
    let t = seq![48u8, 48u8] + s;
    assert(spec_strip_0x(t) =~= t);
    let b = spec_hex_decode(s)->0;
    assert forall|i: int| 0 <= i < t.len() implies is_hex_digit(#[trigger] t[i]) by {
        if i >= 2 {
            assert(t[i] == s[i - 2]);
        }
    }
    assert(spec_hex_decode(t) matches Some(tb) && tb =~= seq![0u8] + b) by {
        let tb = spec_hex_decode(t)->0;
        assert(tb.len() == b.len() + 1);
        assert(tb[0] == (hex_val(t[0]) * 16 + hex_val(t[1])) as u8);
        assert forall|i: int| 1 <= i < tb.len() implies tb[i] == b[i - 1] by {
            assert(t[2 * i] == s[2 * (i - 1)]);
            assert(t[2 * i + 1] == s[2 * (i - 1) + 1]);
        }
    }
    let tb = spec_hex_decode(t)->0;
    assert(spec_felt_from_bytes(tb) =~= spec_felt_from_bytes(b));
}

/// Relies on `String::from_utf8`: it succeeds exactly on valid UTF-8 and
/// yields the characters those bytes encode.
#[verifier::external_body]
pub(crate) fn bytes_to_string(v: Vec<u8>) -> (r: Option<String>)
    ensures
        r is Some <==> vstd::utf8::valid_utf8(v@),
        r is Some ==> r->0@ == vstd::utf8::decode_utf8(v@),
{
    String::from_utf8(v).ok()
}

/// Every byte sequence below 128 is valid UTF-8 and decodes byte-for-byte.
proof fn lemma_ascii_decodes(b: Seq<u8>)
    requires
        forall|j: int| 0 <= j < b.len() ==> b[j] < 128,
    ensures
        vstd::utf8::valid_utf8(b),
        vstd::utf8::decode_utf8(b) =~= b.map(|_i: int, x: u8| x as char),
    decreases b.len(),
{
    if b.len() > 0 {
        let b0 = b[0];
        assert(is_leading_byte_width_1(b0)) by (bit_vector)
            requires
                b0 < 128,
        ;
        assert(leading_bits_width_1(b0) == b0 as u32) by (bit_vector)
            requires
                b0 < 128,
        ;
        assert(valid_first_scalar(b));
        assert(pop_first_scalar(b) =~= b.skip(1));
        assert(forall|j: int| 0 <= j < b.skip(1).len() ==> b.skip(1)[j] < 128);
        lemma_ascii_decodes(b.skip(1));
        assert(decode_first_scalar(b) == b0 as u32);
        assert((b0 as u32) as char == b0 as char);
        assert(decode_utf8(b) =~= seq![b0 as char] + decode_utf8(b.skip(1)));
    }
}

/// Turn ASCII bytes into the string with those characters.
fn ascii_to_string(v: Vec<u8>) -> (r: String)
    requires
        forall|j: int| 0 <= j < v@.len() ==> v@[j] < 128,
    ensures
        r@ == v@.map(|_i: int, x: u8| x as char),
{
    proof {
        lemma_ascii_decodes(v@);
    }
    let r = bytes_to_string(v);
    match r {
        Some(s) => s,
        None => {
            proof {
                assert(false);
            }
            String::new()
        },
    }
}

} // verus!
