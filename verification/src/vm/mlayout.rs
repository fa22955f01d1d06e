//! Numbers as an operator types them, and the layout of an address space as a
//! debugger prints it.

use crate::bytes::{be_u64, le_u32, le_u64, read_u64_be, read_u64_le};
use vstd::prelude::*;
use vstd::slice::slice_subrange;
use vstd::string::StrSliceExecFns;
use vstd::string::StringExecFns;
use vstd::string::StringSliceAdditionalSpecFns;

verus! {

/// Why a string of hexadecimal digits was not decoded.
#[verifier::external_type_specification]
#[verifier::external_body]
pub struct ExFromHexError(hex::FromHexError);

/// The value of the hexadecimal digit `c`, upper or lower case, or `None`
/// where `c` is no such digit.
pub open spec fn hex_value(c: u8) -> Option<u8> {
    if 0x30 <= c <= 0x39 {
        Some((c - 0x30) as u8)
    } else if 0x41 <= c <= 0x46 {
        Some((c - 0x41 + 10) as u8)
    } else if 0x61 <= c <= 0x66 {
        Some((c - 0x61 + 10) as u8)
    } else {
        None
    }
}

/// Whether `text` is an even number of hexadecimal digits.
pub open spec fn is_hex(text: Seq<u8>) -> bool {
    &&& text.len() % 2 == 0
    &&& forall|i: int| 0 <= i < text.len() ==> (#[trigger] hex_value(text[i])) is Some
}

/// The bytes that the hexadecimal digits `text` spell, two digits a byte, the
/// high digit first.
pub open spec fn hex_bytes(text: Seq<u8>) -> Seq<u8> {
    Seq::new(
        text.len() / 2,
        |i: int| (16 * hex_value(text[2 * i]).unwrap() + hex_value(text[2 * i + 1]).unwrap()) as u8,
    )
}

/// The lower-case hexadecimal digit for `v`, which is less than 16.
pub open spec fn hex_digit(v: u8) -> char {
    if v < 10 {
        (0x30 + v) as char
    } else {
        (0x61 + v - 10) as char
    }
}

/// The text that spells the bytes `data` in lower-case hexadecimal digits,
/// two digits a byte, the high digit first.
pub open spec fn hex_text(data: Seq<u8>) -> Seq<char> {
    Seq::new(
        2 * data.len(),
        |i: int|
            if i % 2 == 0 {
                hex_digit(data[i / 2] / 16)
            } else {
                hex_digit(data[i / 2] % 16)
            },
    )
}

/// `hex::decode`: decodes an even number of hexadecimal digits, upper or lower
/// case, into the bytes that they spell, and fails on an odd number of
/// characters and on a character that is no such digit.
#[verifier::external_body]
fn hex_decode(text: &[u8]) -> (r: Result<Vec<u8>, hex::FromHexError>)
    ensures
        r is Ok <==> is_hex(text@),
        r is Ok ==> r.unwrap()@ == hex_bytes(text@),
{
    hex::decode(text)
}

/// `hex::encode`: spells bytes in lower-case hexadecimal digits, two digits a
/// byte.
#[verifier::external_body]
fn hex_encode(data: &[u8]) -> (s: String)
    ensures
        s@ == hex_text(data@),
{
    hex::encode(data)
}

/// The eight bytes of `value`, the most significant first.
pub open spec fn be_bytes(value: u64) -> Seq<u8> {
    Seq::new(8, |i: int| ((value as int / pow256(7 - i)) % 256) as u8)
}

/// 256 to the power of `k`, for `k` from 0 to 7.
pub open spec fn pow256(k: int) -> int {
    if k <= 0 {
        1
    } else if k == 1 {
        0x100
    } else if k == 2 {
        0x1_0000
    } else if k == 3 {
        0x100_0000
    } else if k == 4 {
        0x1_0000_0000
    } else if k == 5 {
        0x100_0000_0000
    } else if k == 6 {
        0x1_0000_0000_0000
    } else {
        0x100_0000_0000_0000
    }
}

/// The shifts that cut a number into its bytes divide it by powers of 256.
proof fn lemma_byte_shifts(v: u64)
    by (bit_vector)
    ensures
        (v >> 56) & 0xff == (v / 0x100_0000_0000_0000) % 256,
        (v >> 48) & 0xff == (v / 0x1_0000_0000_0000) % 256,
        (v >> 40) & 0xff == (v / 0x100_0000_0000) % 256,
        (v >> 32) & 0xff == (v / 0x1_0000_0000) % 256,
        (v >> 24) & 0xff == (v / 0x100_0000) % 256,
        (v >> 16) & 0xff == (v / 0x1_0000) % 256,
        (v >> 8) & 0xff == (v / 0x100) % 256,
        v & 0xff == v % 256,
{
}

/// `value` as sixteen lower-case hexadecimal digits, the most significant
/// first.
pub fn to_hex(value: u64) -> (s: String)
    ensures
        s@ == hex_text(be_bytes(value)),
        s@.len() == 16,
{
    proof {
        lemma_byte_shifts(value);
    }
    let bytes: [u8; 8] = [
        ((value >> 56) & 0xff) as u8,
        ((value >> 48) & 0xff) as u8,
        ((value >> 40) & 0xff) as u8,
        ((value >> 32) & 0xff) as u8,
        ((value >> 24) & 0xff) as u8,
        ((value >> 16) & 0xff) as u8,
        ((value >> 8) & 0xff) as u8,
        (value & 0xff) as u8,
    ];
    assert(bytes@ =~= be_bytes(value));
    hex_encode(bytes.as_slice())
}

/// The number that the decimal digits `text` spell, as far as they are
/// digits: the value of an empty text is zero.
pub open spec fn dec_digits_value(text: Seq<u8>) -> int
    decreases text.len(),
{
    if text.len() == 0 {
        0
    } else {
        10 * dec_digits_value(text.drop_last()) + (text.last() - 0x30)
    }
}

/// Whether `text` is decimal digits and nothing else.
pub open spec fn is_decimal(text: Seq<u8>) -> bool {
    &&& text.len() > 0
    &&& forall|i: int| 0 <= i < text.len() ==> 0x30 <= #[trigger] text[i] <= 0x39
}

/// The number that `text` spells in decimal, if it is one or more decimal
/// digits and the number fits in 64 bits.
pub open spec fn dec_value(text: Seq<u8>) -> Option<u64> {
    if is_decimal(text) && dec_digits_value(text) <= u64::MAX {
        Some(dec_digits_value(text) as u64)
    } else {
        None
    }
}

/// A longer run of digits spells no smaller number.
proof fn lemma_dec_digits_grow(text: Seq<u8>, n: int)
    requires
        0 <= n <= text.len(),
        forall|i: int| 0 <= i < text.len() ==> 0x30 <= #[trigger] text[i] <= 0x39,
    ensures
        0 <= dec_digits_value(text.take(n)) <= dec_digits_value(text),
    decreases text.len() - n,
{
    if n == text.len() {
        assert(text.take(n) =~= text);
        lemma_dec_digits_nonneg(text);
    } else {
        lemma_dec_digits_grow(text, n + 1);
        assert(text.take(n + 1).drop_last() =~= text.take(n));
        lemma_dec_digits_nonneg(text.take(n));
    }
}

/// A run of digits spells no negative number.
proof fn lemma_dec_digits_nonneg(text: Seq<u8>)
    requires
        forall|i: int| 0 <= i < text.len() ==> 0x30 <= #[trigger] text[i] <= 0x39,
    ensures
        0 <= dec_digits_value(text),
    decreases text.len(),
{
    if text.len() > 0 {
        lemma_dec_digits_nonneg(text.drop_last());
    }
}

/// Reads a number in decimal.
pub fn parse_decimal(text: &[u8]) -> (r: Option<u64>)
    ensures
        r == dec_value(text@),
{
    if text.len() == 0 {
        return None;
    }
    let mut value: u64 = 0;
    let mut i: usize = 0;
    while i < text.len()
        invariant
            i <= text.len(),
            forall|k: int| 0 <= k < i ==> 0x30 <= #[trigger] text@[k] <= 0x39,
            value == dec_digits_value(text@.take(i as int)),
        decreases text.len() - i,
    {
        let c = text[i];
        if c < 0x30 || c > 0x39 {
            return None;
        }
        let ghost prefix = text@.take(i as int + 1);
        assert(prefix.drop_last() =~= text@.take(i as int));
        let next = match value.checked_mul(10) {
            Some(v) => v.checked_add((c - 0x30) as u64),
            None => None,
        };
        match next {
            Some(v) => {
                value = v;
            },
            None => {
                proof {
                    if is_decimal(text@) {
                        lemma_dec_digits_grow(text@, i as int + 1);
                    }
                }
                return None;
            },
        }
        i = i + 1;
    }
    assert(text@.take(text.len() as int) =~= text@);
    Some(value)
}

/// `text` with zeros in front to make sixteen characters of it; a longer text
/// stays as it is.
pub open spec fn zero_padded(text: Seq<u8>) -> Seq<u8> {
    if text.len() < 16 {
        Seq::new((16 - text.len()) as nat, |i: int| 0x30u8) + text
    } else {
        text
    }
}

/// Where the first plus sign of `text` at or after `from` is.
pub open spec fn first_plus(text: Seq<u8>, from: int) -> Option<int>
    decreases text.len() - from,
{
    if from < 0 || from >= text.len() {
        None
    } else if text[from] == 0x2b {
        Some(from)
    } else {
        first_plus(text, from + 1)
    }
}

/// The number that `text` spells. A plus sign makes a sum of what stands
/// before the first one and what stands behind it. Behind `0x` stand
/// hexadecimal digits, which are read as a number of sixteen digits with
/// zeros in front; of more than sixteen digits the first sixteen count. The
/// eight bytes that the digits spell are the number with the most
/// significant byte first, or with the least significant first if `le` is
/// set. Anything else is read in decimal. There is no number where a part
/// cannot be read or where the sum does not fit in 64 bits.
pub open spec fn spec_parse_u64(text: Seq<u8>, le: bool) -> Option<u64>
    decreases text.len(),
{
    match first_plus(text, 0) {
        Some(i) => {
            if 0 <= i < text.len() {
                match (spec_parse_u64(text.take(i), le), spec_parse_u64(text.skip(i + 1), le)) {
                    (Some(lh), Some(rh)) => if lh + rh <= u64::MAX {
                        Some((lh + rh) as u64)
                    } else {
                        None
                    },
                    _ => None,
                }
            } else {
                None
            }
        },
        None => if text.len() >= 2 && text[0] == 0x30 && text[1] == 0x78 {
            let digits = zero_padded(text.skip(2));
            if is_hex(digits) {
                Some(
                    if le {
                        le_u64(hex_bytes(digits))
                    } else {
                        be_u64(hex_bytes(digits))
                    },
                )
            } else {
                None
            }
        } else {
            dec_value(text)
        },
    }
}

/// Whether `c` is a hexadecimal digit in lower case.
pub open spec fn is_lower_hex(c: u8) -> bool {
    0x30 <= c <= 0x39 || 0x61 <= c <= 0x66
}

/// A text without a plus sign has no first plus sign.
proof fn lemma_no_plus(text: Seq<u8>, from: int)
    requires
        0 <= from,
        forall|i: int| from <= i < text.len() ==> text[i] != 0x2b,
    ensures
        first_plus(text, from) is None,
    decreases text.len() - from,
{
    if from < text.len() {
        lemma_no_plus(text, from + 1);
    }
}

/// A number made of eight bytes falls apart into those bytes.
proof fn lemma_bytes_of_sum(b0: u64, b1: u64, b2: u64, b3: u64, b4: u64, b5: u64, b6: u64, b7: u64)
    by (bit_vector)
    requires
        b0 <= 0xff,
        b1 <= 0xff,
        b2 <= 0xff,
        b3 <= 0xff,
        b4 <= 0xff,
        b5 <= 0xff,
        b6 <= 0xff,
        b7 <= 0xff,
    ensures
        ({
            let v: u64 = (b0 | (b1 << 8) | (b2 << 16) | (b3 << 24) | (b4 << 32) | (b5 << 40) | (b6
                << 48) | (b7 << 56)) as u64;
            &&& v == b0 + 0x100 * b1 + 0x1_0000 * b2 + 0x100_0000 * b3 + 0x1_0000_0000 * b4
                + 0x100_0000_0000 * b5 + 0x1_0000_0000_0000 * b6 + 0x100_0000_0000_0000 * b7
            &&& v % 256 == b0
            &&& (v / 0x100) % 256 == b1
            &&& (v / 0x1_0000) % 256 == b2
            &&& (v / 0x100_0000) % 256 == b3
            &&& (v / 0x1_0000_0000) % 256 == b4
            &&& (v / 0x100_0000_0000) % 256 == b5
            &&& (v / 0x1_0000_0000_0000) % 256 == b6
            &&& (v / 0x100_0000_0000_0000) % 256 == b7
        }),
{
}

/// The eight bytes of the number that eight bytes spell, the most
/// significant first, are those bytes.
pub proof fn lemma_be_bytes_of_be_u64(b: Seq<u8>)
    requires
        b.len() == 8,
    ensures
        be_bytes(be_u64(b)) == b,
{
    let r = b.take(8).reverse();
    assert(r[0] == b[7] && r[1] == b[6] && r[2] == b[5] && r[3] == b[4]);
    assert(r[4] == b[3] && r[5] == b[2] && r[6] == b[1] && r[7] == b[0]);
    assert(r.skip(4)[0] == r[4] && r.skip(4)[1] == r[5] && r.skip(4)[2] == r[6] && r.skip(4)[3]
        == r[7]);
    lemma_bytes_of_sum(
        b[7] as u64,
        b[6] as u64,
        b[5] as u64,
        b[4] as u64,
        b[3] as u64,
        b[2] as u64,
        b[1] as u64,
        b[0] as u64,
    );
    let v = be_u64(b);
    let low = b[7] as int + 0x100 * (b[6] as int) + 0x1_0000 * (b[5] as int) + 0x100_0000 * (
    b[4] as int);
    let high = b[3] as int + 0x100 * (b[2] as int) + 0x1_0000 * (b[1] as int) + 0x100_0000 * (
    b[0] as int);
    assert(le_u32(r) == low);
    assert(le_u32(r.skip(4)) == high);
    assert(v == low + 0x1_0000_0000 * high);
    let got = be_bytes(v);
    assert(got[7] == b[7]);
    assert(got[6] == b[6]);
    assert(got[5] == b[5]);
    assert(got[4] == b[4]);
    assert(got[3] == b[3]);
    assert(got[2] == b[2]);
    assert(got[1] == b[1]);
    assert(got[0] == b[0]);
    assert(got =~= b);
}

/// Sixteen hexadecimal digits in lower case behind `0x` are read as a
/// number, and that number written in hexadecimal is the same sixteen digits.
pub proof fn lemma_hex_roundtrip(digits: Seq<u8>)
    requires
        digits.len() == 16,
        forall|i: int| 0 <= i < 16 ==> is_lower_hex(#[trigger] digits[i]),
    ensures
        spec_parse_u64(seq![0x30u8, 0x78u8] + digits, false) is Some,
        hex_text(be_bytes(spec_parse_u64(seq![0x30u8, 0x78u8] + digits, false).unwrap()))
            == digits.map_values(|c: u8| c as char),
{
    let text = seq![0x30u8, 0x78u8] + digits;
    assert forall|i: int| 0 <= i < text.len() implies text[i] != 0x2b by {
        if i >= 2 {
            assert(text[i] == digits[i - 2]);
            assert(is_lower_hex(digits[i - 2]));
        }
    }
    lemma_no_plus(text, 0);
    assert(text.skip(2) =~= digits);
    assert(zero_padded(digits) == digits);
    assert forall|i: int| 0 <= i < digits.len() implies (#[trigger] hex_value(digits[i])) is Some by {
        assert(is_lower_hex(digits[i]));
    }
    assert(is_hex(digits));
    let bytes = hex_bytes(digits);
    assert(spec_parse_u64(text, false) == Some(be_u64(bytes)));
    lemma_be_bytes_of_be_u64(bytes);
    assert forall|i: int| 0 <= i < 16 implies hex_text(bytes)[i] == digits[i] as char by {
        let hi = digits[2 * (i / 2)];
        let lo = digits[2 * (i / 2) + 1];
        assert(is_lower_hex(hi) && is_lower_hex(lo));
        let byte = bytes[i / 2];
        assert(byte == 16 * hex_value(hi).unwrap() + hex_value(lo).unwrap());
        assert(byte / 16 == hex_value(hi).unwrap());
        assert(byte % 16 == hex_value(lo).unwrap());
        if i % 2 == 0 {
            assert(digits[i] == hi);
        } else {
            assert(digits[i] == lo);
        }
    }
    assert(hex_text(bytes) =~= digits.map_values(|c: u8| c as char));
}

/// Finds the first plus sign of `text`.
fn find_plus(text: &[u8]) -> (r: Option<usize>)
    ensures
        match r {
            Some(i) => first_plus(text@, 0) == Some(i as int) && i < text.len(),
            None => first_plus(text@, 0) is None,
        },
{
    let mut i: usize = 0;
    while i < text.len()
        invariant
            i <= text.len(),
            first_plus(text@, 0) == first_plus(text@, i as int),
        decreases text.len() - i,
    {
        if text[i] == 0x2b {
            return Some(i);
        }
        i = i + 1;
    }
    None
}

/// Reads a number from the bytes of a text, as `spec_parse_u64` says.
pub fn parse_u64_bytes(text: &[u8], le: bool) -> (r: Option<u64>)
    ensures
        r == spec_parse_u64(text@, le),
    decreases text@.len(),
{
    match find_plus(text) {
        Some(i) => {
            let left = slice_subrange(text, 0, i);
            let right = slice_subrange(text, i + 1, text.len());
            assert(left@ =~= text@.take(i as int));
            assert(right@ =~= text@.skip(i as int + 1));
            let lh = parse_u64_bytes(left, le);
            let rh = parse_u64_bytes(right, le);
            match (lh, rh) {
                (Some(l), Some(r)) => l.checked_add(r),
                _ => None,
            }
        },
        None => {
            if text.len() >= 2 && text[0] == 0x30 && text[1] == 0x78 {
                let h = slice_subrange(text, 2, text.len());
                assert(h@ =~= text@.skip(2));
                let mut hh: Vec<u8> = Vec::new();
                if h.len() < 16 {
                    let mut k: usize = h.len();
                    while k < 16
                        invariant
                            h.len() <= k <= 16,
                            hh@ == Seq::new((k - h.len()) as nat, |i: int| 0x30u8),
                        decreases 16 - k,
                    {
                        hh.push(0x30);
                        k = k + 1;
                        assert(hh@ =~= Seq::new((k - h.len()) as nat, |i: int| 0x30u8));
                    }
                }
                let mut j: usize = 0;
                let ghost pad = hh@;
                while j < h.len()
                    invariant
                        j <= h.len(),
                        hh@ == pad + h@.take(j as int),
                    decreases h.len() - j,
                {
                    hh.push(h[j]);
                    j = j + 1;
                    assert(hh@ =~= pad + h@.take(j as int));
                }
                assert(h@.take(h.len() as int) =~= h@);
                assert(hh@ =~= zero_padded(h@));
                match hex_decode(hh.as_slice()) {
                    Ok(bytes) => Some(
                        if le {
                            read_u64_le(bytes.as_slice())
                        } else {
                            read_u64_be(bytes.as_slice())
                        },
                    ),
                    Err(_) => None,
                }
            } else {
                parse_decimal(text)
            }
        },
    }
}

/// Reads a number as an operator types it: in decimal, in hexadecimal behind
/// `0x`, or as a sum of such numbers.
pub fn parse_u64(s: &str, le: bool) -> (r: Option<u64>)
    ensures
        r == spec_parse_u64(s.spec_bytes(), le),
{
    parse_u64_bytes(s.as_bytes(), le)
}

/// `Clone::clone` of a `std::ops::Range`. Nothing is claimed of the copy.
pub assume_specification<Idx: Clone>[ <std::ops::Range<Idx> as Clone>::clone ](
    r: &std::ops::Range<Idx>,
) -> std::ops::Range<Idx>
;

/// A range of an address space, as a debugger names it.
#[derive(Clone, Debug)]
pub struct MemoryRange {
    /// From the first address of the range up to, but not with, the address
    /// behind its last.
    pub range: std::ops::Range<u64>,
    /// The name of the range; empty if it has none.
    pub name: String,
    /// The section that the range is part of, if it is part of one.
    pub parent: Option<String>,
    /// What kind of memory the range is and how it is protected.
    pub metadata: String,
}

/// A range of an address space as a value: where it starts and ends, its
/// name, the section that it is part of, and what else the debugger says.
pub struct RangeModel {
    /// The first address of the range.
    pub start: u64,
    /// The address behind its last.
    pub end: u64,
    /// The name of the range.
    pub name: Seq<char>,
    /// The section that the range is part of.
    pub parent: Option<Seq<char>>,
    /// What kind of memory the range is and how it is protected.
    pub metadata: Seq<char>,
}

impl View for MemoryRange {
    type V = RangeModel;

    open spec fn view(&self) -> RangeModel {
        RangeModel {
            start: self.range.start,
            end: self.range.end,
            name: self.name@,
            parent: match self.parent {
                Some(p) => Some(p@),
                None => None,
            },
            metadata: self.metadata@,
        }
    }
}

/// A map that keeps its entries in the order in which their keys came.
#[verifier::external_type_specification]
#[verifier::external_body]
#[verifier::reject_recursive_types(K)]
#[verifier::reject_recursive_types(V)]
#[verifier::reject_recursive_types(S)]
pub struct ExIndexMap<K, V, S>(indexmap::IndexMap<K, V, S>);

/// The entries of a map of sections, in the order of the map.
pub uninterp spec fn layout_sections(m: indexmap::IndexMap<u64, MemoryRange>) -> Seq<
    (u64, MemoryRange),
>;

/// Where the first line feed of `text` at or after `from` is, or the length
/// of `text` if there is none.
pub open spec fn line_end(text: Seq<char>, from: int) -> int
    decreases text.len() - from,
{
    if from < 0 || from >= text.len() {
        text.len() as int
    } else if text[from] == '\n' {
        from
    } else {
        line_end(text, from + 1)
    }
}

/// The lines of a text. A line ends at a line feed or at the end of the
/// text; the line feed is no part of it, nor is one carriage return that
/// stands right before the line feed. Behind the last line feed there is a
/// line only if there is text.
pub open spec fn text_lines(text: Seq<char>) -> Seq<Seq<char>>
    decreases text.len(),
{
    if text.len() == 0 {
        Seq::empty()
    } else {
        let end = line_end(text, 0);
        if end < 0 || end >= text.len() {
            seq![text]
        } else {
            let line = if end > 0 && text[end - 1] == '\r' {
                text.take(end - 1)
            } else {
                text.take(end)
            };
            seq![line] + text_lines(text.skip(end + 1))
        }
    }
}

/// The fields of a line: what stands between its runs of white space.
pub uninterp spec fn text_fields(line: Seq<char>) -> Seq<Seq<char>>;

/// Where the first entry of `entries` with the key `key` is, from index
/// `from` on.
pub open spec fn index_of_key<V>(entries: Seq<(u64, V)>, key: u64, from: int) -> Option<int>
    decreases entries.len() - from,
{
    if from < 0 || from >= entries.len() {
        None
    } else if entries[from].0 == key {
        Some(from)
    } else {
        index_of_key(entries, key, from + 1)
    }
}

/// `entries` with `value` under `key`: in the place of the entry that had the
/// key before, or at the end if there was none.
pub open spec fn upsert<V>(entries: Seq<(u64, V)>, key: u64, value: V) -> Seq<(u64, V)> {
    match index_of_key(entries, key, 0) {
        Some(i) => entries.update(i, (key, value)),
        None => entries.push((key, value)),
    }
}

/// `indexmap::IndexMap::new`: an empty map.
#[verifier::external_body]
fn sections_new() -> (m: indexmap::IndexMap<u64, MemoryRange>)
    ensures
        layout_sections(m) == Seq::<(u64, MemoryRange)>::empty(),
{
    indexmap::IndexMap::new()
}

/// `indexmap::IndexMap::insert`: puts `value` under `key`. A key that the map
/// holds keeps its place in the order and gets the new value; a new key goes
/// to the end.
#[verifier::external_body]
fn sections_insert(m: &mut indexmap::IndexMap<u64, MemoryRange>, key: u64, value: MemoryRange)
    ensures
        layout_sections(*final(m)) == upsert(layout_sections(*old(m)), key, value),
{
    m.insert(key, value);
}

/// `str::lines`: cuts a text into its lines, which end at a line feed or at
/// a carriage return and a line feed; the line endings are left out, and a
/// last line ending makes no empty line behind it.
#[verifier::external_body]
fn split_lines(text: &str) -> (lines: Vec<String>)
    ensures
        lines.deep_view() == text_lines(text@),
{
    text.lines().map(String::from).collect()
}

/// `str::split_whitespace`: cuts a line into its fields.
#[verifier::external_body]
fn split_fields(line: &str) -> (fields: Vec<String>)
    ensures
        fields.deep_view() == text_fields(line@),
{
    line.split_whitespace().map(String::from).collect()
}

/// The layout of an address space: its ranges by the address at which they
/// start, in the order in which they were listed.
pub struct MemoryLayout {
    /// The ranges, by the address at which they start.
    pub sections: indexmap::IndexMap<u64, MemoryRange>,
}

/// What a line of a table says.
pub enum TableRow {
    /// Nothing: the line is empty.
    Blank,
    /// Nothing that can be read, and why.
    Fault(Seq<char>),
    /// A range that starts at `start`. A range whose line holds a quotation
    /// mark is part of the section named last; any other names a section.
    Range { start: u64, range: RangeModel, section: Seq<char> },
}

/// The number that `field` spells in hexadecimal.
pub open spec fn hex_field(field: Seq<char>) -> Option<u64> {
    spec_parse_u64(vstd::utf8::encode_utf8("0x"@ + field), false)
}

/// What a line with the fields `parts` says, `last_section` being the section
/// named last and `subsection` whether the line holds a quotation mark. A
/// line has its start, its size, a name unless it has but five fields, and
/// three fields at its end that are kept as they are.
pub open spec fn fields_row(parts: Seq<Seq<char>>, subsection: bool, last_section: Seq<char>) -> TableRow {
    if parts.len() == 0 {
        TableRow::Blank
    } else if parts.len() < 5 {
        TableRow::Fault("came across a line with less than 5 parts"@)
    } else if hex_field(parts[0]) is None || hex_field(parts[1]) is None {
        TableRow::Fault("cannot parse the start"@)
    } else {
        let start = hex_field(parts[0]).unwrap();
        let name = if parts.len() == 5 {
            Seq::empty()
        } else {
            parts[2]
        };
        TableRow::Range {
            start,
            range: RangeModel {
                start,
                end: start.wrapping_add(hex_field(parts[1]).unwrap()),
                name,
                parent: if subsection {
                    Some(last_section)
                } else {
                    None
                },
                metadata: parts[parts.len() - 3] + " "@ + parts[parts.len() - 2] + " "@
                    + parts[parts.len() - 1],
            },
            section: if subsection {
                last_section
            } else {
                name
            },
        }
    }
}

/// What the line `line` says, `last_section` being the section named last.
pub open spec fn table_row(line: Seq<char>, last_section: Seq<char>) -> TableRow {
    fields_row(text_fields(line), line.contains('"'), last_section)
}

/// The ranges that the lines from line `i` on add to `entries`, or the fault
/// of the first line that cannot be read.
pub open spec fn table_from(
    lines: Seq<Seq<char>>,
    i: int,
    entries: Seq<(u64, RangeModel)>,
    last_section: Seq<char>,
) -> Result<Seq<(u64, RangeModel)>, Seq<char>>
    decreases lines.len() - i,
{
    if i < 0 || i >= lines.len() {
        Ok(entries)
    } else {
        match table_row(lines[i], last_section) {
            TableRow::Blank => table_from(lines, i + 1, entries, last_section),
            TableRow::Fault(why) => Err(why),
            TableRow::Range { start, range, section } => table_from(
                lines,
                i + 1,
                upsert(entries, start, range),
                section,
            ),
        }
    }
}

/// Whether the ranges `entries` are as `models` says, one by one.
pub open spec fn ranges_are(entries: Seq<(u64, MemoryRange)>, models: Seq<(u64, RangeModel)>) -> bool {
    &&& entries.len() == models.len()
    &&& forall|i: int|
        0 <= i < entries.len() ==> (#[trigger] entries[i]).0 == models[i].0 && entries[i].1@
            == models[i].1
}

/// Lists that agree entry by entry hold a key at the same place.
proof fn lemma_index_of_key(
    entries: Seq<(u64, MemoryRange)>,
    models: Seq<(u64, RangeModel)>,
    key: u64,
    from: int,
)
    requires
        ranges_are(entries, models),
        0 <= from,
    ensures
        index_of_key(entries, key, from) == index_of_key(models, key, from),
        match index_of_key(entries, key, from) {
            Some(i) => from <= i < entries.len(),
            None => true,
        },
    decreases entries.len() - from,
{
    if from < entries.len() {
        assert(entries[from].0 == models[from].0);
        if entries[from].0 != key {
            lemma_index_of_key(entries, models, key, from + 1);
        }
    }
}

/// Lists that agree entry by entry still do after the same range went into
/// both under the same key.
proof fn lemma_upsert(
    entries: Seq<(u64, MemoryRange)>,
    models: Seq<(u64, RangeModel)>,
    key: u64,
    value: MemoryRange,
)
    requires
        ranges_are(entries, models),
    ensures
        ranges_are(upsert(entries, key, value), upsert(models, key, value@)),
{
    lemma_index_of_key(entries, models, key, 0);
    let after = upsert(entries, key, value);
    let model_after = upsert(models, key, value@);
    assert forall|i: int| 0 <= i < after.len() implies (#[trigger] after[i]).0 == model_after[i].0
        && after[i].1@ == model_after[i].1 by {
        match index_of_key(entries, key, 0) {
            Some(k) => {
                if i != k {
                    assert(after[i] == entries[i]);
                }
            },
            None => {
                if i < entries.len() {
                    assert(after[i] == entries[i]);
                }
            },
        }
    }
}

/// Whether `line` holds a quotation mark.
fn has_quote(line: &str) -> (r: bool)
    ensures
        r == line@.contains('"'),
{
    let n = line.unicode_len();
    let mut i: usize = 0;
    while i < n
        invariant
            i <= n,
            n == line@.len(),
            forall|k: int| 0 <= k < i ==> line@[k] != '"',
        decreases n - i,
    {
        if line.get_char(i) == '"' {
            return true;
        }
        i = i + 1;
    }
    false
}

/// Reads `field` as a number in hexadecimal.
fn parse_hex_field(field: &str) -> (r: Option<u64>)
    ensures
        r == hex_field(field@),
{
    let text = String::from_str("0x").concat(field);
    parse_u64(text.as_str(), false)
}

/// What was read from a line of a table.
#[derive(Debug)]
pub enum Row {
    /// Nothing: the line is empty.
    Blank,
    /// Nothing that can be read, and why.
    Fault(&'static str),
    /// A range, and the section that is the last one named after it.
    Range { range: MemoryRange, section: String },
}

impl View for Row {
    type V = TableRow;

    open spec fn view(&self) -> TableRow {
        match self {
            Row::Blank => TableRow::Blank,
            Row::Fault(why) => TableRow::Fault(why@),
            Row::Range { range, section } => TableRow::Range {
                start: range.range.start,
                range: range@,
                section: section@,
            },
        }
    }
}

/// Reads a line of a table from its fields `parts`. `subsection` says
/// whether the line holds a quotation mark, `last_section` which section was
/// named last.
pub fn read_row(parts: &Vec<String>, subsection: bool, last_section: &str) -> (r: Row)
    ensures
        r@ == fields_row(parts.deep_view(), subsection, last_section@),
{
    assert(parts.deep_view().len() == parts@.len());
    assert forall|k: int| 0 <= k < parts@.len() implies (#[trigger] parts@[k])@
        == parts.deep_view()[k] by {}
    if parts.len() == 0 {
        return Row::Blank;
    }
    if parts.len() < 5 {
        return Row::Fault("came across a line with less than 5 parts");
    }
    let start: u64 = match parse_hex_field(parts[0].as_str()) {
        Some(r) => r,
        None => {
            return Row::Fault("cannot parse the start");
        },
    };
    let size: u64 = match parse_hex_field(parts[1].as_str()) {
        Some(r) => r,
        None => {
            return Row::Fault("cannot parse the start");
        },
    };
    let name = if parts.len() == 5 {
        String::new()
    } else {
        parts[2].clone()
    };
    let (parent, section) = if subsection {
        (Some(last_section.to_string()), last_section.to_string())
    } else {
        (None, name.clone())
    };
    let mut metadata = parts[parts.len() - 3].clone();
    metadata.append(" ");
    metadata.append(parts[parts.len() - 2].as_str());
    metadata.append(" ");
    metadata.append(parts[parts.len() - 1].as_str());
    Row::Range {
        range: MemoryRange {
            range: std::ops::Range { start, end: start.wrapping_add(size) },
            parent,
            name,
            metadata,
        },
        section,
    }
}

impl MemoryLayout {
    /// Reads the layout of an address space from the table in which a
    /// debugger lists it, a range a line. Blank lines are passed over. A
    /// range that starts where one listed before starts takes its place.
    pub fn from_x64dbg_table(s: &str) -> (r: Result<MemoryLayout, &'static str>)
        ensures
            match (table_from(text_lines(s@), 0, Seq::empty(), Seq::empty()), r) {
                (Ok(models), Ok(layout)) => ranges_are(layout_sections(layout.sections), models),
                (Err(why), Err(e)) => e@ == why,
                _ => false,
            },
    {
        let lines = split_lines(s);
        let mut sections = sections_new();
        let mut last_section_name = String::new();
        let ghost mut models: Seq<(u64, RangeModel)> = Seq::empty();
        let mut i: usize = 0;
        while i < lines.len()
            invariant
                i <= lines.len(),
                lines.deep_view() == text_lines(s@),
                ranges_are(layout_sections(sections), models),
                table_from(text_lines(s@), 0, Seq::empty(), Seq::empty()) == table_from(
                    text_lines(s@),
                    i as int,
                    models,
                    last_section_name@,
                ),
            decreases lines.len() - i,
        {
            let line = lines[i].as_str();
            assert(line@ == text_lines(s@)[i as int]) by {
                assert(lines.deep_view()[i as int] == lines@[i as int]@);
            }
            let parts = split_fields(line);
            let subsection = has_quote(line);
            match read_row(&parts, subsection, last_section_name.as_str()) {
                Row::Blank => {},
                Row::Fault(why) => {
                    return Err(why);
                },
                Row::Range { range, section } => {
                    let start: u64 = range.range.start;
                    proof {
                        lemma_upsert(layout_sections(sections), models, start, range);
                        models = upsert(models, start, range@);
                    }
                    sections_insert(&mut sections, start, range);
                    last_section_name = section;
                },
            }
            i = i + 1;
        }
        Ok(MemoryLayout { sections })
    }
}

} // verus!
