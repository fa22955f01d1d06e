//! Integers as they lie in guest memory: sequences of bytes, least significant
//! byte first unless a name says otherwise.

use byteorder::ByteOrder;
use vstd::prelude::*;
use vstd::slice::slice_subrange;

verus! {

/// The 16-bit value whose little-endian encoding opens `b`.
pub open spec fn le_u16(b: Seq<u8>) -> u16 {
    (b[0] as int + 0x100 * (b[1] as int)) as u16
}

/// The 32-bit value whose little-endian encoding opens `b`.
pub open spec fn le_u32(b: Seq<u8>) -> u32 {
    (b[0] as int + 0x100 * (b[1] as int) + 0x1_0000 * (b[2] as int) + 0x100_0000 * (b[3] as int)) as u32
}

/// The 64-bit value whose little-endian encoding opens `b`.
pub open spec fn le_u64(b: Seq<u8>) -> u64 {
    (le_u32(b) as int + 0x1_0000_0000 * (le_u32(b.skip(4)) as int)) as u64
}

/// The 64-bit value whose big-endian encoding opens `b`.
pub open spec fn be_u64(b: Seq<u8>) -> u64 {
    le_u64(b.take(8).reverse())
}

/// `byteorder::LittleEndian::read_u16`: decodes the first two bytes of `b`,
/// least significant first. It panics on a shorter slice, which `requires` excludes.
#[verifier::external_body]
pub(crate) fn read_u16_le(b: &[u8]) -> (r: u16)
    requires
        b@.len() >= 2,
    ensures
        r == le_u16(b@),
{
    byteorder::LittleEndian::read_u16(b)
}

/// `byteorder::LittleEndian::read_u32`: decodes the first four bytes of `b`,
/// least significant first. It panics on a shorter slice, which `requires` excludes.
#[verifier::external_body]
pub(crate) fn read_u32_le(b: &[u8]) -> (r: u32)
    requires
        b@.len() >= 4,
    ensures
        r == le_u32(b@),
{
    byteorder::LittleEndian::read_u32(b)
}

/// `byteorder::LittleEndian::read_u64`: decodes the first eight bytes of `b`,
/// least significant first. It panics on a shorter slice, which `requires` excludes.
#[verifier::external_body]
pub(crate) fn read_u64_le(b: &[u8]) -> (r: u64)
    requires
        b@.len() >= 8,
    ensures
        r == le_u64(b@),
{
    byteorder::LittleEndian::read_u64(b)
}

/// `byteorder::BigEndian::read_u64`: decodes the first eight bytes of `b`,
/// most significant first. It panics on a shorter slice, which `requires` excludes.
#[verifier::external_body]
pub(crate) fn read_u64_be(b: &[u8]) -> (r: u64)
    requires
        b@.len() >= 8,
    ensures
        r == be_u64(b@),
{
    byteorder::BigEndian::read_u64(b)
}

/// The 16-bit value that `b` holds at offset `off`.
pub open spec fn u16_at(b: Seq<u8>, off: int) -> u16 {
    le_u16(b.skip(off))
}

/// The 32-bit value that `b` holds at offset `off`.
pub open spec fn u32_at(b: Seq<u8>, off: int) -> u32 {
    le_u32(b.skip(off))
}

/// The 64-bit value that `b` holds at offset `off`.
pub open spec fn u64_at(b: Seq<u8>, off: int) -> u64 {
    le_u64(b.skip(off))
}

/// The byte of `b` at offset `off`.
pub fn get_u8(b: &[u8], off: usize) -> (r: u8)
    requires
        off < b@.len(),
    ensures
        r == b@[off as int],
{
    b[off]
}

/// The 16-bit value that `b` holds at offset `off`.
pub fn get_u16(b: &[u8], off: usize) -> (r: u16)
    requires
        off + 2 <= b@.len(),
    ensures
        r == u16_at(b@, off as int),
{
    read_u16_le(slice_subrange(b, off, b.len()))
}

/// The 32-bit value that `b` holds at offset `off`.
pub fn get_u32(b: &[u8], off: usize) -> (r: u32)
    requires
        off + 4 <= b@.len(),
    ensures
        r == u32_at(b@, off as int),
{
    read_u32_le(slice_subrange(b, off, b.len()))
}

/// The 64-bit value that `b` holds at offset `off`.
pub fn get_u64(b: &[u8], off: usize) -> (r: u64)
    requires
        off + 8 <= b@.len(),
    ensures
        r == u64_at(b@, off as int),
{
    read_u64_le(slice_subrange(b, off, b.len()))
}

/// The `n` 16-bit values that `b` holds from offset `off` on.
pub open spec fn u16s_at(b: Seq<u8>, off: int, n: int) -> Seq<u16> {
    Seq::new(n as nat, |i: int| u16_at(b, off + 2 * i))
}

/// The `n` 32-bit values that `b` holds from offset `off` on.
pub open spec fn u32s_at(b: Seq<u8>, off: int, n: int) -> Seq<u32> {
    Seq::new(n as nat, |i: int| u32_at(b, off + 4 * i))
}

/// The `n` 64-bit values that `b` holds from offset `off` on.
pub open spec fn u64s_at(b: Seq<u8>, off: int, n: int) -> Seq<u64> {
    Seq::new(n as nat, |i: int| u64_at(b, off + 8 * i))
}

/// The `N` bytes of `b` from offset `off` on.
pub fn get_u8s<const N: usize>(b: &[u8], off: usize) -> (r: [u8; N])
    requires
        off + N <= b@.len(),
    ensures
        r@ == b@.subrange(off as int, off + N),
{
    let mut r: [u8; N] = [0u8; N];
    let mut i: usize = 0;
    while i < N
        invariant
            i <= N,
            off + N <= b.len(),
            r@.len() == N,
            forall|k: int| 0 <= k < i ==> r@[k] == b@[off + k],
        decreases N - i,
    {
        r[i] = b[off + i];
        i = i + 1;
    }
    assert(r@ =~= b@.subrange(off as int, off + N));
    r
}

/// The `N` 16-bit values that `b` holds from offset `off` on.
pub fn get_u16s<const N: usize>(b: &[u8], off: usize) -> (r: [u16; N])
    requires
        off + 2 * N <= b@.len(),
    ensures
        r@ == u16s_at(b@, off as int, N as int),
{
    let mut r: [u16; N] = [0u16; N];
    let mut i: usize = 0;
    while i < N
        invariant
            i <= N,
            off + 2 * N <= b.len(),
            r@.len() == N,
            forall|k: int| 0 <= k < i ==> r@[k] == u16_at(b@, off + 2 * k),
        decreases N - i,
    {
        r[i] = get_u16(b, off + 2 * i);
        i = i + 1;
    }
    assert(r@ =~= u16s_at(b@, off as int, N as int));
    r
}

/// The `N` 32-bit values that `b` holds from offset `off` on.
pub fn get_u32s<const N: usize>(b: &[u8], off: usize) -> (r: [u32; N])
    requires
        off + 4 * N <= b@.len(),
    ensures
        r@ == u32s_at(b@, off as int, N as int),
{
    let mut r: [u32; N] = [0u32; N];
    let mut i: usize = 0;
    while i < N
        invariant
            i <= N,
            off + 4 * N <= b.len(),
            r@.len() == N,
            forall|k: int| 0 <= k < i ==> r@[k] == u32_at(b@, off + 4 * k),
        decreases N - i,
    {
        r[i] = get_u32(b, off + 4 * i);
        i = i + 1;
    }
    assert(r@ =~= u32s_at(b@, off as int, N as int));
    r
}

/// The `N` 64-bit values that `b` holds from offset `off` on.
pub fn get_u64s<const N: usize>(b: &[u8], off: usize) -> (r: [u64; N])
    requires
        off + 8 * N <= b@.len(),
    ensures
        r@ == u64s_at(b@, off as int, N as int),
{
    let mut r: [u64; N] = [0u64; N];
    let mut i: usize = 0;
    while i < N
        invariant
            i <= N,
            off + 8 * N <= b.len(),
            r@.len() == N,
            forall|k: int| 0 <= k < i ==> r@[k] == u64_at(b@, off + 8 * k),
        decreases N - i,
    {
        r[i] = get_u64(b, off + 8 * i);
        i = i + 1;
    }
    assert(r@ =~= u64s_at(b@, off as int, N as int));
    r
}

/// A value with a fixed layout in guest memory: plain data that can be read
/// out of a run of bytes.
pub trait Pod: Sized {
    /// Number of bytes that a value occupies in guest memory.
    spec fn size_of() -> nat;

    /// Whether `v` is the value that the bytes `b` hold at their start.
    spec fn decodes(b: Seq<u8>, v: Self) -> bool;

    /// The bytes hold at most one value.
    proof fn lemma_decodes_unique(b: Seq<u8>, v: Self, w: Self)
        requires
            Self::decodes(b, v),
            Self::decodes(b, w),
        ensures
            v == w,
    ;

    /// Number of bytes that a value occupies in guest memory.
    fn size() -> (n: usize)
        ensures
            n == Self::size_of(),
    ;

    /// Reads a value out of the start of `b`.
    fn from_bytes(b: &[u8]) -> (v: Self)
        requires
            b@.len() >= Self::size_of(),
        ensures
            Self::decodes(b@, v),
    ;
}

/// The value that the bytes `b` hold at their start.
pub open spec fn decoded<T: Pod>(b: Seq<u8>) -> T {
    choose|v: T| T::decodes(b, v)
}

/// A value that the bytes hold is the value that they hold.
pub proof fn lemma_decoded<T: Pod>(b: Seq<u8>, v: T)
    requires
        T::decodes(b, v),
    ensures
        v == decoded::<T>(b),
{
    T::lemma_decodes_unique(b, v, decoded::<T>(b));
}

impl Pod for u8 {
    open spec fn size_of() -> nat {
        1
    }

    open spec fn decodes(b: Seq<u8>, v: Self) -> bool {
        v == b[0]
    }

    proof fn lemma_decodes_unique(b: Seq<u8>, v: Self, w: Self) {
    }

    fn size() -> (n: usize) {
        1
    }

    fn from_bytes(b: &[u8]) -> (v: Self) {
        get_u8(b, 0)
    }
}

impl Pod for u16 {
    open spec fn size_of() -> nat {
        2
    }

    open spec fn decodes(b: Seq<u8>, v: Self) -> bool {
        v == u16_at(b, 0)
    }

    proof fn lemma_decodes_unique(b: Seq<u8>, v: Self, w: Self) {
    }

    fn size() -> (n: usize) {
        2
    }

    fn from_bytes(b: &[u8]) -> (v: Self) {
        get_u16(b, 0)
    }
}

impl Pod for u32 {
    open spec fn size_of() -> nat {
        4
    }

    open spec fn decodes(b: Seq<u8>, v: Self) -> bool {
        v == u32_at(b, 0)
    }

    proof fn lemma_decodes_unique(b: Seq<u8>, v: Self, w: Self) {
    }

    fn size() -> (n: usize) {
        4
    }

    fn from_bytes(b: &[u8]) -> (v: Self) {
        get_u32(b, 0)
    }
}

impl Pod for u64 {
    open spec fn size_of() -> nat {
        8
    }

    open spec fn decodes(b: Seq<u8>, v: Self) -> bool {
        v == u64_at(b, 0)
    }

    proof fn lemma_decodes_unique(b: Seq<u8>, v: Self, w: Self) {
    }

    fn size() -> (n: usize) {
        8
    }

    fn from_bytes(b: &[u8]) -> (v: Self) {
        get_u64(b, 0)
    }
}

} // verus!
