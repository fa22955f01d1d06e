//! Typed and byte-range reads and writes over physical and virtual addresses,
//! and the walk of the four-level page tables that joins the two.

use crate::bytes::{decoded, le_u64, lemma_decoded, Pod};
use crate::vm::binding_core::{
    apply_stores, chunk_count, lemma_apply_stores_concat, PhysMem, WriteStore,
};
use crate::vm::{VMBinding, PMASK, STEP_SIZE};
use crate::text::{latin1, latin1_string};
use vstd::prelude::*;
use vstd::slice::slice_subrange;

verus! {

/// The bits of a page-directory-pointer entry that hold the base of a 1 GiB page.
pub const GIB_PAGE_MASK: u64 = 0x000f_ffff_c000_0000;

/// `n` zero bytes: what a read hands out when it cannot be served.
pub open spec fn zeros(n: int) -> Seq<u8> {
    Seq::new(n as nat, |i: int| 0u8)
}

/// Number of bytes from `address` to the end of its 4 KiB page.
pub open spec fn page_room(address: int) -> int {
    0x1000 - address % 0x1000
}

impl PhysMem {
    /// What a physical read of `len` bytes at `gpa` hands to its caller: the
    /// bytes, or zeros if the range does not lie in the window.
    pub open spec fn read_or_zeros(self, gpa: u64, len: int) -> Seq<u8> {
        if self.in_range(gpa, len) {
            self.bytes_at(gpa, len)
        } else {
            zeros(len)
        }
    }

    /// The page-table entry at physical address `gpa`; zero, which is not
    /// present, where there is no such address.
    pub open spec fn entry_at(self, gpa: int) -> u64 {
        if gpa <= u64::MAX {
            le_u64(self.read_or_zeros(gpa as u64, 8))
        } else {
            0
        }
    }

    /// The guest physical address that `address` maps to in the address space
    /// rooted at `dirbase`, or zero if it is not mapped.
    pub open spec fn translate(self, dirbase: u64, address: u64) -> u64 {
        let pml4_base = dirbase & !0xfu64;
        let page_offset = address & 0xfff;
        let pml4i = (address >> 39) & 0x1ff;
        let pdpti = (address >> 30) & 0x1ff;
        let pdi = (address >> 21) & 0x1ff;
        let pti = (address >> 12) & 0x1ff;
        let pdpte = self.entry_at(pml4_base + 8 * pml4i);
        if pdpte & 1 == 0 {
            0
        } else {
            let pde = self.entry_at((pdpte & PMASK) + 8 * pdpti);
            if pde & 1 == 0 {
                0
            } else if pde & 0x80 != 0 {
                ((pde & GIB_PAGE_MASK) + (address & 0x3fff_ffff)) as u64
            } else {
                let pte = self.entry_at((pde & PMASK) + 8 * pdi);
                if pte & 1 == 0 {
                    0
                } else if pte & 0x80 != 0 {
                    ((pte & PMASK) + (address & 0x1f_ffff)) as u64
                } else {
                    let last = self.entry_at((pte & PMASK) + 8 * pti) & PMASK;
                    if last == 0 {
                        0
                    } else {
                        (last + page_offset) as u64
                    }
                }
            }
        }
    }

    /// An address that is mapped keeps its place in its page: the physical
    /// address has the low twelve bits of the virtual one. So what lies in
    /// one page of the address space lies in one page of memory.
    pub proof fn lemma_translate_keeps_page_offset(self, dirbase: u64, address: u64)
        requires
            self.translate(dirbase, address) != 0,
        ensures
            self.translate(dirbase, address) & 0xfff == address & 0xfff,
    {
        let pml4_base = dirbase & !0xfu64;
        let pdpte = self.entry_at(pml4_base + 8 * ((address >> 39) & 0x1ff));
        let pde = self.entry_at((pdpte & PMASK) + 8 * ((address >> 30) & 0x1ff));
        let pte = self.entry_at((pde & PMASK) + 8 * ((address >> 21) & 0x1ff));
        let entry = self.entry_at((pte & PMASK) + 8 * ((address >> 12) & 0x1ff));
        lemma_page_offset_kept(pde, address);
        lemma_page_offset_kept(pte, address);
        lemma_page_offset_kept(entry, address);
        lemma_page_offset_kept(entry & PMASK, address);
        assert((entry & PMASK) & 0xf_ffff_f000 == entry & PMASK) by (bit_vector)
            requires
                PMASK == 0xf_ffff_f000,
        ;
    }

    /// Where an address is mapped, so is every address of its page, and to
    /// the same place in the same page of memory: the two physical addresses
    /// differ as the low twelve bits of the virtual addresses do.
    pub proof fn lemma_translate_same_page(self, dirbase: u64, a: u64, b: u64)
        requires
            a >> 12 == b >> 12,
            self.translate(dirbase, a) != 0,
        ensures
            self.translate(dirbase, b) == self.translate(dirbase, a) - (a & 0xfff) + (b & 0xfff),
    {
        let pml4_base = dirbase & !0xfu64;
        let pdpte = self.entry_at(pml4_base + 8 * ((a >> 39) & 0x1ff));
        let pde = self.entry_at((pdpte & PMASK) + 8 * ((a >> 30) & 0x1ff));
        let pte = self.entry_at((pde & PMASK) + 8 * ((a >> 21) & 0x1ff));
        let entry = self.entry_at((pte & PMASK) + 8 * ((a >> 12) & 0x1ff));
        lemma_same_page(a, b);
        lemma_page_offset_kept(pde, a);
        lemma_page_offset_kept(pde, b);
        lemma_page_offset_kept(pte, a);
        lemma_page_offset_kept(pte, b);
        lemma_page_offset_kept(entry & PMASK, a);
        lemma_page_offset_kept(entry & PMASK, b);
        assert((entry & PMASK) & 0xf_ffff_f000 == entry & PMASK) by (bit_vector)
            requires
                PMASK == 0xf_ffff_f000,
        ;
    }

    /// What a virtual read of `n` bytes that lie in one page yields: one
    /// translation and one physical read, or zeros where either fails.
    pub open spec fn vchunk(self, dirbase: u64, address: u64, n: int) -> Seq<u8> {
        let gpa = self.translate(dirbase, address);
        if gpa == 0 {
            zeros(n)
        } else {
            self.read_or_zeros(gpa, n)
        }
    }

    /// What a virtual read of `len` bytes at `address` yields: the range is cut
    /// at every page boundary and each piece is translated by itself. Past the
    /// end of the address space there is nothing but zeros.
    pub open spec fn vbytes(self, dirbase: u64, address: int, len: int) -> Seq<u8>
        decreases len,
    {
        if len <= 0 {
            Seq::empty()
        } else if address > u64::MAX {
            zeros(len)
        } else {
            let n = if len < page_room(address) {
                len
            } else {
                page_room(address)
            };
            self.vchunk(dirbase, address as u64, n) + self.vbytes(dirbase, address + n, len - n)
        }
    }

    /// The memory after a virtual write of `data` at `address`: the range is cut
    /// at every page boundary, each piece is translated by itself, in the memory
    /// as the pieces before it left it, and written where it maps to. A piece
    /// that is not mapped, or that does not lie in the window, is dropped.
    pub open spec fn after_vwrite(self, dirbase: u64, address: int, data: Seq<u8>) -> PhysMem
        decreases data.len(),
    {
        if data.len() == 0 || address > u64::MAX {
            self
        } else {
            let n = if data.len() < page_room(address) {
                data.len() as int
            } else {
                page_room(address)
            };
            let gpa = self.translate(dirbase, address as u64);
            let next = if gpa == 0 {
                self
            } else {
                self.after_write(gpa, data.take(n))
            };
            next.after_vwrite(dirbase, address + n, data.skip(n))
        }
    }

    /// The copies that a virtual write of `data` at `address` makes into the
    /// window, in their order: one for every piece that is mapped and lies in
    /// the window. `data` is what is left of a payload behind its first `done`
    /// bytes, so the copies say where in that payload their bytes come from.
    pub open spec fn vwrite_stores(self, dirbase: u64, address: int, data: Seq<u8>, done: int) -> Seq<
        WriteStore,
    >
        decreases data.len(),
    {
        if data.len() == 0 || address > u64::MAX {
            Seq::empty()
        } else {
            let n = if data.len() < page_room(address) {
                data.len() as int
            } else {
                page_room(address)
            };
            let gpa = self.translate(dirbase, address as u64);
            let here = if gpa != 0 && self.in_range(gpa, n) {
                seq![
                    WriteStore {
                        window_offset: self.offset_of(gpa as int) as u64,
                        payload_offset: done as u64,
                        len: n as u64,
                    },
                ]
            } else {
                Seq::empty()
            };
            let next = if gpa == 0 {
                self
            } else {
                self.after_write(gpa, data.take(n))
            };
            here + next.vwrite_stores(dirbase, address + n, data.skip(n), done + n)
        }
    }

    /// The memory after a virtual write is the memory before with the copies
    /// of the write made into it.
    pub proof fn lemma_vwrite_stores(self, dirbase: u64, address: int, payload: Seq<u8>, done: int)
        requires
            self.wf(),
            self.bytes.len() <= u64::MAX,
            payload.len() <= u64::MAX,
            0 <= address,
            0 <= done <= payload.len(),
        ensures
            self.after_vwrite(dirbase, address, payload.skip(done)).bytes == apply_stores(
                self.bytes,
                self.vwrite_stores(dirbase, address, payload.skip(done), done),
                payload,
            ),
        decreases payload.len() - done,
    {
        let data = payload.skip(done);
        if data.len() == 0 || address > u64::MAX {
        } else {
            let n = if data.len() < page_room(address) {
                data.len() as int
            } else {
                page_room(address)
            };
            let gpa = self.translate(dirbase, address as u64);
            let next = if gpa == 0 {
                self
            } else {
                self.after_write(gpa, data.take(n))
            };
            let store = WriteStore {
                window_offset: self.offset_of(gpa as int) as u64,
                payload_offset: done as u64,
                len: n as u64,
            };
            let here = if gpa != 0 && self.in_range(gpa, n) {
                seq![store]
            } else {
                Seq::empty()
            };
            let rest = next.vwrite_stores(dirbase, address + n, data.skip(n), done + n);
            let piece = data.take(n);
            assert(data.skip(n) =~= payload.skip(done + n));
            assert(piece =~= payload.subrange(done, done + n));
            assert(0 < n <= 0x1000);
            assert(chunk_count(n) == 1);
            if gpa != 0 && self.in_range(gpa, n) {
                assert(self.chunk_fits(gpa, n, 0));
                assert(here.drop_last() =~= Seq::<WriteStore>::empty());
                assert(self.after_chunks(gpa, piece, 0) == self.bytes);
                assert(piece.subrange(0, n) =~= piece);
                assert(next.bytes == self.after_chunks(gpa, piece, 1));
                assert(store.window_offset == self.offset_of(gpa as int));
                assert(apply_stores(self.bytes, here.drop_last(), payload) == self.bytes);
                assert(apply_stores(self.bytes, here, payload) == next.bytes);
            } else {
                assert(next == self);
            }
            assert(next.bytes.len() == self.bytes.len());
            next.lemma_vwrite_stores(dirbase, address + n, payload, done + n);
            lemma_apply_stores_concat(self.bytes, here, rest, payload);
        }
    }

    /// The byte at physical address `gpa`; zero where it cannot be read.
    pub open spec fn byte_at(self, gpa: int) -> u8 {
        if gpa <= u64::MAX {
            self.read_or_zeros(gpa as u64, 1)[0]
        } else {
            0
        }
    }

    /// The bytes of the string at physical address `addr`, of which `taken`
    /// bytes were read before `addr`: they end before the first zero byte, and
    /// with `maxlen` there are no more than `maxlen` of them in all.
    pub open spec fn cstring(self, addr: int, maxlen: Option<u64>, taken: int) -> Seq<u8>
        decreases u64::MAX + 1 - addr,
    {
        if addr > u64::MAX || (maxlen is Some && taken >= maxlen.unwrap()) || self.byte_at(addr)
            == 0 {
            Seq::empty()
        } else {
            seq![self.byte_at(addr)] + self.cstring(addr + 1, maxlen, taken + 1)
        }
    }

    /// A string is the bytes of memory from its address on, holds no zero
    /// byte, and is no longer than its limit allows. It ends where its limit
    /// is reached, before a zero byte, or with the address space.
    pub proof fn lemma_cstring(self, addr: int, maxlen: Option<u64>, taken: int)
        requires
            0 <= addr,
            0 <= taken,
        ensures
            forall|i: int|
                0 <= i < self.cstring(addr, maxlen, taken).len() ==> #[trigger] self.cstring(
                    addr,
                    maxlen,
                    taken,
                )[i] == self.byte_at(addr + i) && self.byte_at(addr + i) != 0,
            maxlen is Some && taken <= maxlen.unwrap() ==> taken + self.cstring(
                addr,
                maxlen,
                taken,
            ).len() <= maxlen.unwrap(),
            ({
                let n = self.cstring(addr, maxlen, taken).len();
                addr + n > u64::MAX || (maxlen is Some && taken + n >= maxlen.unwrap())
                    || self.byte_at(addr + n) == 0
            }),
        decreases u64::MAX + 1 - addr,
    {
        let here = self.cstring(addr, maxlen, taken);
        if here.len() > 0 {
            self.lemma_cstring(addr + 1, maxlen, taken + 1);
            let rest = self.cstring(addr + 1, maxlen, taken + 1);
            assert(here == seq![self.byte_at(addr)] + rest);
            assert forall|i: int| 0 <= i < here.len() implies #[trigger] here[i] == self.byte_at(
                addr + i,
            ) && self.byte_at(addr + i) != 0 by {
                if i > 0 {
                    assert(here[i] == rest[i - 1]);
                }
            }
        }
    }

    /// A virtual read yields as many bytes as were asked for.
    pub proof fn lemma_vbytes_len(self, dirbase: u64, address: int, len: int)
        requires
            0 <= address,
            0 <= len,
        ensures
            self.vbytes(dirbase, address, len).len() == len,
        decreases len,
    {
        if len > 0 && address <= u64::MAX {
            let n = if len < page_room(address) {
                len
            } else {
                page_room(address)
            };
            self.lemma_vbytes_len(dirbase, address + n, len - n);
        }
    }

    /// A virtual read that stays inside one page is one translation and one
    /// physical read.
    pub proof fn lemma_vbytes_one_page(self, dirbase: u64, address: u64, len: int)
        requires
            0 <= len,
            address % 0x1000 + len <= 0x1000,
        ensures
            self.vbytes(dirbase, address as int, len) == self.vchunk(dirbase, address, len),
            self.vbytes(dirbase, address as int, len).len() == len,
    {
        if len > 0 {
            assert(self.vbytes(dirbase, address + len, 0) == Seq::<u8>::empty());
            assert(self.vchunk(dirbase, address, len) + Seq::<u8>::empty() =~= self.vchunk(
                dirbase,
                address,
                len,
            ));
        } else {
            assert(self.vchunk(dirbase, address, len) =~= Seq::<u8>::empty());
        }
    }

    /// Byte by byte, a virtual read that stays inside one page whose start is
    /// mapped into the window yields the byte at the translation of each
    /// address: the bytes lie side by side in the window as the addresses do
    /// in the page.
    pub proof fn lemma_vbytes_byte(self, dirbase: u64, address: u64, len: int, j: int)
        requires
            0 <= j < len,
            address % 0x1000 + len <= 0x1000,
            self.translate(dirbase, address) != 0,
            self.in_range(self.translate(dirbase, address), len),
        ensures
            address + j <= u64::MAX,
            self.translate(dirbase, (address + j) as u64) == self.translate(dirbase, address) + j,
            self.vbytes(dirbase, address as int, len)[j] == self.bytes[self.offset_of(
                self.translate(dirbase, address) as int,
            ) + j],
    {
        self.lemma_vbytes_one_page(dirbase, address, len);
        lemma_inside_page(address, j as u64);
        self.lemma_translate_same_page(dirbase, address, (address + j) as u64);
        let gpa = self.translate(dirbase, address);
        assert(self.bytes_at(gpa, len)[j] == self.bytes[self.byte_offset(gpa, j)]);
        assert(j / 0x1000 == 0);
    }

    /// A virtual read that crosses a page boundary is cut there: the piece up
    /// to the boundary is read by itself, the rest starts on the next page, and
    /// the pieces together are as long as the request.
    pub proof fn lemma_vbytes_split(self, dirbase: u64, address: u64, len: int)
        requires
            address % 0x1000 + len > 0x1000,
        ensures
            self.vbytes(dirbase, address as int, len) == self.vchunk(
                dirbase,
                address,
                page_room(address as int),
            ) + self.vbytes(
                dirbase,
                address + page_room(address as int),
                len - page_room(address as int),
            ),
            (address + page_room(address as int)) % 0x1000 == 0,
            self.vbytes(dirbase, address as int, len).len() == len,
    {
        self.lemma_vbytes_len(dirbase, address as int, len);
    }
}

/// Adding what is left of an address inside a page, large or small, to the
/// base of the page keeps the low twelve bits of the address.
proof fn lemma_page_offset_kept(entry: u64, address: u64)
    by (bit_vector)
    ensures
        (((entry & 0x000f_ffff_c000_0000) + (address & 0x3fff_ffff)) as u64) & 0xfff == address
            & 0xfff,
        (((entry & 0xf_ffff_f000) + (address & 0x1f_ffff)) as u64) & 0xfff == address & 0xfff,
        (((entry & 0xf_ffff_f000) + (address & 0xfff)) as u64) & 0xfff == address & 0xfff,
        (entry & 0x000f_ffff_c000_0000) + (address & 0x3fff_ffff) <= 0xffff_ffff_ffff_ffff,
        (entry & 0xf_ffff_f000) + (address & 0x1f_ffff) <= 0xffff_ffff_ffff_ffff,
        (entry & 0xf_ffff_f000) + (address & 0xfff) <= 0xffff_ffff_ffff_ffff,
{
}

/// The page walk cuts two addresses of one page into the same indices, and
/// what is left of them inside a page, large or small, differs only in the
/// low twelve bits.
proof fn lemma_same_page(a: u64, b: u64)
    by (bit_vector)
    requires
        a >> 12 == b >> 12,
    ensures
        (a >> 39) & 0x1ff == (b >> 39) & 0x1ff,
        (a >> 30) & 0x1ff == (b >> 30) & 0x1ff,
        (a >> 21) & 0x1ff == (b >> 21) & 0x1ff,
        (a >> 12) & 0x1ff == (b >> 12) & 0x1ff,
        a & 0x3fff_f000 == b & 0x3fff_f000,
        a & 0x1f_f000 == b & 0x1f_f000,
        a & 0x3fff_ffff == (a & 0x3fff_f000) + (a & 0xfff),
        b & 0x3fff_ffff == (b & 0x3fff_f000) + (b & 0xfff),
        a & 0x1f_ffff == (a & 0x1f_f000) + (a & 0xfff),
        b & 0x1f_ffff == (b & 0x1f_f000) + (b & 0xfff),
{
}

/// An address and one that lies `j` bytes behind it in its page are on one
/// page, `j` apart in it.
proof fn lemma_inside_page(a: u64, j: u64)
    by (bit_vector)
    requires
        a % 0x1000 + j < 0x1000,
        j < 0x1000,
    ensures
        a + j <= 0xffff_ffff_ffff_ffff,
        ((a + j) as u64) >> 12 == a >> 12,
        ((a + j) as u64) & 0xfff == (a & 0xfff) + j,
{
}

/// Facts about the pieces that the page walk cuts an address and an entry into.
proof fn lemma_walk_bounds(address: u64, entry: u64)
    by (bit_vector)
    ensures
        (address >> 39) & 0x1ff <= 0x1ff,
        (address >> 30) & 0x1ff <= 0x1ff,
        (address >> 21) & 0x1ff <= 0x1ff,
        (address >> 12) & 0x1ff <= 0x1ff,
        address & 0xfff <= 0xfff,
        address & 0x3fff_ffff <= 0x3fff_ffff,
        address & 0x1f_ffff <= 0x1f_ffff,
        entry & 0xf_ffff_f000 <= 0xf_ffff_f000,
        entry & 0x000f_ffff_c000_0000 <= 0x000f_ffff_c000_0000,
{
}

/// A vector of `n` zero bytes.
fn zero_bytes(n: u64) -> (v: Vec<u8>)
    ensures
        v@ == zeros(n as int),
{
    if n <= usize::MAX as u64 {
        let v = vec![0u8; n as usize];
        assert(v@ =~= zeros(n as int));
        return v;
    }
    let mut v: Vec<u8> = Vec::new();
    let mut i: u64 = 0;
    while i < n
        invariant
            i <= n,
            v@ == zeros(i as int),
        decreases n - i,
    {
        v.push(0u8);
        i = i + 1;
        assert(v@ =~= zeros(i as int));
    }
    v
}

impl VMBinding {
    /// Reads `len` bytes of guest physical memory at `address`. A range that
    /// does not lie in the window reads as zeros.
    pub fn readvec(&self, address: u64, len: u64) -> (r: Vec<u8>)
        ensures
            r@ == self.mem@.read_or_zeros(address, len as int),
    {
        match self.mem.read_bytes(address, len) {
            Some(v) => v,
            None => zero_bytes(len),
        }
    }

    /// Reads a value of type `T` from guest physical memory at `address`.
    pub fn read<T: Pod>(&self, address: u64) -> (r: T)
        ensures
            r == decoded::<T>(self.mem@.read_or_zeros(address, T::size_of() as int)),
            T::decodes(self.mem@.read_or_zeros(address, T::size_of() as int), r),
    {
        let bytes = self.readvec(address, T::size() as u64);
        let r = T::from_bytes(bytes.as_slice());
        proof {
            lemma_decoded::<T>(bytes@, r);
        }
        r
    }

    /// Reads entry `index` of the page table at physical address `base`.
    fn read_entry(&self, base: u64, index: u64) -> (r: u64)
        requires
            index <= 0x1ff,
        ensures
            r == self.mem@.entry_at(base + 8 * index),
    {
        match base.checked_add(8 * index) {
            Some(gpa) => self.read::<u64>(gpa),
            None => 0,
        }
    }

    /// Walks the four levels of page tables rooted at `dirbase` and returns the
    /// guest physical address that `address` maps to, or zero if an entry on
    /// the way is not present. 1 GiB and 2 MiB pages end the walk early.
    pub fn native_translate(&self, dirbase: u64, address: u64) -> (r: u64)
        ensures
            r == self.mem@.translate(dirbase, address),
    {
        let pml4_base = dirbase & !0xfu64;
        let page_offset = address & 0xfff;
        let pml4i = (address >> 39) & 0x1ff;
        let pdpti = (address >> 30) & 0x1ff;
        let pdi = (address >> 21) & 0x1ff;
        let pti = (address >> 12) & 0x1ff;
        proof {
            lemma_walk_bounds(address, 0);
        }
        let pdpte = self.read_entry(pml4_base, pml4i);
        if pdpte & 1 == 0 {
            return 0;
        }
        proof {
            lemma_walk_bounds(address, pdpte);
        }
        let pde = self.read_entry(pdpte & PMASK, pdpti);
        if pde & 1 == 0 {
            return 0;
        }
        proof {
            lemma_walk_bounds(address, pde);
        }
        if pde & 0x80 != 0 {
            return (pde & GIB_PAGE_MASK) + (address & 0x3fff_ffff);
        }
        let pte = self.read_entry(pde & PMASK, pdi);
        if pte & 1 == 0 {
            return 0;
        }
        proof {
            lemma_walk_bounds(address, pte);
        }
        if pte & 0x80 != 0 {
            return (pte & PMASK) + (address & 0x1f_ffff);
        }
        let entry = self.read_entry(pte & PMASK, pti);
        let last = entry & PMASK;
        proof {
            lemma_walk_bounds(address, entry);
        }
        if last == 0 {
            return 0;
        }
        last + page_offset
    }

    /// Reads `len` bytes at the virtual address `address` of the address space
    /// rooted at `dirbase`. The range is cut at every page boundary and every
    /// piece is translated by itself; a piece that is not mapped, or that does
    /// not lie in the window, reads as zeros.
    pub fn vreadvec(&self, dirbase: u64, address: u64, len: u64) -> (r: Vec<u8>)
        ensures
            r@ == self.mem@.vbytes(dirbase, address as int, len as int),
            r@.len() == len,
    {
        let mut out: Vec<u8> = Vec::new();
        let mut done: u64 = 0;
        while done < len
            invariant
                done <= len,
                out@ + self.mem@.vbytes(dirbase, address + done, len - done) == self.mem@.vbytes(
                    dirbase,
                    address as int,
                    len as int,
                ),
            decreases len - done,
        {
            let ghost rest = self.mem@.vbytes(dirbase, address + done, len - done);
            let mut piece: Vec<u8>;
            let n: u64;
            match address.checked_add(done) {
                None => {
                    n = len - done;
                    piece = zero_bytes(n);
                    assert(self.mem@.vbytes(dirbase, address + done + n, 0) == Seq::<u8>::empty());
                    assert(rest =~= piece@ + Seq::<u8>::empty());
                },
                Some(va) => {
                    let room: u64 = STEP_SIZE - va % STEP_SIZE;
                    n = if len - done < room {
                        len - done
                    } else {
                        room
                    };
                    let gpa = self.native_translate(dirbase, va);
                    piece = if gpa == 0 {
                        zero_bytes(n)
                    } else {
                        self.readvec(gpa, n)
                    };
                    assert(piece@ == self.mem@.vchunk(dirbase, va, n as int));
                },
            }
            let ghost before = out@;
            let ghost chunk = piece@;
            out.append(&mut piece);
            done = done + n;
            proof {
                let after = self.mem@.vbytes(dirbase, address + done, len - done);
                assert(rest == chunk + after);
                assert((before + chunk) + after =~= before + (chunk + after));
            }
        }
        proof {
            assert(self.mem@.vbytes(dirbase, address + len, 0) == Seq::<u8>::empty());
            assert(out@ + Seq::<u8>::empty() =~= out@);
            self.mem@.lemma_vbytes_len(dirbase, address as int, len as int);
        }
        out
    }

    /// Reads a value of type `T` at the virtual address `address` of the
    /// address space rooted at `dirbase`.
    pub fn vread<T: Pod>(&self, dirbase: u64, address: u64) -> (r: T)
        ensures
            r == decoded::<T>(self.mem@.vbytes(dirbase, address as int, T::size_of() as int)),
            T::decodes(self.mem@.vbytes(dirbase, address as int, T::size_of() as int), r),
    {
        let bytes = self.vreadvec(dirbase, address, T::size() as u64);
        let r = T::from_bytes(bytes.as_slice());
        proof {
            lemma_decoded::<T>(bytes@, r);
        }
        r
    }

    /// Reads the string at physical address `addr` one byte at a time, up to
    /// the first zero byte, and no more than `maxlen` bytes of it. Each byte
    /// becomes the character with its code point.
    pub fn read_cstring_from_physical_mem(&self, addr: u64, maxlen: Option<u64>) -> (r: String)
        ensures
            r@ == latin1(self.mem@.cstring(addr as int, maxlen, 0)),
            maxlen is Some ==> r@.len() <= maxlen.unwrap(),
    {
        let mut out: Vec<u8> = Vec::new();
        let mut len: u64 = 0;
        loop
            invariant_except_break
                out@ + self.mem@.cstring(addr + len, maxlen, len as int) == self.mem@.cstring(
                    addr as int,
                    maxlen,
                    0,
                ),
            ensures
                out@ == self.mem@.cstring(addr as int, maxlen, 0),
            decreases u64::MAX + 1 - addr - len,
        {
            let ghost rest = self.mem@.cstring(addr + len, maxlen, len as int);
            let at_limit = match maxlen {
                Some(max) => len >= max,
                None => false,
            };
            if at_limit {
                assert(out@ + rest =~= out@);
                break ;
            }
            let va: u64 = match addr.checked_add(len) {
                Some(va) => va,
                None => {
                    assert(out@ + rest =~= out@);
                    break ;
                },
            };
            let val: u8 = self.read::<u8>(va);
            if val == 0 {
                assert(out@ + rest =~= out@);
                break ;
            }
            let ghost before = out@;
            out.push(val);
            if va == u64::MAX {
                proof {
                    assert(self.mem@.cstring(addr + len + 1, maxlen, len + 1) == Seq::<
                        u8,
                    >::empty());
                    assert(rest =~= seq![val]);
                    assert(out@ =~= before + rest);
                }
                break ;
            }
            len = len + 1;
            proof {
                let after = self.mem@.cstring(addr + len, maxlen, len as int);
                assert(rest == seq![val] + after);
                assert(out@ + after =~= before + (seq![val] + after));
            }
        }
        proof {
            self.mem@.lemma_cstring(addr as int, maxlen, 0);
        }
        latin1_string(out.as_slice())
    }

    /// Writes `payload` to the virtual address `address` of the address space
    /// rooted at `dirbase`. The range is cut at every page boundary and every
    /// piece is translated by itself; a piece that is not mapped, or that does
    /// not lie in the window, is dropped. The copies that were made into the
    /// window are handed back.
    pub fn vwrite(&mut self, dirbase: u64, address: u64, payload: &[u8]) -> (stores: Vec<WriteStore>)
        ensures
            final(self).mem@ == old(self).mem@.after_vwrite(dirbase, address as int, payload@),
            stores@ == old(self).mem@.vwrite_stores(dirbase, address as int, payload@, 0),
            final(self).same_metadata(*old(self)),
    {
        let len: u64 = payload.len() as u64;
        let mut stores: Vec<WriteStore> = Vec::new();
        let mut done: u64 = 0;
        assert(payload@.skip(0) =~= payload@);
        while done < len
            invariant
                done <= len,
                len == payload.len(),
                self.same_metadata(*old(self)),
                self.mem@.after_vwrite(dirbase, address + done, payload@.skip(done as int)) == old(
                    self,
                ).mem@.after_vwrite(dirbase, address as int, payload@),
                stores@ + self.mem@.vwrite_stores(
                    dirbase,
                    address + done,
                    payload@.skip(done as int),
                    done as int,
                ) == old(self).mem@.vwrite_stores(dirbase, address as int, payload@, 0),
            decreases len - done,
        {
            let ghost rest = payload@.skip(done as int);
            let ghost left = self.mem@.vwrite_stores(dirbase, address + done, rest, done as int);
            match address.checked_add(done) {
                None => {
                    proof {
                        assert(self.mem@.after_vwrite(
                            dirbase,
                            address + len,
                            payload@.skip(len as int),
                        ) == self.mem@);
                        assert(left == Seq::<WriteStore>::empty());
                        assert(self.mem@.vwrite_stores(
                            dirbase,
                            address + len,
                            payload@.skip(len as int),
                            len as int,
                        ) == Seq::<WriteStore>::empty());
                    }
                    done = len;
                },
                Some(va) => {
                    let room: u64 = STEP_SIZE - va % STEP_SIZE;
                    let n: u64 = if len - done < room {
                        len - done
                    } else {
                        room
                    };
                    let gpa = self.native_translate(dirbase, va);
                    let ghost before = stores@;
                    let ghost mem_before = self.mem@;
                    if gpa != 0 {
                        let piece = slice_subrange(payload, done as usize, (done + n) as usize);
                        assert(piece@ =~= rest.take(n as int));
                        let window_offset = self.mem.fixup(gpa);
                        if self.mem.write_bytes(gpa, piece) {
                            stores.push(WriteStore { window_offset, payload_offset: done, len: n });
                        }
                    }
                    done = done + n;
                    proof {
                        assert(rest.skip(n as int) =~= payload@.skip(done as int));
                        let after = self.mem@.vwrite_stores(
                            dirbase,
                            address + done,
                            payload@.skip(done as int),
                            done as int,
                        );
                        let here = if gpa != 0 && mem_before.in_range(gpa, n as int) {
                            seq![
                                WriteStore {
                                    window_offset: mem_before.offset_of(gpa as int) as u64,
                                    payload_offset: (done - n) as u64,
                                    len: n,
                                },
                            ]
                        } else {
                            Seq::empty()
                        };
                        assert(left == here + after);
                        assert(stores@ =~= before + here);
                        assert(stores@ + after =~= before + (here + after));
                    }
                },
            }
        }
        assert(payload@.skip(len as int).len() == 0);
        assert(stores@ + Seq::<WriteStore>::empty() =~= stores@);
        stores
    }

    /// Writes code to the virtual address `va` of the address space rooted at
    /// `dtb`, as `vwrite` writes any bytes.
    pub fn write_shellcode(&mut self, dtb: u64, va: u64, bytes: &[u8]) -> (stores: Vec<WriteStore>)
        ensures
            final(self).mem@ == old(self).mem@.after_vwrite(dtb, va as int, bytes@),
            stores@ == old(self).mem@.vwrite_stores(dtb, va as int, bytes@, 0),
            final(self).same_metadata(*old(self)),
    {
        self.vwrite(dtb, va, bytes)
    }

    /// Writes `payload` to guest physical memory at `address`. `false` if the
    /// range does not lie in the window.
    pub fn write(&mut self, address: u64, payload: &[u8]) -> (ok: bool)
        ensures
            ok <==> old(self).mem@.in_range(address, payload@.len() as int),
            final(self).mem@ == old(self).mem@.after_write(address, payload@),
            final(self).same_metadata(*old(self)),
    {
        self.mem.write_bytes(address, payload)
    }
}

} // verus!
