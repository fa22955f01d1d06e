//! Counted strings of 16-bit units, as the kernel and the loader keep names.

use crate::bytes::{get_u16, get_u64, u16_at, u16s_at, u64_at, Pod};
use crate::vm::binding_core::PhysMem;
use crate::vm::VMBinding;
use vstd::prelude::*;
use vstd::string::StringExecFns;

verus! {

/// The text that the UTF-16 units `units` decode to, every ill-formed sequence
/// being replaced by U+FFFD.
pub uninterp spec fn utf16_lossy(units: Seq<u16>) -> Seq<char>;

/// `widestring::U16String::from_vec` followed by `U16String::to_string_lossy`:
/// takes the units as UTF-16 and decodes them, replacing what is ill-formed.
/// The result depends on the units alone.
#[verifier::external_body]
pub(crate) fn decode_utf16_lossy(units: Vec<u16>) -> (s: String)
    ensures
        s@ == utf16_lossy(units@),
{
    widestring::U16String::from_vec(units).to_string_lossy()
}

/// Reads `count` 16-bit units from the start of `b`.
pub fn units_from_bytes(b: &[u8], count: usize) -> (units: Vec<u16>)
    requires
        2 * count <= b@.len(),
    ensures
        units@ == u16s_at(b@, 0, count as int),
{
    let mut units: Vec<u16> = Vec::new();
    let mut i: usize = 0;
    while i < count
        invariant
            i <= count,
            2 * count <= b.len(),
            units@ == u16s_at(b@, 0, i as int),
        decreases count - i,
    {
        units.push(get_u16(b, 2 * i));
        i = i + 1;
        assert(units@ =~= u16s_at(b@, 0, i as int));
    }
    units
}

/// A counted string in guest memory: its length in bytes, the size of its
/// buffer, and the address of the buffer.
#[derive(Clone, Copy, Debug)]
pub struct UnicodeString {
    /// Length of the text in bytes.
    pub length: u16,
    /// Size of the buffer in bytes.
    pub maximum_length: u16,
    /// Address of the 16-bit units.
    pub buffer: u64,
}

impl Pod for UnicodeString {
    open spec fn size_of() -> nat {
        0x10
    }

    open spec fn decodes(b: Seq<u8>, v: Self) -> bool {
        &&& v.length == u16_at(b, 0)
        &&& v.maximum_length == u16_at(b, 2)
        &&& v.buffer == u64_at(b, 8)
    }

    proof fn lemma_decodes_unique(b: Seq<u8>, v: Self, w: Self) {
    }

    fn size() -> (n: usize) {
        0x10
    }

    fn from_bytes(b: &[u8]) -> (v: Self) {
        UnicodeString { length: get_u16(b, 0), maximum_length: get_u16(b, 2), buffer: get_u64(b, 8) }
    }
}

impl UnicodeString {
    /// Whether the string is all ones, as a record read from unmapped memory is.
    pub open spec fn spec_looks_invalid(&self) -> bool {
        self.length == 0xFFFF && self.buffer == 0xFFFF_FFFF_FFFF_FFFF
    }

    /// Whether the string is all ones, as a record read from unmapped memory is.
    #[verifier::when_used_as_spec(spec_looks_invalid)]
    pub fn looks_invalid(&self) -> (r: bool)
        ensures
            r == self.spec_looks_invalid(),
    {
        self.length == 0xFFFF && self.buffer == 0xFFFF_FFFF_FFFF_FFFF
    }

    /// Number of bytes that `resolve` reads: the length, capped by `max_len`.
    pub open spec fn read_len(&self, max_len: Option<u16>) -> u16 {
        match max_len {
            Some(l) => if l < self.length {
                l
            } else {
                self.length
            },
            None => self.length,
        }
    }

    /// The bytes that `resolve` reads: from the buffer, in the address space
    /// `dirbase` or, without one, in physical memory.
    pub open spec fn raw(&self, mem: PhysMem, dirbase: Option<u64>, max_len: Option<u16>) -> Seq<u8> {
        match dirbase {
            Some(d) => mem.vbytes(d, self.buffer as int, self.read_len(max_len) as int),
            None => mem.read_or_zeros(self.buffer, self.read_len(max_len) as int),
        }
    }

    /// The text of the string: its bytes, at most `max_len` of them, taken two
    /// by two as UTF-16; a last odd byte is left out. A string that looks
    /// invalid is not read and gives a fixed text instead.
    pub open spec fn text(&self, mem: PhysMem, dirbase: Option<u64>, max_len: Option<u16>) -> Seq<
        char,
    > {
        if self.looks_invalid() {
            "<UNABLE_TO_READ_LOOKS_INVALID>"@
        } else {
            utf16_lossy(
                u16s_at(self.raw(mem, dirbase, max_len), 0, self.read_len(max_len) as int / 2),
            )
        }
    }

    /// Reads the text of the string. The result is never `None`.
    pub fn resolve(&self, vm: &VMBinding, dirbase: Option<u64>, max_len: Option<u16>) -> (r: Option<
        String,
    >)
        ensures
            r is Some,
            r.unwrap()@ == self.text(vm.mem@, dirbase, max_len),
    {
        if self.looks_invalid() {
            return Some(String::from_str("<UNABLE_TO_READ_LOOKS_INVALID>"));
        }
        let readlen: u16 = match max_len {
            Some(l) => if l < self.length {
                l
            } else {
                self.length
            },
            None => self.length,
        };
        let data = match dirbase {
            Some(dbase) => vm.vreadvec(dbase, self.buffer, readlen as u64),
            None => vm.readvec(self.buffer, readlen as u64),
        };
        let units = units_from_bytes(data.as_slice(), (readlen / 2) as usize);
        Some(decode_utf16_lossy(units))
    }
}

} // verus!
