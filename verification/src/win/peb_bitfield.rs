//! The flag byte of a process environment block.

use crate::bytes::{get_u8, Pod};
use crate::text::push_char;
use vstd::prelude::*;

verus! {

/// The flags of a process environment block, one by one.
#[allow(non_snake_case)]
#[derive(Debug, Copy, Clone, PartialEq, Eq, Structural)]
pub struct PEBBitfieldReading {
    /// Bit 0.
    pub ImageUsesLargePages: bool,
    /// Bit 1.
    pub IsProtectedProcess: bool,
    /// Bit 2.
    pub IsLegacyProcess: bool,
    /// Bit 3.
    pub IsImageDynamicallyRelocated: bool,
    /// Bit 4.
    pub SkipPatchingUser32Forwarders: bool,
    /// Bit 5.
    pub SpareBit0: bool,
    /// Bit 6.
    pub SpareBit1: bool,
    /// Bit 7.
    pub SpareBit2: bool,
}

/// The flags of a process environment block, as the byte that holds them.
#[derive(Copy, Clone, Debug)]
pub struct PEBBitfield(pub u8);

/// Whether bit `i` of `b` is set, bit 0 being the least significant.
pub open spec fn bit_set(b: u8, i: int) -> bool {
    (b >> (i as u8)) & 1 == 1
}

impl PEBBitfield {
    /// The flags that the byte holds: bit 0 is the first.
    pub open spec fn reading(&self) -> PEBBitfieldReading {
        PEBBitfieldReading {
            ImageUsesLargePages: bit_set(self.0, 0),
            IsProtectedProcess: bit_set(self.0, 1),
            IsLegacyProcess: bit_set(self.0, 2),
            IsImageDynamicallyRelocated: bit_set(self.0, 3),
            SkipPatchingUser32Forwarders: bit_set(self.0, 4),
            SpareBit0: bit_set(self.0, 5),
            SpareBit1: bit_set(self.0, 6),
            SpareBit2: bit_set(self.0, 7),
        }
    }

    /// The eight digits of the byte, the least significant first.
    pub open spec fn bitstr(&self) -> Seq<char> {
        Seq::new(
            8,
            |i: int|
                if bit_set(self.0, i) {
                    '1'
                } else {
                    '0'
                },
        )
    }

    /// The flags that the byte holds. There are always eight digits to read
    /// them from, so the result is never `None`.
    pub fn interpret(&self) -> (r: Option<PEBBitfieldReading>)
        ensures
            r == Some(self.reading()),
    {
        Some(
            PEBBitfieldReading {
                ImageUsesLargePages: (self.0 >> 0u8) & 1 == 1,
                IsProtectedProcess: (self.0 >> 1u8) & 1 == 1,
                IsLegacyProcess: (self.0 >> 2u8) & 1 == 1,
                IsImageDynamicallyRelocated: (self.0 >> 3u8) & 1 == 1,
                SkipPatchingUser32Forwarders: (self.0 >> 4u8) & 1 == 1,
                SpareBit0: (self.0 >> 5u8) & 1 == 1,
                SpareBit1: (self.0 >> 6u8) & 1 == 1,
                SpareBit2: (self.0 >> 7u8) & 1 == 1,
            },
        )
    }

    /// The byte as eight binary digits, the least significant first.
    pub fn as_bitstr(&self) -> (s: String)
        ensures
            s@ == self.bitstr(),
    {
        let mut s = String::new();
        let mut i: u8 = 0;
        while i < 8
            invariant
                i <= 8,
                s@ == self.bitstr().take(i as int),
            decreases 8 - i,
        {
            let c = if (self.0 >> i) & 1 == 1 {
                '1'
            } else {
                '0'
            };
            push_char(&mut s, c);
            i = i + 1;
            assert(s@ =~= self.bitstr().take(i as int));
        }
        assert(self.bitstr().take(8) =~= self.bitstr());
        s
    }
}

impl Pod for PEBBitfield {
    open spec fn size_of() -> nat {
        1
    }

    open spec fn decodes(b: Seq<u8>, v: Self) -> bool {
        v.0 == b[0]
    }

    proof fn lemma_decodes_unique(b: Seq<u8>, v: Self, w: Self) {
    }

    fn size() -> (n: usize) {
        1
    }

    fn from_bytes(b: &[u8]) -> (v: Self) {
        PEBBitfield(get_u8(b, 0))
    }
}

} // verus!
