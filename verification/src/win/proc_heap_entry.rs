//! Entries of a walk over a heap.

use crate::bytes::{
    get_u16, get_u32, get_u32s, get_u64, get_u8, u16_at, u32_at, u32s_at, u64_at, Pod,
};
use vstd::prelude::*;
use vstd::slice::slice_subrange;

verus! {

/// What a heap entry says of an allocated, moveable block.
#[allow(non_snake_case)]
#[derive(Clone, Copy, Debug)]
pub struct HeapBlock {
    /// Offset 0.
    pub hMem: u32,
    /// Offset 4.
    pub dwReserved: [u32; 3],
}

impl Pod for HeapBlock {
    open spec fn size_of() -> nat {
        0x10
    }

    open spec fn decodes(b: Seq<u8>, v: Self) -> bool {
        &&& v.hMem == u32_at(b, 0)
        &&& v.dwReserved@ == u32s_at(b, 4, 3)
    }

    proof fn lemma_decodes_unique(b: Seq<u8>, v: Self, w: Self) {
        assert(v.dwReserved =~= w.dwReserved);
    }

    fn size() -> (n: usize) {
        0x10
    }

    fn from_bytes(b: &[u8]) -> (v: Self) {
        HeapBlock {
            hMem: get_u32(b, 0),
            dwReserved: get_u32s(b, 4),
        }
    }
}

/// What a heap entry says of a region of a heap.
#[allow(non_snake_case)]
#[derive(Clone, Copy, Debug)]
pub struct HeapRegion {
    /// Offset 0.
    pub dwCommittedSize: u32,
    /// Offset 4.
    pub dwUnCommittedSize: u32,
    /// Offset 8.
    pub lpFirstBlock: u64,
    /// Offset 0x10.
    pub lpLastBlock: u64,
}

impl Pod for HeapRegion {
    open spec fn size_of() -> nat {
        0x18
    }

    open spec fn decodes(b: Seq<u8>, v: Self) -> bool {
        &&& v.dwCommittedSize == u32_at(b, 0)
        &&& v.dwUnCommittedSize == u32_at(b, 4)
        &&& v.lpFirstBlock == u64_at(b, 8)
        &&& v.lpLastBlock == u64_at(b, 0x10)
    }

    proof fn lemma_decodes_unique(b: Seq<u8>, v: Self, w: Self) {
    }

    fn size() -> (n: usize) {
        0x18
    }

    fn from_bytes(b: &[u8]) -> (v: Self) {
        HeapRegion {
            dwCommittedSize: get_u32(b, 0),
            dwUnCommittedSize: get_u32(b, 4),
            lpFirstBlock: get_u64(b, 8),
            lpLastBlock: get_u64(b, 0x10),
        }
    }
}

/// One entry of a walk over a heap. From offset 16 on it holds either a block or a
/// region, by its flags; both readings are kept.
#[allow(non_snake_case)]
#[derive(Clone, Copy, Debug)]
pub struct ProcessHeapEntry {
    /// Offset 0.
    pub lpData: u64,
    /// Offset 8.
    pub cbData: u32,
    /// Offset 0xc.
    pub cbOverhead: u8,
    /// Offset 0xd.
    pub iRegionIndex: i8,
    /// Offset 0xe.
    pub wFlags: u16,
    /// Offset 0x10.
    pub Block: HeapBlock,
    /// Offset 0x10.
    pub Region: HeapRegion,
}

impl Pod for ProcessHeapEntry {
    open spec fn size_of() -> nat {
        0x28
    }

    open spec fn decodes(b: Seq<u8>, v: Self) -> bool {
        &&& v.lpData == u64_at(b, 0)
        &&& v.cbData == u32_at(b, 8)
        &&& v.cbOverhead == b[0xc]
        &&& v.iRegionIndex == b[0xd] as i8
        &&& v.wFlags == u16_at(b, 0xe)
        &&& HeapBlock::decodes(b.skip(0x10), v.Block)
        &&& HeapRegion::decodes(b.skip(0x10), v.Region)
    }

    proof fn lemma_decodes_unique(b: Seq<u8>, v: Self, w: Self) {
        HeapBlock::lemma_decodes_unique(b.skip(0x10), v.Block, w.Block);
        HeapRegion::lemma_decodes_unique(b.skip(0x10), v.Region, w.Region);
    }

    fn size() -> (n: usize) {
        0x28
    }

    fn from_bytes(b: &[u8]) -> (v: Self) {
        ProcessHeapEntry {
            lpData: get_u64(b, 0),
            cbData: get_u32(b, 8),
            cbOverhead: get_u8(b, 0xc),
            iRegionIndex: #[verifier::truncate] (get_u8(b, 0xd) as i8),
            wFlags: get_u16(b, 0xe),
            Block: HeapBlock::from_bytes(slice_subrange(b, 0x10, b.len())),
            Region: HeapRegion::from_bytes(slice_subrange(b, 0x10, b.len())),
        }
    }
}

/// The flags of an entry of a heap walk.
#[derive(Copy, Clone, Debug, PartialEq, Eq, Structural)]
pub enum HeapProperty {
    ProcessHeapEntryBusy,
    ProcessHeapEntryDdeshare,
    ProcessHeapEntryMoveable,
    ProcessHeapRegion,
    ProcessHeapUncommittedRange,
}

impl HeapProperty {
    /// The bit that stands for the flag.
    pub open spec fn spec_mask(self) -> u16 {
        match self {
            HeapProperty::ProcessHeapEntryBusy => 0x0004,
            HeapProperty::ProcessHeapEntryDdeshare => 0x0020,
            HeapProperty::ProcessHeapEntryMoveable => 0x0010,
            HeapProperty::ProcessHeapRegion => 0x0001,
            HeapProperty::ProcessHeapUncommittedRange => 0x0002,
        }
    }

    /// The bit that stands for the flag.
    pub fn mask(self) -> (r: u16)
        ensures
            r == self.spec_mask(),
    {
        match self {
            HeapProperty::ProcessHeapEntryBusy => 0x0004,
            HeapProperty::ProcessHeapEntryDdeshare => 0x0020,
            HeapProperty::ProcessHeapEntryMoveable => 0x0010,
            HeapProperty::ProcessHeapRegion => 0x0001,
            HeapProperty::ProcessHeapUncommittedRange => 0x0002,
        }
    }
}

/// What an entry of a heap walk describes.
#[derive(Copy, Clone, Debug, PartialEq, Eq, Structural)]
pub enum HeapEntryKind {
    /// A block in use.
    AllocatedBlock,
    /// A region of the heap.
    Region,
    /// A range that is reserved but not committed.
    UncommittedRange,
    /// A free block.
    Block,
}

impl ProcessHeapEntry {
    /// Whether the flag `p` is set in the entry.
    pub open spec fn spec_has(&self, p: HeapProperty) -> bool {
        self.wFlags & p.spec_mask() != 0
    }

    /// What the entry describes. The busy flag is looked at first, then the
    /// region flag, then the flag of an uncommitted range.
    pub open spec fn spec_kind(&self) -> HeapEntryKind {
        if self.spec_has(HeapProperty::ProcessHeapEntryBusy) {
            HeapEntryKind::AllocatedBlock
        } else if self.spec_has(HeapProperty::ProcessHeapRegion) {
            HeapEntryKind::Region
        } else if self.spec_has(HeapProperty::ProcessHeapUncommittedRange) {
            HeapEntryKind::UncommittedRange
        } else {
            HeapEntryKind::Block
        }
    }

    /// Whether the flag `p` is set in the entry.
    pub fn has(&self, p: HeapProperty) -> (r: bool)
        ensures
            r == self.spec_has(p),
    {
        self.wFlags & p.mask() != 0
    }

    /// What the entry describes.
    pub fn kind(&self) -> (r: HeapEntryKind)
        ensures
            r == self.spec_kind(),
    {
        if self.has(HeapProperty::ProcessHeapEntryBusy) {
            HeapEntryKind::AllocatedBlock
        } else if self.has(HeapProperty::ProcessHeapRegion) {
            HeapEntryKind::Region
        } else if self.has(HeapProperty::ProcessHeapUncommittedRange) {
            HeapEntryKind::UncommittedRange
        } else {
            HeapEntryKind::Block
        }
    }
}

} // verus!
