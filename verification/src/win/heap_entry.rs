//! The headers of heaps, of their segments and of their blocks.

use crate::bytes::{decoded, get_u16, get_u32, get_u64, get_u8, u16_at, u32_at, u64_at, Pod};
use crate::win::list_entry::ListEntry;
use crate::win::proc_heap_entry::{HeapBlock, HeapRegion, ProcessHeapEntry};
use vstd::prelude::*;
use vstd::slice::slice_subrange;

verus! {

/// The 16 bytes that precede every block of a heap. The second half is read in
/// several ways, which `unpacked` and `extended` give.
#[allow(non_snake_case)]
#[allow(non_camel_case_types)]
#[derive(Clone, Copy, Debug)]
pub struct HEAP_ENTRY {
    /// Offset 0.
    pub PreviousBlockPrivateData: u64,
    /// Offset 8.
    pub CompactHeader: u64,
}

impl Pod for HEAP_ENTRY {
    open spec fn size_of() -> nat {
        0x10
    }

    open spec fn decodes(b: Seq<u8>, v: Self) -> bool {
        &&& v.PreviousBlockPrivateData == u64_at(b, 0)
        &&& v.CompactHeader == u64_at(b, 8)
    }

    proof fn lemma_decodes_unique(b: Seq<u8>, v: Self, w: Self) {
    }

    fn size() -> (n: usize) {
        0x10
    }

    fn from_bytes(b: &[u8]) -> (v: Self) {
        HEAP_ENTRY {
            PreviousBlockPrivateData: get_u64(b, 0),
            CompactHeader: get_u64(b, 8),
        }
    }
}

/// A heap entry read as a block header. The fields from offset 8 on overlap: the
/// size, flags and tag of a block in use; the code of a sub-segment; or all eight
/// bytes as one number.
#[allow(non_snake_case)]
#[allow(non_camel_case_types)]
#[derive(Clone, Copy, Debug)]
pub struct HEAP_UNPACKED_ENTRY {
    /// Offset 0.
    pub PreviousBlockPrivateData: u64,
    /// Offset 8.
    pub Size: u16,
    /// Offset 0xa.
    pub Flags: u8,
    /// Offset 0xb.
    pub SmallTagIndex: u8,
    /// Offset 8.
    pub SubSegmentCode: u32,
    /// Offset 0xc.
    pub PreviousSize: u16,
    /// Offset 0xe.
    pub SegmentOffset: u8,
    /// Offset 0xf.
    pub UnusedBytes: u8,
    /// Offset 8.
    pub CompactHeader: u64,
}

impl Pod for HEAP_UNPACKED_ENTRY {
    open spec fn size_of() -> nat {
        0x10
    }

    open spec fn decodes(b: Seq<u8>, v: Self) -> bool {
        &&& v.PreviousBlockPrivateData == u64_at(b, 0)
        &&& v.Size == u16_at(b, 8)
        &&& v.Flags == b[0xa]
        &&& v.SmallTagIndex == b[0xb]
        &&& v.SubSegmentCode == u32_at(b, 8)
        &&& v.PreviousSize == u16_at(b, 0xc)
        &&& v.SegmentOffset == b[0xe]
        &&& v.UnusedBytes == b[0xf]
        &&& v.CompactHeader == u64_at(b, 8)
    }

    proof fn lemma_decodes_unique(b: Seq<u8>, v: Self, w: Self) {
    }

    fn size() -> (n: usize) {
        0x10
    }

    fn from_bytes(b: &[u8]) -> (v: Self) {
        HEAP_UNPACKED_ENTRY {
            PreviousBlockPrivateData: get_u64(b, 0),
            Size: get_u16(b, 8),
            Flags: get_u8(b, 0xa),
            SmallTagIndex: get_u8(b, 0xb),
            SubSegmentCode: get_u32(b, 8),
            PreviousSize: get_u16(b, 0xc),
            SegmentOffset: get_u8(b, 0xe),
            UnusedBytes: get_u8(b, 0xf),
            CompactHeader: get_u64(b, 8),
        }
    }
}

/// A heap entry read as an extended header. The interceptor value overlaps the
/// function index and the context value.
#[allow(non_snake_case)]
#[allow(non_camel_case_types)]
#[derive(Clone, Copy, Debug)]
pub struct HEAP_EXTENDED_ENTRY {
    /// Offset 0.
    pub Reserved: u64,
    /// Offset 8.
    pub FunctionIndex: u16,
    /// Offset 0xa.
    pub ContextValue: u16,
    /// Offset 8.
    pub InterceptorValue: u32,
    /// Offset 0xc.
    pub UnusedBytesLength: u16,
    /// Offset 0xe.
    pub EntryOffset: u8,
    /// Offset 0xf.
    pub ExtendedBlockSignature: u8,
}

impl Pod for HEAP_EXTENDED_ENTRY {
    open spec fn size_of() -> nat {
        0x10
    }

    open spec fn decodes(b: Seq<u8>, v: Self) -> bool {
        &&& v.Reserved == u64_at(b, 0)
        &&& v.FunctionIndex == u16_at(b, 8)
        &&& v.ContextValue == u16_at(b, 0xa)
        &&& v.InterceptorValue == u32_at(b, 8)
        &&& v.UnusedBytesLength == u16_at(b, 0xc)
        &&& v.EntryOffset == b[0xe]
        &&& v.ExtendedBlockSignature == b[0xf]
    }

    proof fn lemma_decodes_unique(b: Seq<u8>, v: Self, w: Self) {
    }

    fn size() -> (n: usize) {
        0x10
    }

    fn from_bytes(b: &[u8]) -> (v: Self) {
        HEAP_EXTENDED_ENTRY {
            Reserved: get_u64(b, 0),
            FunctionIndex: get_u16(b, 8),
            ContextValue: get_u16(b, 0xa),
            InterceptorValue: get_u32(b, 8),
            UnusedBytesLength: get_u16(b, 0xc),
            EntryOffset: get_u8(b, 0xe),
            ExtendedBlockSignature: get_u8(b, 0xf),
        }
    }
}

/// Size, flags and tag of a heap block, the first four bytes of the second half of its entry.
#[allow(non_snake_case)]
#[derive(Clone, Copy, Debug)]
pub struct HeapUnpackedEntryOuterUnionInnerStructA {
    /// Offset 0.
    pub Size: u16,
    /// Offset 2.
    pub Flags: u8,
    /// Offset 3.
    pub SmallTagIndex: u8,
}

impl Pod for HeapUnpackedEntryOuterUnionInnerStructA {
    open spec fn size_of() -> nat {
        4
    }

    open spec fn decodes(b: Seq<u8>, v: Self) -> bool {
        &&& v.Size == u16_at(b, 0)
        &&& v.Flags == b[2]
        &&& v.SmallTagIndex == b[3]
    }

    proof fn lemma_decodes_unique(b: Seq<u8>, v: Self, w: Self) {
    }

    fn size() -> (n: usize) {
        4
    }

    fn from_bytes(b: &[u8]) -> (v: Self) {
        HeapUnpackedEntryOuterUnionInnerStructA {
            Size: get_u16(b, 0),
            Flags: get_u8(b, 2),
            SmallTagIndex: get_u8(b, 3),
        }
    }
}

/// The second half of a heap entry read as the code of a sub-segment.
#[allow(non_snake_case)]
#[derive(Clone, Copy, Debug)]
pub struct HeapUnpackedEntryOuterUnionInnerStructB {
    /// Offset 0.
    pub SubSegmentCode: u32,
    /// Offset 4.
    pub PreviousSize: u16,
    /// Offset 6.
    pub SegmentOffset: u8,
    /// Offset 7.
    pub UnusedBytes: u8,
}

impl Pod for HeapUnpackedEntryOuterUnionInnerStructB {
    open spec fn size_of() -> nat {
        8
    }

    open spec fn decodes(b: Seq<u8>, v: Self) -> bool {
        &&& v.SubSegmentCode == u32_at(b, 0)
        &&& v.PreviousSize == u16_at(b, 4)
        &&& v.SegmentOffset == b[6]
        &&& v.UnusedBytes == b[7]
    }

    proof fn lemma_decodes_unique(b: Seq<u8>, v: Self, w: Self) {
    }

    fn size() -> (n: usize) {
        8
    }

    fn from_bytes(b: &[u8]) -> (v: Self) {
        HeapUnpackedEntryOuterUnionInnerStructB {
            SubSegmentCode: get_u32(b, 0),
            PreviousSize: get_u16(b, 4),
            SegmentOffset: get_u8(b, 6),
            UnusedBytes: get_u8(b, 7),
        }
    }
}

/// The header of a segment of a heap. A heap starts with its first segment.
#[allow(non_snake_case)]
#[derive(Clone, Copy, Debug)]
pub struct HeapSegment {
    /// Offset 0.
    pub Entry: HEAP_ENTRY,
    /// Offset 0x10.
    pub SegmentSignature: u32,
    /// Offset 0x14.
    pub SegmentFlags: u32,
    /// Offset 0x18.
    pub SegmentListEntry: ListEntry,
    /// Offset 0x28.
    pub Heap: u64,
    /// Offset 0x30.
    pub BaseAddress: u64,
    /// Offset 0x38.
    pub NumberOfPages: u32,
    /// Offset 0x40.
    pub FirstEntry: u64,
    /// Offset 0x48.
    pub LastValidEntry: u64,
    /// Offset 0x50.
    pub NumberOfUnCommittedPages: u32,
    /// Offset 0x54.
    pub NumberOfUnCommittedRanges: u32,
    /// Offset 0x58.
    pub SegmentAllocatorBackTraceIndex: u16,
    /// Offset 0x5a.
    pub Reserved: u16,
    /// Offset 0x60.
    pub UCRSegmentList: ListEntry,
}

impl Pod for HeapSegment {
    open spec fn size_of() -> nat {
        0x70
    }

    open spec fn decodes(b: Seq<u8>, v: Self) -> bool {
        &&& HEAP_ENTRY::decodes(b.skip(0), v.Entry)
        &&& v.SegmentSignature == u32_at(b, 0x10)
        &&& v.SegmentFlags == u32_at(b, 0x14)
        &&& ListEntry::decodes(b.skip(0x18), v.SegmentListEntry)
        &&& v.Heap == u64_at(b, 0x28)
        &&& v.BaseAddress == u64_at(b, 0x30)
        &&& v.NumberOfPages == u32_at(b, 0x38)
        &&& v.FirstEntry == u64_at(b, 0x40)
        &&& v.LastValidEntry == u64_at(b, 0x48)
        &&& v.NumberOfUnCommittedPages == u32_at(b, 0x50)
        &&& v.NumberOfUnCommittedRanges == u32_at(b, 0x54)
        &&& v.SegmentAllocatorBackTraceIndex == u16_at(b, 0x58)
        &&& v.Reserved == u16_at(b, 0x5a)
        &&& ListEntry::decodes(b.skip(0x60), v.UCRSegmentList)
    }

    proof fn lemma_decodes_unique(b: Seq<u8>, v: Self, w: Self) {
        HEAP_ENTRY::lemma_decodes_unique(b.skip(0), v.Entry, w.Entry);
        ListEntry::lemma_decodes_unique(b.skip(0x18), v.SegmentListEntry, w.SegmentListEntry);
        ListEntry::lemma_decodes_unique(b.skip(0x60), v.UCRSegmentList, w.UCRSegmentList);
    }

    fn size() -> (n: usize) {
        0x70
    }

    fn from_bytes(b: &[u8]) -> (v: Self) {
        HeapSegment {
            Entry: HEAP_ENTRY::from_bytes(slice_subrange(b, 0, b.len())),
            SegmentSignature: get_u32(b, 0x10),
            SegmentFlags: get_u32(b, 0x14),
            SegmentListEntry: ListEntry::from_bytes(slice_subrange(b, 0x18, b.len())),
            Heap: get_u64(b, 0x28),
            BaseAddress: get_u64(b, 0x30),
            NumberOfPages: get_u32(b, 0x38),
            FirstEntry: get_u64(b, 0x40),
            LastValidEntry: get_u64(b, 0x48),
            NumberOfUnCommittedPages: get_u32(b, 0x50),
            NumberOfUnCommittedRanges: get_u32(b, 0x54),
            SegmentAllocatorBackTraceIndex: get_u16(b, 0x58),
            Reserved: get_u16(b, 0x5a),
            UCRSegmentList: ListEntry::from_bytes(slice_subrange(b, 0x60, b.len())),
        }
    }
}

/// The header of a heap: 0x2c0 bytes.
/// Ranges of the record that are reserved or opaque are not decoded.
#[allow(non_snake_case)]
#[derive(Clone, Copy, Debug)]
pub struct HEAP {
    /// Offset 0.
    pub Segment: HeapSegment,
    /// Offset 0x70.
    pub Flags: u32,
    /// Offset 0x74.
    pub ForceFlags: u32,
    /// Offset 0x78.
    pub CompatibilityFlags: u32,
    /// Offset 0x7c.
    pub EncodeFlagMask: u32,
    /// Offset 0x80.
    pub Encoding: HEAP_ENTRY,
    /// Offset 0x90.
    pub Interceptor: u32,
    /// Offset 0x94.
    pub VirtualMemoryThreshold: u32,
    /// Offset 0x98.
    pub Signature: u32,
    /// Offset 0xa0.
    pub SegmentReserve: u64,
    /// Offset 0xa8.
    pub SegmentCommit: u64,
    /// Offset 0xb0.
    pub DeCommitFreeBlockThreshold: u64,
    /// Offset 0xb8.
    pub DeCommitTotalFreeThreshold: u64,
    /// Offset 0xc0.
    pub TotalFreeSize: u64,
    /// Offset 0xc8.
    pub MaximumAllocationSize: u64,
    /// Offset 0xd0.
    pub ProcessHeapsListIndex: u16,
    /// Offset 0xd2.
    pub HeaderValidateLength: u16,
    /// Offset 0xd8.
    pub HeaderValidateCopy: u64,
    /// Offset 0xe0.
    pub NextAvailableTagIndex: u16,
    /// Offset 0xe2.
    pub MaximumTagIndex: u16,
    /// Offset 0xe8.
    pub TagEntries: u64,
    /// Offset 0xf0.
    pub UCRList: ListEntry,
    /// Offset 0x100.
    pub AlignRound: u64,
    /// Offset 0x108.
    pub AlignMask: u64,
    /// Offset 0x110.
    pub VirtualAllocdBlocks: ListEntry,
    /// Offset 0x120.
    pub SegmentList: ListEntry,
    /// Offset 0x130.
    pub AllocatorBackTraceIndex: i32,
    /// Offset 0x134.
    pub NonDedicatedListLength: u32,
    /// Offset 0x138.
    pub BlocksIndex: u64,
    /// Offset 0x140.
    pub UCRIndex: u64,
    /// Offset 0x148.
    pub PseudoTagEntries: u64,
    /// Offset 0x150.
    pub FreeLists: ListEntry,
    /// Offset 0x160.
    pub LockVariable: u64,
    /// Offset 0x168.
    pub CommitRoutine: u64,
}

impl Pod for HEAP {
    open spec fn size_of() -> nat {
        0x2c0
    }

    open spec fn decodes(b: Seq<u8>, v: Self) -> bool {
        &&& HeapSegment::decodes(b.skip(0), v.Segment)
        &&& v.Flags == u32_at(b, 0x70)
        &&& v.ForceFlags == u32_at(b, 0x74)
        &&& v.CompatibilityFlags == u32_at(b, 0x78)
        &&& v.EncodeFlagMask == u32_at(b, 0x7c)
        &&& HEAP_ENTRY::decodes(b.skip(0x80), v.Encoding)
        &&& v.Interceptor == u32_at(b, 0x90)
        &&& v.VirtualMemoryThreshold == u32_at(b, 0x94)
        &&& v.Signature == u32_at(b, 0x98)
        &&& v.SegmentReserve == u64_at(b, 0xa0)
        &&& v.SegmentCommit == u64_at(b, 0xa8)
        &&& v.DeCommitFreeBlockThreshold == u64_at(b, 0xb0)
        &&& v.DeCommitTotalFreeThreshold == u64_at(b, 0xb8)
        &&& v.TotalFreeSize == u64_at(b, 0xc0)
        &&& v.MaximumAllocationSize == u64_at(b, 0xc8)
        &&& v.ProcessHeapsListIndex == u16_at(b, 0xd0)
        &&& v.HeaderValidateLength == u16_at(b, 0xd2)
        &&& v.HeaderValidateCopy == u64_at(b, 0xd8)
        &&& v.NextAvailableTagIndex == u16_at(b, 0xe0)
        &&& v.MaximumTagIndex == u16_at(b, 0xe2)
        &&& v.TagEntries == u64_at(b, 0xe8)
        &&& ListEntry::decodes(b.skip(0xf0), v.UCRList)
        &&& v.AlignRound == u64_at(b, 0x100)
        &&& v.AlignMask == u64_at(b, 0x108)
        &&& ListEntry::decodes(b.skip(0x110), v.VirtualAllocdBlocks)
        &&& ListEntry::decodes(b.skip(0x120), v.SegmentList)
        &&& v.AllocatorBackTraceIndex == u32_at(b, 0x130) as i32
        &&& v.NonDedicatedListLength == u32_at(b, 0x134)
        &&& v.BlocksIndex == u64_at(b, 0x138)
        &&& v.UCRIndex == u64_at(b, 0x140)
        &&& v.PseudoTagEntries == u64_at(b, 0x148)
        &&& ListEntry::decodes(b.skip(0x150), v.FreeLists)
        &&& v.LockVariable == u64_at(b, 0x160)
        &&& v.CommitRoutine == u64_at(b, 0x168)
    }

    proof fn lemma_decodes_unique(b: Seq<u8>, v: Self, w: Self) {
        HeapSegment::lemma_decodes_unique(b.skip(0), v.Segment, w.Segment);
        HEAP_ENTRY::lemma_decodes_unique(b.skip(0x80), v.Encoding, w.Encoding);
        ListEntry::lemma_decodes_unique(b.skip(0xf0), v.UCRList, w.UCRList);
        ListEntry::lemma_decodes_unique(b.skip(0x110), v.VirtualAllocdBlocks, w.VirtualAllocdBlocks);
        ListEntry::lemma_decodes_unique(b.skip(0x120), v.SegmentList, w.SegmentList);
        ListEntry::lemma_decodes_unique(b.skip(0x150), v.FreeLists, w.FreeLists);
    }

    fn size() -> (n: usize) {
        0x2c0
    }

    fn from_bytes(b: &[u8]) -> (v: Self) {
        HEAP {
            Segment: HeapSegment::from_bytes(slice_subrange(b, 0, b.len())),
            Flags: get_u32(b, 0x70),
            ForceFlags: get_u32(b, 0x74),
            CompatibilityFlags: get_u32(b, 0x78),
            EncodeFlagMask: get_u32(b, 0x7c),
            Encoding: HEAP_ENTRY::from_bytes(slice_subrange(b, 0x80, b.len())),
            Interceptor: get_u32(b, 0x90),
            VirtualMemoryThreshold: get_u32(b, 0x94),
            Signature: get_u32(b, 0x98),
            SegmentReserve: get_u64(b, 0xa0),
            SegmentCommit: get_u64(b, 0xa8),
            DeCommitFreeBlockThreshold: get_u64(b, 0xb0),
            DeCommitTotalFreeThreshold: get_u64(b, 0xb8),
            TotalFreeSize: get_u64(b, 0xc0),
            MaximumAllocationSize: get_u64(b, 0xc8),
            ProcessHeapsListIndex: get_u16(b, 0xd0),
            HeaderValidateLength: get_u16(b, 0xd2),
            HeaderValidateCopy: get_u64(b, 0xd8),
            NextAvailableTagIndex: get_u16(b, 0xe0),
            MaximumTagIndex: get_u16(b, 0xe2),
            TagEntries: get_u64(b, 0xe8),
            UCRList: ListEntry::from_bytes(slice_subrange(b, 0xf0, b.len())),
            AlignRound: get_u64(b, 0x100),
            AlignMask: get_u64(b, 0x108),
            VirtualAllocdBlocks: ListEntry::from_bytes(slice_subrange(b, 0x110, b.len())),
            SegmentList: ListEntry::from_bytes(slice_subrange(b, 0x120, b.len())),
            AllocatorBackTraceIndex: #[verifier::truncate] (get_u32(b, 0x130) as i32),
            NonDedicatedListLength: get_u32(b, 0x134),
            BlocksIndex: get_u64(b, 0x138),
            UCRIndex: get_u64(b, 0x140),
            PseudoTagEntries: get_u64(b, 0x148),
            FreeLists: ListEntry::from_bytes(slice_subrange(b, 0x150, b.len())),
            LockVariable: get_u64(b, 0x160),
            CommitRoutine: get_u64(b, 0x168),
        }
    }
}

impl HEAP_ENTRY {
    /// The entry read as a block header: the same sixteen bytes, field by field.
    pub open spec fn spec_unpacked(&self) -> HEAP_UNPACKED_ENTRY {
        HEAP_UNPACKED_ENTRY {
            PreviousBlockPrivateData: self.PreviousBlockPrivateData,
            Size: (self.CompactHeader & 0xFFFF) as u16,
            Flags: ((self.CompactHeader >> 16) & 0xFF) as u8,
            SmallTagIndex: ((self.CompactHeader >> 24) & 0xFF) as u8,
            SubSegmentCode: (self.CompactHeader & 0xFFFF_FFFF) as u32,
            PreviousSize: ((self.CompactHeader >> 32) & 0xFFFF) as u16,
            SegmentOffset: ((self.CompactHeader >> 48) & 0xFF) as u8,
            UnusedBytes: ((self.CompactHeader >> 56) & 0xFF) as u8,
            CompactHeader: self.CompactHeader,
        }
    }

    /// The entry read as an extended header.
    pub open spec fn spec_extended(&self) -> HEAP_EXTENDED_ENTRY {
        HEAP_EXTENDED_ENTRY {
            Reserved: self.PreviousBlockPrivateData,
            FunctionIndex: (self.CompactHeader & 0xFFFF) as u16,
            ContextValue: ((self.CompactHeader >> 16) & 0xFFFF) as u16,
            InterceptorValue: (self.CompactHeader & 0xFFFF_FFFF) as u32,
            UnusedBytesLength: ((self.CompactHeader >> 32) & 0xFFFF) as u16,
            EntryOffset: ((self.CompactHeader >> 48) & 0xFF) as u8,
            ExtendedBlockSignature: ((self.CompactHeader >> 56) & 0xFF) as u8,
        }
    }

    /// The entry read as a block header.
    pub fn unpacked(&self) -> (r: HEAP_UNPACKED_ENTRY)
        ensures
            r == self.spec_unpacked(),
    {
        let c = self.CompactHeader;
        proof {
            lemma_header_parts(c);
        }
        HEAP_UNPACKED_ENTRY {
            PreviousBlockPrivateData: self.PreviousBlockPrivateData,
            Size: (c & 0xFFFF) as u16,
            Flags: ((c >> 16) & 0xFF) as u8,
            SmallTagIndex: ((c >> 24) & 0xFF) as u8,
            SubSegmentCode: (c & 0xFFFF_FFFF) as u32,
            PreviousSize: ((c >> 32) & 0xFFFF) as u16,
            SegmentOffset: ((c >> 48) & 0xFF) as u8,
            UnusedBytes: ((c >> 56) & 0xFF) as u8,
            CompactHeader: c,
        }
    }

    /// The entry read as an extended header.
    pub fn extended(&self) -> (r: HEAP_EXTENDED_ENTRY)
        ensures
            r == self.spec_extended(),
    {
        let c = self.CompactHeader;
        proof {
            lemma_header_parts(c);
        }
        HEAP_EXTENDED_ENTRY {
            Reserved: self.PreviousBlockPrivateData,
            FunctionIndex: (c & 0xFFFF) as u16,
            ContextValue: ((c >> 16) & 0xFFFF) as u16,
            InterceptorValue: (c & 0xFFFF_FFFF) as u32,
            UnusedBytesLength: ((c >> 32) & 0xFFFF) as u16,
            EntryOffset: ((c >> 48) & 0xFF) as u8,
            ExtendedBlockSignature: ((c >> 56) & 0xFF) as u8,
        }
    }

    /// The entry as an entry of a heap walk. Nothing of the entry is carried
    /// over: every field of the result is zero.
    pub fn into_proc_heap_entry(&self) -> (r: ProcessHeapEntry)
        ensures
            r.lpData == 0,
            r.cbData == 0,
            r.cbOverhead == 0,
            r.iRegionIndex == 0,
            r.wFlags == 0,
            r.Block.hMem == 0,
            r.Block.dwReserved@ == seq![0u32, 0u32, 0u32],
            r.Region == (HeapRegion {
                dwCommittedSize: 0,
                dwUnCommittedSize: 0,
                lpFirstBlock: 0,
                lpLastBlock: 0,
            }),
    {
        let r = ProcessHeapEntry {
            lpData: 0,
            cbData: 0,
            cbOverhead: 0,
            iRegionIndex: 0,
            wFlags: 0,
            Block: HeapBlock { hMem: 0, dwReserved: [0, 0, 0] },
            Region: HeapRegion {
                dwCommittedSize: 0,
                dwUnCommittedSize: 0,
                lpFirstBlock: 0,
                lpLastBlock: 0,
            },
        };
        assert(r.Block.dwReserved@ =~= seq![0u32, 0u32, 0u32]);
        r
    }
}

/// The parts of the second half of a heap entry fit their fields.
proof fn lemma_header_parts(c: u64)
    by (bit_vector)
    ensures
        c & 0xFFFF <= 0xFFFF,
        (c >> 16) & 0xFF <= 0xFF,
        (c >> 24) & 0xFF <= 0xFF,
        c & 0xFFFF_FFFF <= 0xFFFF_FFFF,
        (c >> 32) & 0xFFFF <= 0xFFFF,
        (c >> 48) & 0xFF <= 0xFF,
        (c >> 56) & 0xFF <= 0xFF,
        (c >> 16) & 0xFFFF <= 0xFFFF,
{
}

} // verus!
