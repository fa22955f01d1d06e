//! The process environment block.

use crate::bytes::{
    decoded, get_u16, get_u32, get_u32s, get_u64, get_u8, get_u8s, u16_at, u32_at, u32s_at,
    u64_at, Pod,
};
use crate::vm::VMBinding;
use crate::win::peb_bitfield::PEBBitfield;
use crate::win::peb_ldr_data::PebLdrData;
use vstd::prelude::*;
use vstd::slice::slice_subrange;

verus! {

/// The process environment block, the user-mode state of a process: 0x7b0 bytes.
/// Ranges of the record that are reserved or opaque are not decoded.
#[allow(non_snake_case)]
#[derive(Clone, Copy, Debug)]
pub struct FullPEB {
    /// Offset 0.
    pub InheritedAddressSpace: u8,
    /// Offset 1.
    pub ReadImageFileExecOptions: u8,
    /// Offset 2.
    pub BeingFebugged: u8,
    /// Offset 3.
    pub BitField: PEBBitfield,
    /// Offset 4.
    pub Padding0: [u8; 4],
    /// Offset 8.
    pub Mutant: u64,
    /// Offset 0x10.
    pub ImageBaseAddress: u64,
    /// Offset 0x18.
    pub Ldr: u64,
    /// Offset 0x20.
    pub ProcessParameters: u64,
    /// Offset 0x28.
    pub SubSystemData: u64,
    /// Offset 0x30.
    pub ProcessHeap: u64,
    /// Offset 0x38.
    pub FastPebLock: u64,
    /// Offset 0x40.
    pub _SYSTEM_DEPENDENT_02: u64,
    /// Offset 0x48.
    pub _SYSTEM_DEPENDENT_03: u64,
    /// Offset 0x50.
    pub _SYSTEM_DEPENDENT_04: u64,
    /// Offset 0x58.
    pub CbTableOrSharedInfo: u64,
    /// Offset 0x60.
    pub SystemReserved: u32,
    /// Offset 0x64.
    pub _SYSTEM_DEPENDENT_05: u32,
    /// Offset 0x68.
    pub _SYSTEM_DEPENDENT_06: u64,
    /// Offset 0x70.
    pub TlsExpansionCounter: u64,
    /// Offset 0x78.
    pub TlsBitmap: u64,
    /// Offset 0x80.
    pub TlsBitmapBits: [u32; 2],
    /// Offset 0x88.
    pub ReadOnlySharedMemoryBase: u64,
    /// Offset 0x90.
    pub _SYSTEM_DEPENDENT_07: u64,
    /// Offset 0x98.
    pub ReadOnlyStaticServerData: u64,
    /// Offset 0xa0.
    pub AnsiCodePageData: u64,
    /// Offset 0xa8.
    pub OemCodePageData: u64,
    /// Offset 0xb0.
    pub UnicodeCaseTableData: u64,
    /// Offset 0xb8.
    pub NumberOfProcessors: u32,
    /// Offset 0xbc.
    pub NtGlobalFlag: u32,
    /// Offset 0xc0.
    pub CriticalSectionTimeout: u64,
    /// Offset 0xc8.
    pub HeapSegmentReserve: u64,
    /// Offset 0xd0.
    pub HeapSegmentCommit: u64,
    /// Offset 0xd8.
    pub HeapDeCommitTotalFreeThreshold: u64,
    /// Offset 0xe0.
    pub HeapDeCommitFreeBlockThreshold: u64,
    /// Offset 0xe8.
    pub NumberOfHeaps: u32,
    /// Offset 0xec.
    pub MaximumNumberOfHeaps: u32,
    /// Offset 0xf0.
    pub ProcessHeaps: u64,
    /// Offset 0xf8.
    pub GdiSharedHandleTable: u64,
    /// Offset 0x100.
    pub ProcessStarterHelper: u64,
    /// Offset 0x108.
    pub GdiDCAttributeList: u64,
    /// Offset 0x110.
    pub LoaderLock: u64,
    /// Offset 0x118.
    pub OSMajorVersion: u32,
    /// Offset 0x11c.
    pub OSMinorVersion: u32,
    /// Offset 0x120.
    pub OSBuildNumber: u16,
    /// Offset 0x122.
    pub OSCSDVersion: u16,
    /// Offset 0x124.
    pub OSPlatformId: u32,
    /// Offset 0x128.
    pub ImageSubsystem: u32,
    /// Offset 0x12c.
    pub ImageSubsystemMajorVersion: u32,
    /// Offset 0x130.
    pub ImageSubsystemMinorVersion: u64,
    /// Offset 0x138.
    pub ProcessAffinityMask: u64,
    /// Offset 0x230.
    pub PostProcessInitRoutine: u64,
    /// Offset 0x238.
    pub TlsExpansionBitmap: u64,
    /// Offset 0x2c0.
    pub SessionId: u64,
    /// Offset 0x2c8.
    pub AppCompatFlags: u64,
    /// Offset 0x2d0.
    pub AppCompatFlagsUser: u64,
    /// Offset 0x2d8.
    pub pShimData: u64,
    /// Offset 0x2e0.
    pub AppCompatInfo: u64,
    /// Offset 0x2e8.
    pub CSDVersion: [u8; 16],
    /// Offset 0x2f8.
    pub ActivationContextData: u64,
    /// Offset 0x300.
    pub ProcessAssemblyStorageMap: u64,
    /// Offset 0x308.
    pub SystemDefaultActivationContextData: u64,
    /// Offset 0x310.
    pub SystemAssemblyStorageMap: u64,
    /// Offset 0x318.
    pub MinimumStackCommit: u64,
    /// Offset 0x320.
    pub FlsCallbackInfo: u64,
    /// Offset 0x328.
    pub FlsListHead: [u8; 16],
    /// Offset 0x338.
    pub FlsBitmap: u64,
    /// Offset 0x340.
    pub FlsBitmapBits: [u8; 16],
    /// Offset 0x350.
    pub FlsHighIndex: u32,
    /// Offset 0x358.
    pub WerRegistrationData: u64,
    /// Offset 0x360.
    pub WerShipAssertPtr: u64,
    /// Offset 0x368.
    pub pContextData: u64,
    /// Offset 0x370.
    pub pImageHeaderHash: u64,
    /// Offset 0x378.
    pub TracingFlags: u32,
    /// Offset 0x37c.
    pub Padding1: [u8; 4],
    /// Offset 0x380.
    pub CsrServerReadOnlySharedMemoryBase: u64,
    /// Offset 0x388.
    pub TppWorkerpListLock: u64,
    /// Offset 0x390.
    pub TppWorkerpList: [u8; 16],
    /// Offset 0x7a0.
    pub TelemetryCoverageHeader: u64,
    /// Offset 0x7a8.
    pub CloudFileFlags: u64,
}

impl Pod for FullPEB {
    open spec fn size_of() -> nat {
        0x7b0
    }

    open spec fn decodes(b: Seq<u8>, v: Self) -> bool {
        &&& v.InheritedAddressSpace == b[0]
        &&& v.ReadImageFileExecOptions == b[1]
        &&& v.BeingFebugged == b[2]
        &&& PEBBitfield::decodes(b.skip(3), v.BitField)
        &&& v.Padding0@ == b.subrange(4, 8)
        &&& v.Mutant == u64_at(b, 8)
        &&& v.ImageBaseAddress == u64_at(b, 0x10)
        &&& v.Ldr == u64_at(b, 0x18)
        &&& v.ProcessParameters == u64_at(b, 0x20)
        &&& v.SubSystemData == u64_at(b, 0x28)
        &&& v.ProcessHeap == u64_at(b, 0x30)
        &&& v.FastPebLock == u64_at(b, 0x38)
        &&& v._SYSTEM_DEPENDENT_02 == u64_at(b, 0x40)
        &&& v._SYSTEM_DEPENDENT_03 == u64_at(b, 0x48)
        &&& v._SYSTEM_DEPENDENT_04 == u64_at(b, 0x50)
        &&& v.CbTableOrSharedInfo == u64_at(b, 0x58)
        &&& v.SystemReserved == u32_at(b, 0x60)
        &&& v._SYSTEM_DEPENDENT_05 == u32_at(b, 0x64)
        &&& v._SYSTEM_DEPENDENT_06 == u64_at(b, 0x68)
        &&& v.TlsExpansionCounter == u64_at(b, 0x70)
        &&& v.TlsBitmap == u64_at(b, 0x78)
        &&& v.TlsBitmapBits@ == u32s_at(b, 0x80, 2)
        &&& v.ReadOnlySharedMemoryBase == u64_at(b, 0x88)
        &&& v._SYSTEM_DEPENDENT_07 == u64_at(b, 0x90)
        &&& v.ReadOnlyStaticServerData == u64_at(b, 0x98)
        &&& v.AnsiCodePageData == u64_at(b, 0xa0)
        &&& v.OemCodePageData == u64_at(b, 0xa8)
        &&& v.UnicodeCaseTableData == u64_at(b, 0xb0)
        &&& v.NumberOfProcessors == u32_at(b, 0xb8)
        &&& v.NtGlobalFlag == u32_at(b, 0xbc)
        &&& v.CriticalSectionTimeout == u64_at(b, 0xc0)
        &&& v.HeapSegmentReserve == u64_at(b, 0xc8)
        &&& v.HeapSegmentCommit == u64_at(b, 0xd0)
        &&& v.HeapDeCommitTotalFreeThreshold == u64_at(b, 0xd8)
        &&& v.HeapDeCommitFreeBlockThreshold == u64_at(b, 0xe0)
        &&& v.NumberOfHeaps == u32_at(b, 0xe8)
        &&& v.MaximumNumberOfHeaps == u32_at(b, 0xec)
        &&& v.ProcessHeaps == u64_at(b, 0xf0)
        &&& v.GdiSharedHandleTable == u64_at(b, 0xf8)
        &&& v.ProcessStarterHelper == u64_at(b, 0x100)
        &&& v.GdiDCAttributeList == u64_at(b, 0x108)
        &&& v.LoaderLock == u64_at(b, 0x110)
        &&& v.OSMajorVersion == u32_at(b, 0x118)
        &&& v.OSMinorVersion == u32_at(b, 0x11c)
        &&& v.OSBuildNumber == u16_at(b, 0x120)
        &&& v.OSCSDVersion == u16_at(b, 0x122)
        &&& v.OSPlatformId == u32_at(b, 0x124)
        &&& v.ImageSubsystem == u32_at(b, 0x128)
        &&& v.ImageSubsystemMajorVersion == u32_at(b, 0x12c)
        &&& v.ImageSubsystemMinorVersion == u64_at(b, 0x130)
        &&& v.ProcessAffinityMask == u64_at(b, 0x138)
        &&& v.PostProcessInitRoutine == u64_at(b, 0x230)
        &&& v.TlsExpansionBitmap == u64_at(b, 0x238)
        &&& v.SessionId == u64_at(b, 0x2c0)
        &&& v.AppCompatFlags == u64_at(b, 0x2c8)
        &&& v.AppCompatFlagsUser == u64_at(b, 0x2d0)
        &&& v.pShimData == u64_at(b, 0x2d8)
        &&& v.AppCompatInfo == u64_at(b, 0x2e0)
        &&& v.CSDVersion@ == b.subrange(0x2e8, 0x2f8)
        &&& v.ActivationContextData == u64_at(b, 0x2f8)
        &&& v.ProcessAssemblyStorageMap == u64_at(b, 0x300)
        &&& v.SystemDefaultActivationContextData == u64_at(b, 0x308)
        &&& v.SystemAssemblyStorageMap == u64_at(b, 0x310)
        &&& v.MinimumStackCommit == u64_at(b, 0x318)
        &&& v.FlsCallbackInfo == u64_at(b, 0x320)
        &&& v.FlsListHead@ == b.subrange(0x328, 0x338)
        &&& v.FlsBitmap == u64_at(b, 0x338)
        &&& v.FlsBitmapBits@ == b.subrange(0x340, 0x350)
        &&& v.FlsHighIndex == u32_at(b, 0x350)
        &&& v.WerRegistrationData == u64_at(b, 0x358)
        &&& v.WerShipAssertPtr == u64_at(b, 0x360)
        &&& v.pContextData == u64_at(b, 0x368)
        &&& v.pImageHeaderHash == u64_at(b, 0x370)
        &&& v.TracingFlags == u32_at(b, 0x378)
        &&& v.Padding1@ == b.subrange(0x37c, 0x380)
        &&& v.CsrServerReadOnlySharedMemoryBase == u64_at(b, 0x380)
        &&& v.TppWorkerpListLock == u64_at(b, 0x388)
        &&& v.TppWorkerpList@ == b.subrange(0x390, 0x3a0)
        &&& v.TelemetryCoverageHeader == u64_at(b, 0x7a0)
        &&& v.CloudFileFlags == u64_at(b, 0x7a8)
    }

    proof fn lemma_decodes_unique(b: Seq<u8>, v: Self, w: Self) {
        PEBBitfield::lemma_decodes_unique(b.skip(3), v.BitField, w.BitField);
        assert(v.Padding0 =~= w.Padding0);
        assert(v.TlsBitmapBits =~= w.TlsBitmapBits);
        assert(v.CSDVersion =~= w.CSDVersion);
        assert(v.FlsListHead =~= w.FlsListHead);
        assert(v.FlsBitmapBits =~= w.FlsBitmapBits);
        assert(v.Padding1 =~= w.Padding1);
        assert(v.TppWorkerpList =~= w.TppWorkerpList);
    }

    fn size() -> (n: usize) {
        0x7b0
    }

    fn from_bytes(b: &[u8]) -> (v: Self) {
        FullPEB {
            InheritedAddressSpace: get_u8(b, 0),
            ReadImageFileExecOptions: get_u8(b, 1),
            BeingFebugged: get_u8(b, 2),
            BitField: PEBBitfield::from_bytes(slice_subrange(b, 3, b.len())),
            Padding0: get_u8s(b, 4),
            Mutant: get_u64(b, 8),
            ImageBaseAddress: get_u64(b, 0x10),
            Ldr: get_u64(b, 0x18),
            ProcessParameters: get_u64(b, 0x20),
            SubSystemData: get_u64(b, 0x28),
            ProcessHeap: get_u64(b, 0x30),
            FastPebLock: get_u64(b, 0x38),
            _SYSTEM_DEPENDENT_02: get_u64(b, 0x40),
            _SYSTEM_DEPENDENT_03: get_u64(b, 0x48),
            _SYSTEM_DEPENDENT_04: get_u64(b, 0x50),
            CbTableOrSharedInfo: get_u64(b, 0x58),
            SystemReserved: get_u32(b, 0x60),
            _SYSTEM_DEPENDENT_05: get_u32(b, 0x64),
            _SYSTEM_DEPENDENT_06: get_u64(b, 0x68),
            TlsExpansionCounter: get_u64(b, 0x70),
            TlsBitmap: get_u64(b, 0x78),
            TlsBitmapBits: get_u32s(b, 0x80),
            ReadOnlySharedMemoryBase: get_u64(b, 0x88),
            _SYSTEM_DEPENDENT_07: get_u64(b, 0x90),
            ReadOnlyStaticServerData: get_u64(b, 0x98),
            AnsiCodePageData: get_u64(b, 0xa0),
            OemCodePageData: get_u64(b, 0xa8),
            UnicodeCaseTableData: get_u64(b, 0xb0),
            NumberOfProcessors: get_u32(b, 0xb8),
            NtGlobalFlag: get_u32(b, 0xbc),
            CriticalSectionTimeout: get_u64(b, 0xc0),
            HeapSegmentReserve: get_u64(b, 0xc8),
            HeapSegmentCommit: get_u64(b, 0xd0),
            HeapDeCommitTotalFreeThreshold: get_u64(b, 0xd8),
            HeapDeCommitFreeBlockThreshold: get_u64(b, 0xe0),
            NumberOfHeaps: get_u32(b, 0xe8),
            MaximumNumberOfHeaps: get_u32(b, 0xec),
            ProcessHeaps: get_u64(b, 0xf0),
            GdiSharedHandleTable: get_u64(b, 0xf8),
            ProcessStarterHelper: get_u64(b, 0x100),
            GdiDCAttributeList: get_u64(b, 0x108),
            LoaderLock: get_u64(b, 0x110),
            OSMajorVersion: get_u32(b, 0x118),
            OSMinorVersion: get_u32(b, 0x11c),
            OSBuildNumber: get_u16(b, 0x120),
            OSCSDVersion: get_u16(b, 0x122),
            OSPlatformId: get_u32(b, 0x124),
            ImageSubsystem: get_u32(b, 0x128),
            ImageSubsystemMajorVersion: get_u32(b, 0x12c),
            ImageSubsystemMinorVersion: get_u64(b, 0x130),
            ProcessAffinityMask: get_u64(b, 0x138),
            PostProcessInitRoutine: get_u64(b, 0x230),
            TlsExpansionBitmap: get_u64(b, 0x238),
            SessionId: get_u64(b, 0x2c0),
            AppCompatFlags: get_u64(b, 0x2c8),
            AppCompatFlagsUser: get_u64(b, 0x2d0),
            pShimData: get_u64(b, 0x2d8),
            AppCompatInfo: get_u64(b, 0x2e0),
            CSDVersion: get_u8s(b, 0x2e8),
            ActivationContextData: get_u64(b, 0x2f8),
            ProcessAssemblyStorageMap: get_u64(b, 0x300),
            SystemDefaultActivationContextData: get_u64(b, 0x308),
            SystemAssemblyStorageMap: get_u64(b, 0x310),
            MinimumStackCommit: get_u64(b, 0x318),
            FlsCallbackInfo: get_u64(b, 0x320),
            FlsListHead: get_u8s(b, 0x328),
            FlsBitmap: get_u64(b, 0x338),
            FlsBitmapBits: get_u8s(b, 0x340),
            FlsHighIndex: get_u32(b, 0x350),
            WerRegistrationData: get_u64(b, 0x358),
            WerShipAssertPtr: get_u64(b, 0x360),
            pContextData: get_u64(b, 0x368),
            pImageHeaderHash: get_u64(b, 0x370),
            TracingFlags: get_u32(b, 0x378),
            Padding1: get_u8s(b, 0x37c),
            CsrServerReadOnlySharedMemoryBase: get_u64(b, 0x380),
            TppWorkerpListLock: get_u64(b, 0x388),
            TppWorkerpList: get_u8s(b, 0x390),
            TelemetryCoverageHeader: get_u64(b, 0x7a0),
            CloudFileFlags: get_u64(b, 0x7a8),
        }
    }
}

impl FullPEB {
    /// The loader data that the block points to, read in the address space
    /// rooted at `dirbase`.
    pub fn read_loader_with_dirbase(&self, vm: &VMBinding, dirbase: u64) -> (r: PebLdrData)
        ensures
            r == decoded::<PebLdrData>(
                vm.mem@.vbytes(dirbase, self.Ldr as int, PebLdrData::size_of() as int),
            ),
    {
        vm.vread(dirbase, self.Ldr)
    }
}

} // verus!
