//! The kernel's record of a process, and the protection byte in it.

use crate::bytes::{
    decoded, get_u16, get_u32, get_u64, get_u64s, get_u8, get_u8s, u16_at, u32_at, u64_at,
    u64s_at, Pod,
};
use crate::win::list_entry::{ListEntry, SingleListEntry};
use vstd::prelude::*;
use vstd::slice::slice_subrange;

verus! {

/// How far a process is protected.
#[derive(Copy, Debug, Clone, PartialEq, Eq, Structural)]
pub enum PsProtectedType {
    Unprotected,
    ProtectedLight,
    Protected,
    Unknown,
}

impl PsProtectedType {
    /// The type that the number `item` stands for; `Unknown` for any number
    /// above two.
    pub open spec fn spec_from_u8(item: u8) -> PsProtectedType {
        if item == 0 {
            PsProtectedType::Unprotected
        } else if item == 1 {
            PsProtectedType::ProtectedLight
        } else if item == 2 {
            PsProtectedType::Protected
        } else {
            PsProtectedType::Unknown
        }
    }

    /// The number that stands for the type; 0xF0 for `Unknown`.
    pub open spec fn spec_to_u8(self) -> u8 {
        match self {
            PsProtectedType::Unprotected => 0,
            PsProtectedType::ProtectedLight => 1,
            PsProtectedType::Protected => 2,
            PsProtectedType::Unknown => 0xF0,
        }
    }

    /// The type that the number `item` stands for.
    pub fn from_u8(item: u8) -> (r: PsProtectedType)
        ensures
            r == Self::spec_from_u8(item),
    {
        match item {
            0 => PsProtectedType::Unprotected,
            1 => PsProtectedType::ProtectedLight,
            2 => PsProtectedType::Protected,
            _ => PsProtectedType::Unknown,
        }
    }

    /// The number that stands for the type.
    pub fn to_u8(self) -> (r: u8)
        ensures
            r == self.spec_to_u8(),
    {
        match self {
            PsProtectedType::Unprotected => 0,
            PsProtectedType::ProtectedLight => 1,
            PsProtectedType::Protected => 2,
            PsProtectedType::Unknown => 0xF0,
        }
    }
}

/// Who signed the image of a protected process.
#[derive(Copy, Debug, Clone, PartialEq, Eq, Structural)]
pub enum PsProtectedSigner {
    Unsigned,
    Authenticode,
    CodeGen,
    Antimalware,
    Lsa,
    Windows,
    WinTcb,
    WinSystem,
    App,
    Unknown,
}

impl PsProtectedSigner {
    /// The signer that the number `item` stands for; `Unknown` for any number
    /// above eight.
    pub open spec fn spec_from_u8(item: u8) -> PsProtectedSigner {
        if item == 0 {
            PsProtectedSigner::Unsigned
        } else if item == 1 {
            PsProtectedSigner::Authenticode
        } else if item == 2 {
            PsProtectedSigner::CodeGen
        } else if item == 3 {
            PsProtectedSigner::Antimalware
        } else if item == 4 {
            PsProtectedSigner::Lsa
        } else if item == 5 {
            PsProtectedSigner::Windows
        } else if item == 6 {
            PsProtectedSigner::WinTcb
        } else if item == 7 {
            PsProtectedSigner::WinSystem
        } else if item == 8 {
            PsProtectedSigner::App
        } else {
            PsProtectedSigner::Unknown
        }
    }

    /// The number that stands for the signer; 0xF0 for `Unknown`.
    pub open spec fn spec_to_u8(self) -> u8 {
        match self {
            PsProtectedSigner::Unsigned => 0,
            PsProtectedSigner::Authenticode => 1,
            PsProtectedSigner::CodeGen => 2,
            PsProtectedSigner::Antimalware => 3,
            PsProtectedSigner::Lsa => 4,
            PsProtectedSigner::Windows => 5,
            PsProtectedSigner::WinTcb => 6,
            PsProtectedSigner::WinSystem => 7,
            PsProtectedSigner::App => 8,
            PsProtectedSigner::Unknown => 0xF0,
        }
    }

    /// The signer that the number `item` stands for.
    pub fn from_u8(item: u8) -> (r: PsProtectedSigner)
        ensures
            r == Self::spec_from_u8(item),
    {
        match item {
            0 => PsProtectedSigner::Unsigned,
            1 => PsProtectedSigner::Authenticode,
            2 => PsProtectedSigner::CodeGen,
            3 => PsProtectedSigner::Antimalware,
            4 => PsProtectedSigner::Lsa,
            5 => PsProtectedSigner::Windows,
            6 => PsProtectedSigner::WinTcb,
            7 => PsProtectedSigner::WinSystem,
            8 => PsProtectedSigner::App,
            _ => PsProtectedSigner::Unknown,
        }
    }

    /// The number that stands for the signer.
    pub fn to_u8(self) -> (r: u8)
        ensures
            r == self.spec_to_u8(),
    {
        match self {
            PsProtectedSigner::Unsigned => 0,
            PsProtectedSigner::Authenticode => 1,
            PsProtectedSigner::CodeGen => 2,
            PsProtectedSigner::Antimalware => 3,
            PsProtectedSigner::Lsa => 4,
            PsProtectedSigner::Windows => 5,
            PsProtectedSigner::WinTcb => 6,
            PsProtectedSigner::WinSystem => 7,
            PsProtectedSigner::App => 8,
            PsProtectedSigner::Unknown => 0xF0,
        }
    }
}

/// The protection of a process, one byte of three fields: the type in bits 0
/// to 2, the audit flag in bit 3, the signer in bits 4 to 7.
#[derive(Copy, Clone, Debug)]
pub struct PsProtection {
    pub value: [u8; 1],
}

/// What setting a field of a protection byte keeps: the other bits stay, and
/// the field reads back as what was written, cut to the width of the field.
proof fn lemma_protection_fields(old: u8, v: u8)
    by (bit_vector)
    ensures
        ((old & 0xF8) | (v & 0x07)) & 0x07 == v & 0x07,
        ((old & 0xF8) | (v & 0x07)) >> 4 == old >> 4,
        ((old & 0xF8) | (v & 0x07)) & 0x08 == old & 0x08,
        ((old & 0x0F) | ((v & 0x0F) << 4)) >> 4 == v & 0x0F,
        ((old & 0x0F) | ((v & 0x0F) << 4)) & 0x07 == old & 0x07,
        ((old & 0x0F) | ((v & 0x0F) << 4)) & 0x08 == old & 0x08,
        (old | 0x08) & 0x08 != 0,
        (old | 0x08) & 0x07 == old & 0x07,
        (old | 0x08) >> 4 == old >> 4,
        (old & 0xF7) & 0x08 == 0,
        (old & 0xF7) & 0x07 == old & 0x07,
        (old & 0xF7) >> 4 == old >> 4,
        v & 0x07 <= 7,
        v & 0x0F <= 15,
        old >> 4 <= 15,
{
}

impl PsProtection {
    /// The byte.
    pub open spec fn byte(&self) -> u8 {
        self.value@[0]
    }

    /// The type field: bits 0 to 2.
    pub open spec fn spec_type(&self) -> u8 {
        self.byte() & 0x07
    }

    /// The audit flag: bit 3.
    pub open spec fn spec_audit(&self) -> bool {
        self.byte() & 0x08 != 0
    }

    /// The signer field: bits 4 to 7.
    pub open spec fn spec_signer(&self) -> u8 {
        self.byte() >> 4
    }

    /// The type field.
    #[allow(non_snake_case)]
    pub fn Type(&self) -> (r: u8)
        ensures
            r == self.spec_type(),
            r <= 7,
    {
        proof {
            lemma_protection_fields(0, self.value@[0]);
        }
        self.value[0] & 0x07
    }

    /// The audit flag.
    #[allow(non_snake_case)]
    pub fn Audit(&self) -> (r: bool)
        ensures
            r == self.spec_audit(),
    {
        self.value[0] & 0x08 != 0
    }

    /// The signer field.
    #[allow(non_snake_case)]
    pub fn Signer(&self) -> (r: u8)
        ensures
            r == self.spec_signer(),
            r <= 15,
    {
        proof {
            lemma_protection_fields(self.value@[0], 0);
        }
        self.value[0] >> 4
    }

    /// Sets the type field to the low three bits of `v`; the rest stays.
    #[allow(non_snake_case)]
    pub fn set_Type(&mut self, v: u8)
        ensures
            final(self).spec_type() == v & 0x07,
            final(self).spec_audit() == old(self).spec_audit(),
            final(self).spec_signer() == old(self).spec_signer(),
            final(self).byte() == (old(self).byte() & 0xF8) | (v & 0x07),
    {
        proof {
            lemma_protection_fields(self.value@[0], v);
        }
        self.value = [(self.value[0] & 0xF8) | (v & 0x07)];
    }

    /// Sets or clears the audit flag; the rest stays.
    #[allow(non_snake_case)]
    pub fn set_Audit(&mut self, v: bool)
        ensures
            final(self).spec_audit() == v,
            final(self).spec_type() == old(self).spec_type(),
            final(self).spec_signer() == old(self).spec_signer(),
    {
        proof {
            lemma_protection_fields(self.value@[0], 0);
        }
        if v {
            self.value = [self.value[0] | 0x08];
        } else {
            self.value = [self.value[0] & 0xF7];
        }
    }

    /// Sets the signer field to the low four bits of `v`; the rest stays.
    #[allow(non_snake_case)]
    pub fn set_Signer(&mut self, v: u8)
        ensures
            final(self).spec_signer() == v & 0x0F,
            final(self).spec_audit() == old(self).spec_audit(),
            final(self).spec_type() == old(self).spec_type(),
            final(self).byte() == (old(self).byte() & 0x0F) | ((v & 0x0F) << 4),
    {
        proof {
            lemma_protection_fields(self.value@[0], v);
        }
        self.value = [(self.value[0] & 0x0F) | ((v & 0x0F) << 4)];
    }

    /// The signer that the signer field stands for.
    #[allow(non_snake_case)]
    pub fn SignerEnum(&self) -> (r: PsProtectedSigner)
        ensures
            r == PsProtectedSigner::spec_from_u8(self.spec_signer()),
    {
        PsProtectedSigner::from_u8(self.Signer())
    }

    /// The type that the type field stands for.
    #[allow(non_snake_case)]
    pub fn TypeEnum(&self) -> (r: PsProtectedType)
        ensures
            r == PsProtectedType::spec_from_u8(self.spec_type()),
    {
        PsProtectedType::from_u8(self.Type())
    }
}

impl Pod for PsProtection {
    open spec fn size_of() -> nat {
        1
    }

    open spec fn decodes(b: Seq<u8>, v: Self) -> bool {
        v.value@ == b.subrange(0, 1)
    }

    proof fn lemma_decodes_unique(b: Seq<u8>, v: Self, w: Self) {
        assert(v.value =~= w.value);
    }

    fn size() -> (n: usize) {
        1
    }

    fn from_bytes(b: &[u8]) -> (v: Self) {
        let v = PsProtection { value: [get_u8(b, 0)] };
        assert(v.value@ =~= b@.subrange(0, 1));
        v
    }
}

/// The kernel's record of a process: 0x850 bytes.
/// Ranges of the record that are reserved or opaque are not decoded.
#[allow(non_snake_case)]
#[derive(Clone, Copy, Debug)]
pub struct EPROCESS {
    /// Offset 0.
    pub Pcb: KPROCESS,
    /// Offset 0x2d8.
    pub ProcessLock: u64,
    /// Offset 0x2e0.
    pub UniqueProcessId: u64,
    /// Offset 0x2e8.
    pub ActiveProcessLinks: ListEntry,
    /// Offset 0x2f8.
    pub RundownProtect: u64,
    /// Offset 0x300.
    pub Flags2: u32,
    /// Offset 0x304.
    pub Flags: u32,
    /// Offset 0x308.
    pub CreateTime: u64,
    /// Offset 0x310.
    pub ProcessQuotaUsage: [u64; 2],
    /// Offset 0x320.
    pub ProcessQuotaPeak: [u64; 2],
    /// Offset 0x330.
    pub PeakVirtualSize: u64,
    /// Offset 0x338.
    pub VirtualSize: u64,
    /// Offset 0x340.
    pub SessionProcessLinks: ListEntry,
    /// Offset 0x350.
    pub ExceptionPortData: u64,
    /// Offset 0x358.
    pub Token: u64,
    /// Offset 0x360.
    pub MmReserved: u64,
    /// Offset 0x368.
    pub AddressCreationLock: u64,
    /// Offset 0x370.
    pub PageTableCommitmentLock: u64,
    /// Offset 0x378.
    pub RotateInProgress: u64,
    /// Offset 0x380.
    pub ForkInProgress: u64,
    /// Offset 0x388.
    pub CommitChargeJob: u64,
    /// Offset 0x390.
    pub CloneRoot: u64,
    /// Offset 0x398.
    pub NumberOfPrivatePages: u64,
    /// Offset 0x3a0.
    pub NumberOfLockedPages: u64,
    /// Offset 0x3a8.
    pub Win32Process: u64,
    /// Offset 0x3b0.
    pub Job: u64,
    /// Offset 0x3b8.
    pub SectionObject: u64,
    /// Offset 0x3c0.
    pub SectionBaseAddress: u64,
    /// Offset 0x3c8.
    pub Cookie: u32,
    /// Offset 0x3d0.
    pub WorkingSetWatch: u64,
    /// Offset 0x3d8.
    pub Win32WindowStation: u64,
    /// Offset 0x3e0.
    pub InheritedFromUniqueProcessId: u64,
    /// Offset 0x3e8.
    pub Spare0: u64,
    /// Offset 0x3f0.
    pub OwnerProcessId: u64,
    /// Offset 0x3f8.
    pub Peb: u64,
    /// Offset 0x400.
    pub Session: u64,
    /// Offset 0x408.
    pub Spare1: u64,
    /// Offset 0x410.
    pub QuotaBlock: u64,
    /// Offset 0x418.
    pub ObjectTable: u64,
    /// Offset 0x420.
    pub DebugPort: u64,
    /// Offset 0x428.
    pub WoW64Process: u64,
    /// Offset 0x430.
    pub DeviceMap: u64,
    /// Offset 0x438.
    pub EtwDataSource: u64,
    /// Offset 0x440.
    pub PageDirectoryPte: u64,
    /// Offset 0x448.
    pub ImageFilePointer: u64,
    /// Offset 0x450.
    pub ImageFileName: [u8; 15],
    /// Offset 0x45f.
    pub PriorityClass: u8,
    /// Offset 0x460.
    pub SecurityPort: u64,
    /// Offset 0x468.
    pub SeAuditProcessCreationInfo: u64,
    /// Offset 0x470.
    pub JobLinks: ListEntry,
    /// Offset 0x480.
    pub HighestUserAddress: u64,
    /// Offset 0x488.
    pub ThreadListHead: ListEntry,
    /// Offset 0x498.
    pub ActiveThreads: u32,
    /// Offset 0x49c.
    pub ImagePathHash: u32,
    /// Offset 0x4a0.
    pub DefaultHardErrorProcessing: u32,
    /// Offset 0x4a4.
    pub LastThreadExitStatus: u32,
    /// Offset 0x4a8.
    pub PrefetchTrace: u64,
    /// Offset 0x4b0.
    pub LockedPagesList: u64,
    /// Offset 0x4b8.
    pub ReadOperationCount: u64,
    /// Offset 0x4c0.
    pub WriteOperationCount: u64,
    /// Offset 0x4c8.
    pub OtherOperationCount: u64,
    /// Offset 0x4d0.
    pub ReadTransferCount: u64,
    /// Offset 0x4d8.
    pub WriteTransferCount: u64,
    /// Offset 0x4e0.
    pub OtherTransferCount: u64,
    /// Offset 0x4e8.
    pub CommitChargeLimit: u64,
    /// Offset 0x4f0.
    pub CommitCharge: u64,
    /// Offset 0x4f8.
    pub CommitChargePeak: u64,
    /// Offset 0x610.
    pub MmProcessLinks: ListEntry,
    /// Offset 0x620.
    pub ModifiedPageCount: u32,
    /// Offset 0x624.
    pub ExitStatus: u32,
    /// Offset 0x628.
    pub VadRoot: u64,
    /// Offset 0x630.
    pub VadHint: u64,
    /// Offset 0x638.
    pub VadCount: u64,
    /// Offset 0x640.
    pub VadPhysicalPages: u64,
    /// Offset 0x648.
    pub VadPhysicalPagesLimit: u64,
    /// Offset 0x670.
    pub TimerResolutionLink: ListEntry,
    /// Offset 0x680.
    pub TimerResolutionStackRecord: u64,
    /// Offset 0x688.
    pub RequestedTimerResolution: u32,
    /// Offset 0x68c.
    pub SmallestTimerResolution: u32,
    /// Offset 0x690.
    pub ExitTime: u64,
    /// Offset 0x698.
    pub InvertedFunctionTable: u64,
    /// Offset 0x6a0.
    pub InvertedFunctionTableLock: u64,
    /// Offset 0x6a8.
    pub ActiveThreadsHighWatermark: u32,
    /// Offset 0x6ac.
    pub LargePrivateVadCount: u32,
    /// Offset 0x6b0.
    pub ThreadListLock: u64,
    /// Offset 0x6b8.
    pub WnfContext: u64,
    /// Offset 0x6c0.
    pub ServerSilo: u64,
    /// Offset 0x6c8.
    pub SignatureLevel: u8,
    /// Offset 0x6c9.
    pub SectionSignatureLevel: u8,
    /// Offset 0x6ca.
    pub Protection: PsProtection,
    /// Offset 0x6cb.
    pub HangOrGhostCountAndPrefilterException: u8,
    /// Offset 0x6cc.
    pub Flags3: u32,
    /// Offset 0x6d0.
    pub DeviceAsid: u32,
    /// Offset 0x6d8.
    pub SvmData: u64,
    /// Offset 0x6e0.
    pub SvmProcessLock: u64,
    /// Offset 0x6e8.
    pub SvmLock: u64,
    /// Offset 0x6f0.
    pub SvmProcessDeviceListHead: ListEntry,
    /// Offset 0x700.
    pub LastFreezeInterruptTime: u64,
    /// Offset 0x708.
    pub DiskCounters: u64,
    /// Offset 0x710.
    pub PicoContext: u64,
    /// Offset 0x718.
    pub EnclaveTable: u64,
    /// Offset 0x720.
    pub EnclaveNumber: u64,
    /// Offset 0x728.
    pub EnclaveLock: u64,
    /// Offset 0x730.
    pub HighPriorityFaultsAllowed: u32,
    /// Offset 0x738.
    pub EnergyContext: u64,
    /// Offset 0x740.
    pub VmContext: u64,
    /// Offset 0x748.
    pub SequenceNumber: u64,
    /// Offset 0x750.
    pub CreateInterruptTime: u64,
    /// Offset 0x758.
    pub CreateUnbiasedInterruptTime: u64,
    /// Offset 0x760.
    pub TotalUnbiasedFrozenTime: u64,
    /// Offset 0x768.
    pub LastAppStateUpdateTime: u64,
    /// Offset 0x770.
    pub LastAppStateUptimeAndState: u64,
    /// Offset 0x778.
    pub SharedCommitCharge: u64,
    /// Offset 0x780.
    pub SharedCommitLock: u64,
    /// Offset 0x788.
    pub SharedCommitLinks: ListEntry,
    /// Offset 0x798.
    pub AllowedCpuSets: u64,
    /// Offset 0x7a0.
    pub DefaultCpuSets: u64,
    /// Offset 0x7a8.
    pub DiskIoAttribution: u64,
    /// Offset 0x7b0.
    pub DxgProcess: u64,
    /// Offset 0x7b8.
    pub Win32KFilterSet: u32,
    /// Offset 0x7c0.
    pub ProcessTimerDelay: u64,
    /// Offset 0x7c8.
    pub KTimerSets: u32,
    /// Offset 0x7cc.
    pub KTimer2Sets: u32,
    /// Offset 0x7d0.
    pub ThreadTimerSets: u32,
    /// Offset 0x7d8.
    pub VirtualTimerListLock: u64,
    /// Offset 0x7e0.
    pub VirtualTimerListHead: ListEntry,
    /// Offset 0x820.
    pub MitigationFlags: u32,
    /// Offset 0x824.
    pub MitigationFlags2: u32,
    /// Offset 0x828.
    pub PartitionObject: u64,
    /// Offset 0x830.
    pub SecurityDomain: u64,
    /// Offset 0x838.
    pub ParentSecurityDomain: u64,
    /// Offset 0x840.
    pub CoverageSamplerContext: u64,
    /// Offset 0x848.
    pub MmHotPatchContext: u64,
}

impl Pod for EPROCESS {
    open spec fn size_of() -> nat {
        0x850
    }

    open spec fn decodes(b: Seq<u8>, v: Self) -> bool {
        &&& KPROCESS::decodes(b.skip(0), v.Pcb)
        &&& v.ProcessLock == u64_at(b, 0x2d8)
        &&& v.UniqueProcessId == u64_at(b, 0x2e0)
        &&& ListEntry::decodes(b.skip(0x2e8), v.ActiveProcessLinks)
        &&& v.RundownProtect == u64_at(b, 0x2f8)
        &&& v.Flags2 == u32_at(b, 0x300)
        &&& v.Flags == u32_at(b, 0x304)
        &&& v.CreateTime == u64_at(b, 0x308)
        &&& v.ProcessQuotaUsage@ == u64s_at(b, 0x310, 2)
        &&& v.ProcessQuotaPeak@ == u64s_at(b, 0x320, 2)
        &&& v.PeakVirtualSize == u64_at(b, 0x330)
        &&& v.VirtualSize == u64_at(b, 0x338)
        &&& ListEntry::decodes(b.skip(0x340), v.SessionProcessLinks)
        &&& v.ExceptionPortData == u64_at(b, 0x350)
        &&& v.Token == u64_at(b, 0x358)
        &&& v.MmReserved == u64_at(b, 0x360)
        &&& v.AddressCreationLock == u64_at(b, 0x368)
        &&& v.PageTableCommitmentLock == u64_at(b, 0x370)
        &&& v.RotateInProgress == u64_at(b, 0x378)
        &&& v.ForkInProgress == u64_at(b, 0x380)
        &&& v.CommitChargeJob == u64_at(b, 0x388)
        &&& v.CloneRoot == u64_at(b, 0x390)
        &&& v.NumberOfPrivatePages == u64_at(b, 0x398)
        &&& v.NumberOfLockedPages == u64_at(b, 0x3a0)
        &&& v.Win32Process == u64_at(b, 0x3a8)
        &&& v.Job == u64_at(b, 0x3b0)
        &&& v.SectionObject == u64_at(b, 0x3b8)
        &&& v.SectionBaseAddress == u64_at(b, 0x3c0)
        &&& v.Cookie == u32_at(b, 0x3c8)
        &&& v.WorkingSetWatch == u64_at(b, 0x3d0)
        &&& v.Win32WindowStation == u64_at(b, 0x3d8)
        &&& v.InheritedFromUniqueProcessId == u64_at(b, 0x3e0)
        &&& v.Spare0 == u64_at(b, 0x3e8)
        &&& v.OwnerProcessId == u64_at(b, 0x3f0)
        &&& v.Peb == u64_at(b, 0x3f8)
        &&& v.Session == u64_at(b, 0x400)
        &&& v.Spare1 == u64_at(b, 0x408)
        &&& v.QuotaBlock == u64_at(b, 0x410)
        &&& v.ObjectTable == u64_at(b, 0x418)
        &&& v.DebugPort == u64_at(b, 0x420)
        &&& v.WoW64Process == u64_at(b, 0x428)
        &&& v.DeviceMap == u64_at(b, 0x430)
        &&& v.EtwDataSource == u64_at(b, 0x438)
        &&& v.PageDirectoryPte == u64_at(b, 0x440)
        &&& v.ImageFilePointer == u64_at(b, 0x448)
        &&& v.ImageFileName@ == b.subrange(0x450, 0x45f)
        &&& v.PriorityClass == b[0x45f]
        &&& v.SecurityPort == u64_at(b, 0x460)
        &&& v.SeAuditProcessCreationInfo == u64_at(b, 0x468)
        &&& ListEntry::decodes(b.skip(0x470), v.JobLinks)
        &&& v.HighestUserAddress == u64_at(b, 0x480)
        &&& ListEntry::decodes(b.skip(0x488), v.ThreadListHead)
        &&& v.ActiveThreads == u32_at(b, 0x498)
        &&& v.ImagePathHash == u32_at(b, 0x49c)
        &&& v.DefaultHardErrorProcessing == u32_at(b, 0x4a0)
        &&& v.LastThreadExitStatus == u32_at(b, 0x4a4)
        &&& v.PrefetchTrace == u64_at(b, 0x4a8)
        &&& v.LockedPagesList == u64_at(b, 0x4b0)
        &&& v.ReadOperationCount == u64_at(b, 0x4b8)
        &&& v.WriteOperationCount == u64_at(b, 0x4c0)
        &&& v.OtherOperationCount == u64_at(b, 0x4c8)
        &&& v.ReadTransferCount == u64_at(b, 0x4d0)
        &&& v.WriteTransferCount == u64_at(b, 0x4d8)
        &&& v.OtherTransferCount == u64_at(b, 0x4e0)
        &&& v.CommitChargeLimit == u64_at(b, 0x4e8)
        &&& v.CommitCharge == u64_at(b, 0x4f0)
        &&& v.CommitChargePeak == u64_at(b, 0x4f8)
        &&& ListEntry::decodes(b.skip(0x610), v.MmProcessLinks)
        &&& v.ModifiedPageCount == u32_at(b, 0x620)
        &&& v.ExitStatus == u32_at(b, 0x624)
        &&& v.VadRoot == u64_at(b, 0x628)
        &&& v.VadHint == u64_at(b, 0x630)
        &&& v.VadCount == u64_at(b, 0x638)
        &&& v.VadPhysicalPages == u64_at(b, 0x640)
        &&& v.VadPhysicalPagesLimit == u64_at(b, 0x648)
        &&& ListEntry::decodes(b.skip(0x670), v.TimerResolutionLink)
        &&& v.TimerResolutionStackRecord == u64_at(b, 0x680)
        &&& v.RequestedTimerResolution == u32_at(b, 0x688)
        &&& v.SmallestTimerResolution == u32_at(b, 0x68c)
        &&& v.ExitTime == u64_at(b, 0x690)
        &&& v.InvertedFunctionTable == u64_at(b, 0x698)
        &&& v.InvertedFunctionTableLock == u64_at(b, 0x6a0)
        &&& v.ActiveThreadsHighWatermark == u32_at(b, 0x6a8)
        &&& v.LargePrivateVadCount == u32_at(b, 0x6ac)
        &&& v.ThreadListLock == u64_at(b, 0x6b0)
        &&& v.WnfContext == u64_at(b, 0x6b8)
        &&& v.ServerSilo == u64_at(b, 0x6c0)
        &&& v.SignatureLevel == b[0x6c8]
        &&& v.SectionSignatureLevel == b[0x6c9]
        &&& PsProtection::decodes(b.skip(0x6ca), v.Protection)
        &&& v.HangOrGhostCountAndPrefilterException == b[0x6cb]
        &&& v.Flags3 == u32_at(b, 0x6cc)
        &&& v.DeviceAsid == u32_at(b, 0x6d0)
        &&& v.SvmData == u64_at(b, 0x6d8)
        &&& v.SvmProcessLock == u64_at(b, 0x6e0)
        &&& v.SvmLock == u64_at(b, 0x6e8)
        &&& ListEntry::decodes(b.skip(0x6f0), v.SvmProcessDeviceListHead)
        &&& v.LastFreezeInterruptTime == u64_at(b, 0x700)
        &&& v.DiskCounters == u64_at(b, 0x708)
        &&& v.PicoContext == u64_at(b, 0x710)
        &&& v.EnclaveTable == u64_at(b, 0x718)
        &&& v.EnclaveNumber == u64_at(b, 0x720)
        &&& v.EnclaveLock == u64_at(b, 0x728)
        &&& v.HighPriorityFaultsAllowed == u32_at(b, 0x730)
        &&& v.EnergyContext == u64_at(b, 0x738)
        &&& v.VmContext == u64_at(b, 0x740)
        &&& v.SequenceNumber == u64_at(b, 0x748)
        &&& v.CreateInterruptTime == u64_at(b, 0x750)
        &&& v.CreateUnbiasedInterruptTime == u64_at(b, 0x758)
        &&& v.TotalUnbiasedFrozenTime == u64_at(b, 0x760)
        &&& v.LastAppStateUpdateTime == u64_at(b, 0x768)
        &&& v.LastAppStateUptimeAndState == u64_at(b, 0x770)
        &&& v.SharedCommitCharge == u64_at(b, 0x778)
        &&& v.SharedCommitLock == u64_at(b, 0x780)
        &&& ListEntry::decodes(b.skip(0x788), v.SharedCommitLinks)
        &&& v.AllowedCpuSets == u64_at(b, 0x798)
        &&& v.DefaultCpuSets == u64_at(b, 0x7a0)
        &&& v.DiskIoAttribution == u64_at(b, 0x7a8)
        &&& v.DxgProcess == u64_at(b, 0x7b0)
        &&& v.Win32KFilterSet == u32_at(b, 0x7b8)
        &&& v.ProcessTimerDelay == u64_at(b, 0x7c0)
        &&& v.KTimerSets == u32_at(b, 0x7c8)
        &&& v.KTimer2Sets == u32_at(b, 0x7cc)
        &&& v.ThreadTimerSets == u32_at(b, 0x7d0)
        &&& v.VirtualTimerListLock == u64_at(b, 0x7d8)
        &&& ListEntry::decodes(b.skip(0x7e0), v.VirtualTimerListHead)
        &&& v.MitigationFlags == u32_at(b, 0x820)
        &&& v.MitigationFlags2 == u32_at(b, 0x824)
        &&& v.PartitionObject == u64_at(b, 0x828)
        &&& v.SecurityDomain == u64_at(b, 0x830)
        &&& v.ParentSecurityDomain == u64_at(b, 0x838)
        &&& v.CoverageSamplerContext == u64_at(b, 0x840)
        &&& v.MmHotPatchContext == u64_at(b, 0x848)
    }

    proof fn lemma_decodes_unique(b: Seq<u8>, v: Self, w: Self) {
        KPROCESS::lemma_decodes_unique(b.skip(0), v.Pcb, w.Pcb);
        ListEntry::lemma_decodes_unique(b.skip(0x2e8), v.ActiveProcessLinks, w.ActiveProcessLinks);
        assert(v.ProcessQuotaUsage =~= w.ProcessQuotaUsage);
        assert(v.ProcessQuotaPeak =~= w.ProcessQuotaPeak);
        ListEntry::lemma_decodes_unique(b.skip(0x340), v.SessionProcessLinks, w.SessionProcessLinks);
        assert(v.ImageFileName =~= w.ImageFileName);
        ListEntry::lemma_decodes_unique(b.skip(0x470), v.JobLinks, w.JobLinks);
        ListEntry::lemma_decodes_unique(b.skip(0x488), v.ThreadListHead, w.ThreadListHead);
        ListEntry::lemma_decodes_unique(b.skip(0x610), v.MmProcessLinks, w.MmProcessLinks);
        ListEntry::lemma_decodes_unique(b.skip(0x670), v.TimerResolutionLink, w.TimerResolutionLink);
        PsProtection::lemma_decodes_unique(b.skip(0x6ca), v.Protection, w.Protection);
        ListEntry::lemma_decodes_unique(b.skip(0x6f0), v.SvmProcessDeviceListHead, w.SvmProcessDeviceListHead);
        ListEntry::lemma_decodes_unique(b.skip(0x788), v.SharedCommitLinks, w.SharedCommitLinks);
        ListEntry::lemma_decodes_unique(b.skip(0x7e0), v.VirtualTimerListHead, w.VirtualTimerListHead);
    }

    fn size() -> (n: usize) {
        0x850
    }

    #[verifier::rlimit(60)]
    fn from_bytes(b: &[u8]) -> (v: Self) {
        EPROCESS {
            Pcb: KPROCESS::from_bytes(slice_subrange(b, 0, b.len())),
            ProcessLock: get_u64(b, 0x2d8),
            UniqueProcessId: get_u64(b, 0x2e0),
            ActiveProcessLinks: ListEntry::from_bytes(slice_subrange(b, 0x2e8, b.len())),
            RundownProtect: get_u64(b, 0x2f8),
            Flags2: get_u32(b, 0x300),
            Flags: get_u32(b, 0x304),
            CreateTime: get_u64(b, 0x308),
            ProcessQuotaUsage: get_u64s(b, 0x310),
            ProcessQuotaPeak: get_u64s(b, 0x320),
            PeakVirtualSize: get_u64(b, 0x330),
            VirtualSize: get_u64(b, 0x338),
            SessionProcessLinks: ListEntry::from_bytes(slice_subrange(b, 0x340, b.len())),
            ExceptionPortData: get_u64(b, 0x350),
            Token: get_u64(b, 0x358),
            MmReserved: get_u64(b, 0x360),
            AddressCreationLock: get_u64(b, 0x368),
            PageTableCommitmentLock: get_u64(b, 0x370),
            RotateInProgress: get_u64(b, 0x378),
            ForkInProgress: get_u64(b, 0x380),
            CommitChargeJob: get_u64(b, 0x388),
            CloneRoot: get_u64(b, 0x390),
            NumberOfPrivatePages: get_u64(b, 0x398),
            NumberOfLockedPages: get_u64(b, 0x3a0),
            Win32Process: get_u64(b, 0x3a8),
            Job: get_u64(b, 0x3b0),
            SectionObject: get_u64(b, 0x3b8),
            SectionBaseAddress: get_u64(b, 0x3c0),
            Cookie: get_u32(b, 0x3c8),
            WorkingSetWatch: get_u64(b, 0x3d0),
            Win32WindowStation: get_u64(b, 0x3d8),
            InheritedFromUniqueProcessId: get_u64(b, 0x3e0),
            Spare0: get_u64(b, 0x3e8),
            OwnerProcessId: get_u64(b, 0x3f0),
            Peb: get_u64(b, 0x3f8),
            Session: get_u64(b, 0x400),
            Spare1: get_u64(b, 0x408),
            QuotaBlock: get_u64(b, 0x410),
            ObjectTable: get_u64(b, 0x418),
            DebugPort: get_u64(b, 0x420),
            WoW64Process: get_u64(b, 0x428),
            DeviceMap: get_u64(b, 0x430),
            EtwDataSource: get_u64(b, 0x438),
            PageDirectoryPte: get_u64(b, 0x440),
            ImageFilePointer: get_u64(b, 0x448),
            ImageFileName: get_u8s(b, 0x450),
            PriorityClass: get_u8(b, 0x45f),
            SecurityPort: get_u64(b, 0x460),
            SeAuditProcessCreationInfo: get_u64(b, 0x468),
            JobLinks: ListEntry::from_bytes(slice_subrange(b, 0x470, b.len())),
            HighestUserAddress: get_u64(b, 0x480),
            ThreadListHead: ListEntry::from_bytes(slice_subrange(b, 0x488, b.len())),
            ActiveThreads: get_u32(b, 0x498),
            ImagePathHash: get_u32(b, 0x49c),
            DefaultHardErrorProcessing: get_u32(b, 0x4a0),
            LastThreadExitStatus: get_u32(b, 0x4a4),
            PrefetchTrace: get_u64(b, 0x4a8),
            LockedPagesList: get_u64(b, 0x4b0),
            ReadOperationCount: get_u64(b, 0x4b8),
            WriteOperationCount: get_u64(b, 0x4c0),
            OtherOperationCount: get_u64(b, 0x4c8),
            ReadTransferCount: get_u64(b, 0x4d0),
            WriteTransferCount: get_u64(b, 0x4d8),
            OtherTransferCount: get_u64(b, 0x4e0),
            CommitChargeLimit: get_u64(b, 0x4e8),
            CommitCharge: get_u64(b, 0x4f0),
            CommitChargePeak: get_u64(b, 0x4f8),
            MmProcessLinks: ListEntry::from_bytes(slice_subrange(b, 0x610, b.len())),
            ModifiedPageCount: get_u32(b, 0x620),
            ExitStatus: get_u32(b, 0x624),
            VadRoot: get_u64(b, 0x628),
            VadHint: get_u64(b, 0x630),
            VadCount: get_u64(b, 0x638),
            VadPhysicalPages: get_u64(b, 0x640),
            VadPhysicalPagesLimit: get_u64(b, 0x648),
            TimerResolutionLink: ListEntry::from_bytes(slice_subrange(b, 0x670, b.len())),
            TimerResolutionStackRecord: get_u64(b, 0x680),
            RequestedTimerResolution: get_u32(b, 0x688),
            SmallestTimerResolution: get_u32(b, 0x68c),
            ExitTime: get_u64(b, 0x690),
            InvertedFunctionTable: get_u64(b, 0x698),
            InvertedFunctionTableLock: get_u64(b, 0x6a0),
            ActiveThreadsHighWatermark: get_u32(b, 0x6a8),
            LargePrivateVadCount: get_u32(b, 0x6ac),
            ThreadListLock: get_u64(b, 0x6b0),
            WnfContext: get_u64(b, 0x6b8),
            ServerSilo: get_u64(b, 0x6c0),
            SignatureLevel: get_u8(b, 0x6c8),
            SectionSignatureLevel: get_u8(b, 0x6c9),
            Protection: PsProtection::from_bytes(slice_subrange(b, 0x6ca, b.len())),
            HangOrGhostCountAndPrefilterException: get_u8(b, 0x6cb),
            Flags3: get_u32(b, 0x6cc),
            DeviceAsid: get_u32(b, 0x6d0),
            SvmData: get_u64(b, 0x6d8),
            SvmProcessLock: get_u64(b, 0x6e0),
            SvmLock: get_u64(b, 0x6e8),
            SvmProcessDeviceListHead: ListEntry::from_bytes(slice_subrange(b, 0x6f0, b.len())),
            LastFreezeInterruptTime: get_u64(b, 0x700),
            DiskCounters: get_u64(b, 0x708),
            PicoContext: get_u64(b, 0x710),
            EnclaveTable: get_u64(b, 0x718),
            EnclaveNumber: get_u64(b, 0x720),
            EnclaveLock: get_u64(b, 0x728),
            HighPriorityFaultsAllowed: get_u32(b, 0x730),
            EnergyContext: get_u64(b, 0x738),
            VmContext: get_u64(b, 0x740),
            SequenceNumber: get_u64(b, 0x748),
            CreateInterruptTime: get_u64(b, 0x750),
            CreateUnbiasedInterruptTime: get_u64(b, 0x758),
            TotalUnbiasedFrozenTime: get_u64(b, 0x760),
            LastAppStateUpdateTime: get_u64(b, 0x768),
            LastAppStateUptimeAndState: get_u64(b, 0x770),
            SharedCommitCharge: get_u64(b, 0x778),
            SharedCommitLock: get_u64(b, 0x780),
            SharedCommitLinks: ListEntry::from_bytes(slice_subrange(b, 0x788, b.len())),
            AllowedCpuSets: get_u64(b, 0x798),
            DefaultCpuSets: get_u64(b, 0x7a0),
            DiskIoAttribution: get_u64(b, 0x7a8),
            DxgProcess: get_u64(b, 0x7b0),
            Win32KFilterSet: get_u32(b, 0x7b8),
            ProcessTimerDelay: get_u64(b, 0x7c0),
            KTimerSets: get_u32(b, 0x7c8),
            KTimer2Sets: get_u32(b, 0x7cc),
            ThreadTimerSets: get_u32(b, 0x7d0),
            VirtualTimerListLock: get_u64(b, 0x7d8),
            VirtualTimerListHead: ListEntry::from_bytes(slice_subrange(b, 0x7e0, b.len())),
            MitigationFlags: get_u32(b, 0x820),
            MitigationFlags2: get_u32(b, 0x824),
            PartitionObject: get_u64(b, 0x828),
            SecurityDomain: get_u64(b, 0x830),
            ParentSecurityDomain: get_u64(b, 0x838),
            CoverageSamplerContext: get_u64(b, 0x840),
            MmHotPatchContext: get_u64(b, 0x848),
        }
    }
}

/// The scheduler's part of a process record, the head of `EPROCESS`: 0x2d8 bytes.
/// Ranges of the record that are reserved or opaque are not decoded.
#[allow(non_snake_case)]
#[derive(Clone, Copy, Debug)]
pub struct KPROCESS {
    /// Offset 0x18.
    pub ProfileListHead: ListEntry,
    /// Offset 0x28.
    pub DirectoryTableBase: u64,
    /// Offset 0x30.
    pub ThreadListHead: ListEntry,
    /// Offset 0x40.
    pub ProcessLock: u32,
    /// Offset 0x44.
    pub ProcessTimerDelay: u32,
    /// Offset 0x48.
    pub DeepFreezeStartTime: u64,
    /// Offset 0xf8.
    pub ReadyListHead: ListEntry,
    /// Offset 0x108.
    pub SwapListEntry: SingleListEntry,
    /// Offset 0x1b8.
    pub ProcessFlags: u32,
    /// Offset 0x1bc.
    pub BasePriority: u8,
    /// Offset 0x1bd.
    pub QuantumReset: u8,
    /// Offset 0x1be.
    pub Visited: u8,
    /// Offset 0x1bf.
    pub Flags: u8,
    /// Offset 0x238.
    pub IdealGlobalNode: u16,
    /// Offset 0x23a.
    pub Spare1: u16,
    /// Offset 0x23c.
    pub StackCount: u32,
    /// Offset 0x240.
    pub ProcessListEntry: ListEntry,
    /// Offset 0x250.
    pub CycleTime: u64,
    /// Offset 0x258.
    pub ContextSwitches: u64,
    /// Offset 0x260.
    pub SchedulingGroup: u64,
    /// Offset 0x268.
    pub FreezeCount: u32,
    /// Offset 0x26c.
    pub KernelTime: u32,
    /// Offset 0x270.
    pub UserTime: u32,
    /// Offset 0x274.
    pub ReadyTime: u32,
    /// Offset 0x278.
    pub UserDirectoryTableBase: u64,
    /// Offset 0x280.
    pub AddressPolicy: u8,
    /// Offset 0x2c8.
    pub InstrumentationCallback: u64,
    /// Offset 0x2d0.
    pub SecureState: u64,
}

impl Pod for KPROCESS {
    open spec fn size_of() -> nat {
        0x2d8
    }

    open spec fn decodes(b: Seq<u8>, v: Self) -> bool {
        &&& ListEntry::decodes(b.skip(0x18), v.ProfileListHead)
        &&& v.DirectoryTableBase == u64_at(b, 0x28)
        &&& ListEntry::decodes(b.skip(0x30), v.ThreadListHead)
        &&& v.ProcessLock == u32_at(b, 0x40)
        &&& v.ProcessTimerDelay == u32_at(b, 0x44)
        &&& v.DeepFreezeStartTime == u64_at(b, 0x48)
        &&& ListEntry::decodes(b.skip(0xf8), v.ReadyListHead)
        &&& SingleListEntry::decodes(b.skip(0x108), v.SwapListEntry)
        &&& v.ProcessFlags == u32_at(b, 0x1b8)
        &&& v.BasePriority == b[0x1bc]
        &&& v.QuantumReset == b[0x1bd]
        &&& v.Visited == b[0x1be]
        &&& v.Flags == b[0x1bf]
        &&& v.IdealGlobalNode == u16_at(b, 0x238)
        &&& v.Spare1 == u16_at(b, 0x23a)
        &&& v.StackCount == u32_at(b, 0x23c)
        &&& ListEntry::decodes(b.skip(0x240), v.ProcessListEntry)
        &&& v.CycleTime == u64_at(b, 0x250)
        &&& v.ContextSwitches == u64_at(b, 0x258)
        &&& v.SchedulingGroup == u64_at(b, 0x260)
        &&& v.FreezeCount == u32_at(b, 0x268)
        &&& v.KernelTime == u32_at(b, 0x26c)
        &&& v.UserTime == u32_at(b, 0x270)
        &&& v.ReadyTime == u32_at(b, 0x274)
        &&& v.UserDirectoryTableBase == u64_at(b, 0x278)
        &&& v.AddressPolicy == b[0x280]
        &&& v.InstrumentationCallback == u64_at(b, 0x2c8)
        &&& v.SecureState == u64_at(b, 0x2d0)
    }

    proof fn lemma_decodes_unique(b: Seq<u8>, v: Self, w: Self) {
        ListEntry::lemma_decodes_unique(b.skip(0x18), v.ProfileListHead, w.ProfileListHead);
        ListEntry::lemma_decodes_unique(b.skip(0x30), v.ThreadListHead, w.ThreadListHead);
        ListEntry::lemma_decodes_unique(b.skip(0xf8), v.ReadyListHead, w.ReadyListHead);
        SingleListEntry::lemma_decodes_unique(b.skip(0x108), v.SwapListEntry, w.SwapListEntry);
        ListEntry::lemma_decodes_unique(b.skip(0x240), v.ProcessListEntry, w.ProcessListEntry);
    }

    fn size() -> (n: usize) {
        0x2d8
    }

    fn from_bytes(b: &[u8]) -> (v: Self) {
        KPROCESS {
            ProfileListHead: ListEntry::from_bytes(slice_subrange(b, 0x18, b.len())),
            DirectoryTableBase: get_u64(b, 0x28),
            ThreadListHead: ListEntry::from_bytes(slice_subrange(b, 0x30, b.len())),
            ProcessLock: get_u32(b, 0x40),
            ProcessTimerDelay: get_u32(b, 0x44),
            DeepFreezeStartTime: get_u64(b, 0x48),
            ReadyListHead: ListEntry::from_bytes(slice_subrange(b, 0xf8, b.len())),
            SwapListEntry: SingleListEntry::from_bytes(slice_subrange(b, 0x108, b.len())),
            ProcessFlags: get_u32(b, 0x1b8),
            BasePriority: get_u8(b, 0x1bc),
            QuantumReset: get_u8(b, 0x1bd),
            Visited: get_u8(b, 0x1be),
            Flags: get_u8(b, 0x1bf),
            IdealGlobalNode: get_u16(b, 0x238),
            Spare1: get_u16(b, 0x23a),
            StackCount: get_u32(b, 0x23c),
            ProcessListEntry: ListEntry::from_bytes(slice_subrange(b, 0x240, b.len())),
            CycleTime: get_u64(b, 0x250),
            ContextSwitches: get_u64(b, 0x258),
            SchedulingGroup: get_u64(b, 0x260),
            FreezeCount: get_u32(b, 0x268),
            KernelTime: get_u32(b, 0x26c),
            UserTime: get_u32(b, 0x270),
            ReadyTime: get_u32(b, 0x274),
            UserDirectoryTableBase: get_u64(b, 0x278),
            AddressPolicy: get_u8(b, 0x280),
            InstrumentationCallback: get_u64(b, 0x2c8),
            SecureState: get_u64(b, 0x2d0),
        }
    }
}

} // verus!
