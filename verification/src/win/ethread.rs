//! The kernel's records of threads and of loaded kernel modules.

use crate::bytes::{
    decoded, get_u16, get_u32, get_u64, get_u8, get_u8s, u16_at, u32_at, u64_at, Pod,
};
use crate::win::list_entry::{ListEntry, SingleListEntry};
use crate::win::misc::GroupAffinity;
use crate::win::unicode_string::UnicodeString;
use vstd::prelude::*;
use vstd::slice::slice_subrange;

verus! {

/// Offset of the thread list entry in the scheduler's part of a thread record.
pub const KTHREAD_THREAD_LIST_OFFSET: u64 = 0x2f8;

/// Offset of the thread list entry in a thread record.
pub const ETHREAD_THREAD_LIST_OFFSET: u64 = 0x6a8;

/// The scheduler's part of a thread record, the head of `ETHREAD`: 0x5f0 bytes.
/// Ranges of the record that are reserved or opaque are not decoded.
#[allow(non_snake_case)]
#[derive(Clone, Copy, Debug)]
pub struct KTHREAD {
    /// Offset 0x18.
    pub SListFaultAddress: u64,
    /// Offset 0x20.
    pub QuantumTarget: u64,
    /// Offset 0x28.
    pub InitialStack: u64,
    /// Offset 0x30.
    pub StackLimit: u64,
    /// Offset 0x38.
    pub StackBase: u64,
    /// Offset 0x40.
    pub ThreadLock: u64,
    /// Offset 0x48.
    pub CycleTime: u64,
    /// Offset 0x50.
    pub CurrentRunTime: u32,
    /// Offset 0x54.
    pub ExpectedRunTime: u32,
    /// Offset 0x58.
    pub KernelStack: u64,
    /// Offset 0x60.
    pub StateSaveArea: u64,
    /// Offset 0x68.
    pub SchedulingGroup: u64,
    /// Offset 0x70.
    pub WaitRegister: u8,
    /// Offset 0x71.
    pub Running: u8,
    /// Offset 0x72.
    pub Alerted: u16,
    /// Offset 0x74.
    pub MiscFlags: i32,
    /// Offset 0x78.
    pub ThreadFlags: i32,
    /// Offset 0x7c.
    pub Tag: u8,
    /// Offset 0x7d.
    pub SystemHeteroCpuPolicy: u8,
    /// Offset 0x7e.
    pub UserHeteroCpuPolicy: u8,
    /// Offset 0x7f.
    pub SpecCtrl: u8,
    /// Offset 0x80.
    pub SystemCallNumber: u32,
    /// Offset 0x84.
    pub ReadyTime: u32,
    /// Offset 0x88.
    pub FirstArgument: u64,
    /// Offset 0x90.
    pub TrapFrame: u64,
    /// Offset 0xc8.
    pub WaitStatus: i64,
    /// Offset 0xd0.
    pub WaitBlockList: u64,
    /// Offset 0xd8.
    pub WaitListEntry: ListEntry,
    /// Offset 0xe8.
    pub Queue: u64,
    /// Offset 0xf0.
    pub Teb: u64,
    /// Offset 0xf8.
    pub RelativeTimerBias: u64,
    /// Offset 0x200.
    pub Spare21: u64,
    /// Offset 0x208.
    pub QueueListEntry: ListEntry,
    /// Offset 0x218.
    pub NextProcessor: u32,
    /// Offset 0x21c.
    pub QueuePriority: i32,
    /// Offset 0x220.
    pub Process: u64,
    /// Offset 0x228.
    pub UserAffinity: GroupAffinity,
    /// Offset 0x238.
    pub AffinityVersion: u64,
    /// Offset 0x240.
    pub Affinity: GroupAffinity,
    /// Offset 0x250.
    pub NpxState: u64,
    /// Offset 0x2f8.
    pub ThreadListEntry: ListEntry,
    /// Offset 0x308.
    pub MutantListHead: ListEntry,
    /// Offset 0x318.
    pub AbEntrySummary: u8,
    /// Offset 0x319.
    pub AbWaitEntryCount: u8,
    /// Offset 0x31a.
    pub AbAllocationRegionCount: u8,
    /// Offset 0x31b.
    pub SystemPriority: u8,
    /// Offset 0x31c.
    pub SecureThreadCookie: u32,
    /// Offset 0x560.
    pub PropagateBoostsEntry: SingleListEntry,
    /// Offset 0x568.
    pub IoSelfBoostsEntry: SingleListEntry,
    /// Offset 0x570.
    pub PriorityFloorCounts: [u8; 16],
    /// Offset 0x580.
    pub PriorityFloorSummary: u32,
    /// Offset 0x584.
    pub AbCompletedIoBoostCount: i32,
    /// Offset 0x588.
    pub AbCompletedIoQoSBoostCount: i32,
    /// Offset 0x58c.
    pub KeReferenceCount: i16,
    /// Offset 0x58e.
    pub AbOrphanedEntrySummary: u8,
    /// Offset 0x58f.
    pub AbOwnedEntryCount: u8,
    /// Offset 0x590.
    pub ForegroundLossTime: u32,
    /// Offset 0x598.
    pub GlobalForegroundListEntry: ListEntry,
    /// Offset 0x5a8.
    pub ReadOperationCount: u64,
    /// Offset 0x5b0.
    pub WriteOperationCount: u64,
    /// Offset 0x5b8.
    pub OtherOperationCount: u64,
    /// Offset 0x5c0.
    pub ReadTransferCount: u64,
    /// Offset 0x5c8.
    pub WriteTransferCount: u64,
    /// Offset 0x5d0.
    pub OtherTransferCount: u64,
    /// Offset 0x5d8.
    pub QueuedScb: u64,
    /// Offset 0x5e0.
    pub ThreadTimerDelay: u32,
    /// Offset 0x5e4.
    pub ThreadFlags2: u32,
    /// Offset 0x5e8.
    pub SchedulerAssist: u64,
}

impl Pod for KTHREAD {
    open spec fn size_of() -> nat {
        0x5f0
    }

    open spec fn decodes(b: Seq<u8>, v: Self) -> bool {
        &&& v.SListFaultAddress == u64_at(b, 0x18)
        &&& v.QuantumTarget == u64_at(b, 0x20)
        &&& v.InitialStack == u64_at(b, 0x28)
        &&& v.StackLimit == u64_at(b, 0x30)
        &&& v.StackBase == u64_at(b, 0x38)
        &&& v.ThreadLock == u64_at(b, 0x40)
        &&& v.CycleTime == u64_at(b, 0x48)
        &&& v.CurrentRunTime == u32_at(b, 0x50)
        &&& v.ExpectedRunTime == u32_at(b, 0x54)
        &&& v.KernelStack == u64_at(b, 0x58)
        &&& v.StateSaveArea == u64_at(b, 0x60)
        &&& v.SchedulingGroup == u64_at(b, 0x68)
        &&& v.WaitRegister == b[0x70]
        &&& v.Running == b[0x71]
        &&& v.Alerted == u16_at(b, 0x72)
        &&& v.MiscFlags == u32_at(b, 0x74) as i32
        &&& v.ThreadFlags == u32_at(b, 0x78) as i32
        &&& v.Tag == b[0x7c]
        &&& v.SystemHeteroCpuPolicy == b[0x7d]
        &&& v.UserHeteroCpuPolicy == b[0x7e]
        &&& v.SpecCtrl == b[0x7f]
        &&& v.SystemCallNumber == u32_at(b, 0x80)
        &&& v.ReadyTime == u32_at(b, 0x84)
        &&& v.FirstArgument == u64_at(b, 0x88)
        &&& v.TrapFrame == u64_at(b, 0x90)
        &&& v.WaitStatus == u64_at(b, 0xc8) as i64
        &&& v.WaitBlockList == u64_at(b, 0xd0)
        &&& ListEntry::decodes(b.skip(0xd8), v.WaitListEntry)
        &&& v.Queue == u64_at(b, 0xe8)
        &&& v.Teb == u64_at(b, 0xf0)
        &&& v.RelativeTimerBias == u64_at(b, 0xf8)
        &&& v.Spare21 == u64_at(b, 0x200)
        &&& ListEntry::decodes(b.skip(0x208), v.QueueListEntry)
        &&& v.NextProcessor == u32_at(b, 0x218)
        &&& v.QueuePriority == u32_at(b, 0x21c) as i32
        &&& v.Process == u64_at(b, 0x220)
        &&& GroupAffinity::decodes(b.skip(0x228), v.UserAffinity)
        &&& v.AffinityVersion == u64_at(b, 0x238)
        &&& GroupAffinity::decodes(b.skip(0x240), v.Affinity)
        &&& v.NpxState == u64_at(b, 0x250)
        &&& ListEntry::decodes(b.skip(0x2f8), v.ThreadListEntry)
        &&& ListEntry::decodes(b.skip(0x308), v.MutantListHead)
        &&& v.AbEntrySummary == b[0x318]
        &&& v.AbWaitEntryCount == b[0x319]
        &&& v.AbAllocationRegionCount == b[0x31a]
        &&& v.SystemPriority == b[0x31b]
        &&& v.SecureThreadCookie == u32_at(b, 0x31c)
        &&& SingleListEntry::decodes(b.skip(0x560), v.PropagateBoostsEntry)
        &&& SingleListEntry::decodes(b.skip(0x568), v.IoSelfBoostsEntry)
        &&& v.PriorityFloorCounts@ == b.subrange(0x570, 0x580)
        &&& v.PriorityFloorSummary == u32_at(b, 0x580)
        &&& v.AbCompletedIoBoostCount == u32_at(b, 0x584) as i32
        &&& v.AbCompletedIoQoSBoostCount == u32_at(b, 0x588) as i32
        &&& v.KeReferenceCount == u16_at(b, 0x58c) as i16
        &&& v.AbOrphanedEntrySummary == b[0x58e]
        &&& v.AbOwnedEntryCount == b[0x58f]
        &&& v.ForegroundLossTime == u32_at(b, 0x590)
        &&& ListEntry::decodes(b.skip(0x598), v.GlobalForegroundListEntry)
        &&& v.ReadOperationCount == u64_at(b, 0x5a8)
        &&& v.WriteOperationCount == u64_at(b, 0x5b0)
        &&& v.OtherOperationCount == u64_at(b, 0x5b8)
        &&& v.ReadTransferCount == u64_at(b, 0x5c0)
        &&& v.WriteTransferCount == u64_at(b, 0x5c8)
        &&& v.OtherTransferCount == u64_at(b, 0x5d0)
        &&& v.QueuedScb == u64_at(b, 0x5d8)
        &&& v.ThreadTimerDelay == u32_at(b, 0x5e0)
        &&& v.ThreadFlags2 == u32_at(b, 0x5e4)
        &&& v.SchedulerAssist == u64_at(b, 0x5e8)
    }

    proof fn lemma_decodes_unique(b: Seq<u8>, v: Self, w: Self) {
        ListEntry::lemma_decodes_unique(b.skip(0xd8), v.WaitListEntry, w.WaitListEntry);
        ListEntry::lemma_decodes_unique(b.skip(0x208), v.QueueListEntry, w.QueueListEntry);
        GroupAffinity::lemma_decodes_unique(b.skip(0x228), v.UserAffinity, w.UserAffinity);
        GroupAffinity::lemma_decodes_unique(b.skip(0x240), v.Affinity, w.Affinity);
        ListEntry::lemma_decodes_unique(b.skip(0x2f8), v.ThreadListEntry, w.ThreadListEntry);
        ListEntry::lemma_decodes_unique(b.skip(0x308), v.MutantListHead, w.MutantListHead);
        SingleListEntry::lemma_decodes_unique(b.skip(0x560), v.PropagateBoostsEntry, w.PropagateBoostsEntry);
        SingleListEntry::lemma_decodes_unique(b.skip(0x568), v.IoSelfBoostsEntry, w.IoSelfBoostsEntry);
        assert(v.PriorityFloorCounts =~= w.PriorityFloorCounts);
        ListEntry::lemma_decodes_unique(b.skip(0x598), v.GlobalForegroundListEntry, w.GlobalForegroundListEntry);
    }

    fn size() -> (n: usize) {
        0x5f0
    }

    fn from_bytes(b: &[u8]) -> (v: Self) {
        KTHREAD {
            SListFaultAddress: get_u64(b, 0x18),
            QuantumTarget: get_u64(b, 0x20),
            InitialStack: get_u64(b, 0x28),
            StackLimit: get_u64(b, 0x30),
            StackBase: get_u64(b, 0x38),
            ThreadLock: get_u64(b, 0x40),
            CycleTime: get_u64(b, 0x48),
            CurrentRunTime: get_u32(b, 0x50),
            ExpectedRunTime: get_u32(b, 0x54),
            KernelStack: get_u64(b, 0x58),
            StateSaveArea: get_u64(b, 0x60),
            SchedulingGroup: get_u64(b, 0x68),
            WaitRegister: get_u8(b, 0x70),
            Running: get_u8(b, 0x71),
            Alerted: get_u16(b, 0x72),
            MiscFlags: #[verifier::truncate] (get_u32(b, 0x74) as i32),
            ThreadFlags: #[verifier::truncate] (get_u32(b, 0x78) as i32),
            Tag: get_u8(b, 0x7c),
            SystemHeteroCpuPolicy: get_u8(b, 0x7d),
            UserHeteroCpuPolicy: get_u8(b, 0x7e),
            SpecCtrl: get_u8(b, 0x7f),
            SystemCallNumber: get_u32(b, 0x80),
            ReadyTime: get_u32(b, 0x84),
            FirstArgument: get_u64(b, 0x88),
            TrapFrame: get_u64(b, 0x90),
            WaitStatus: #[verifier::truncate] (get_u64(b, 0xc8) as i64),
            WaitBlockList: get_u64(b, 0xd0),
            WaitListEntry: ListEntry::from_bytes(slice_subrange(b, 0xd8, b.len())),
            Queue: get_u64(b, 0xe8),
            Teb: get_u64(b, 0xf0),
            RelativeTimerBias: get_u64(b, 0xf8),
            Spare21: get_u64(b, 0x200),
            QueueListEntry: ListEntry::from_bytes(slice_subrange(b, 0x208, b.len())),
            NextProcessor: get_u32(b, 0x218),
            QueuePriority: #[verifier::truncate] (get_u32(b, 0x21c) as i32),
            Process: get_u64(b, 0x220),
            UserAffinity: GroupAffinity::from_bytes(slice_subrange(b, 0x228, b.len())),
            AffinityVersion: get_u64(b, 0x238),
            Affinity: GroupAffinity::from_bytes(slice_subrange(b, 0x240, b.len())),
            NpxState: get_u64(b, 0x250),
            ThreadListEntry: ListEntry::from_bytes(slice_subrange(b, 0x2f8, b.len())),
            MutantListHead: ListEntry::from_bytes(slice_subrange(b, 0x308, b.len())),
            AbEntrySummary: get_u8(b, 0x318),
            AbWaitEntryCount: get_u8(b, 0x319),
            AbAllocationRegionCount: get_u8(b, 0x31a),
            SystemPriority: get_u8(b, 0x31b),
            SecureThreadCookie: get_u32(b, 0x31c),
            PropagateBoostsEntry: SingleListEntry::from_bytes(slice_subrange(b, 0x560, b.len())),
            IoSelfBoostsEntry: SingleListEntry::from_bytes(slice_subrange(b, 0x568, b.len())),
            PriorityFloorCounts: get_u8s(b, 0x570),
            PriorityFloorSummary: get_u32(b, 0x580),
            AbCompletedIoBoostCount: #[verifier::truncate] (get_u32(b, 0x584) as i32),
            AbCompletedIoQoSBoostCount: #[verifier::truncate] (get_u32(b, 0x588) as i32),
            KeReferenceCount: #[verifier::truncate] (get_u16(b, 0x58c) as i16),
            AbOrphanedEntrySummary: get_u8(b, 0x58e),
            AbOwnedEntryCount: get_u8(b, 0x58f),
            ForegroundLossTime: get_u32(b, 0x590),
            GlobalForegroundListEntry: ListEntry::from_bytes(slice_subrange(b, 0x598, b.len())),
            ReadOperationCount: get_u64(b, 0x5a8),
            WriteOperationCount: get_u64(b, 0x5b0),
            OtherOperationCount: get_u64(b, 0x5b8),
            ReadTransferCount: get_u64(b, 0x5c0),
            WriteTransferCount: get_u64(b, 0x5c8),
            OtherTransferCount: get_u64(b, 0x5d0),
            QueuedScb: get_u64(b, 0x5d8),
            ThreadTimerDelay: get_u32(b, 0x5e0),
            ThreadFlags2: get_u32(b, 0x5e4),
            SchedulerAssist: get_u64(b, 0x5e8),
        }
    }
}

/// The kernel's record of a thread: 0x810 bytes.
/// Ranges of the record that are reserved or opaque are not decoded.
#[allow(non_snake_case)]
#[derive(Clone, Copy, Debug)]
pub struct ETHREAD {
    /// Offset 0.
    pub Tcb: KTHREAD,
    /// Offset 0x5f0.
    pub CreateTime: u64,
    /// Offset 0x5f8.
    pub ExitTimeOrKeyedWaitChain: [u8; 16],
    /// Offset 0x608.
    pub PostBlockList: ListEntry,
    /// Offset 0x618.
    pub TerminationPort: u64,
    /// Offset 0x620.
    pub ActiveTimerListLock: u64,
    /// Offset 0x628.
    pub ActiveTimerListHead: ListEntry,
    /// Offset 0x638.
    pub CidUniqueProcess: u64,
    /// Offset 0x640.
    pub CidUniqueThread: u64,
    /// Offset 0x668.
    pub ClientSecurity: u64,
    /// Offset 0x670.
    pub IrpList: ListEntry,
    /// Offset 0x680.
    pub TopLevelIrp: u64,
    /// Offset 0x688.
    pub DeviceToVerify: u64,
    /// Offset 0x690.
    pub Win32StartAddress: u64,
    /// Offset 0x698.
    pub ChargeOnlySession: u64,
    /// Offset 0x6a0.
    pub LegacyPowerObject: u64,
    /// Offset 0x6a8.
    pub ThreadListEntry: ListEntry,
    /// Offset 0x6b8.
    pub RundownProtect: u64,
    /// Offset 0x6c0.
    pub ThreadLock: u64,
    /// Offset 0x6c8.
    pub ReadClusterSize: u32,
    /// Offset 0x6cc.
    pub MmLockOrdering: i32,
    /// Offset 0x6d0.
    pub CrossThreadFlags: u32,
    /// Offset 0x6d4.
    pub SameThreadPassiveFlags: u32,
    /// Offset 0x6d8.
    pub SameThreadApcFlags: u32,
    /// Offset 0x6dc.
    pub CacheManagerActive: u8,
    /// Offset 0x6dd.
    pub DisablePageFaultClustering: u8,
    /// Offset 0x6de.
    pub ActiveFaultCount: u8,
    /// Offset 0x6df.
    pub LockOrderState: u8,
    /// Offset 0x6e0.
    pub AlpcMessageId: u64,
    /// Offset 0x6e8.
    pub AlpcMessage: u64,
    /// Offset 0x6f0.
    pub AlpcWaitListEntry: ListEntry,
    /// Offset 0x700.
    pub ExitStatus: i32,
    /// Offset 0x704.
    pub CacheManagerCount: u32,
    /// Offset 0x708.
    pub IoBoostCount: u32,
    /// Offset 0x70c.
    pub IoQoSBoostCount: u32,
    /// Offset 0x710.
    pub IoQoSThrottleCount: u32,
    /// Offset 0x714.
    pub KernelStackReference: u32,
    /// Offset 0x718.
    pub BoostList: ListEntry,
    /// Offset 0x728.
    pub DeboostList: ListEntry,
    /// Offset 0x738.
    pub BoostListLock: u64,
    /// Offset 0x740.
    pub IrpListLock: u64,
    /// Offset 0x748.
    pub ReservedForSynchTracking: u64,
    /// Offset 0x750.
    pub CmCallbackListHead: SingleListEntry,
    /// Offset 0x758.
    pub ActivityId: u64,
    /// Offset 0x760.
    pub SeLearningModeListHead: SingleListEntry,
    /// Offset 0x768.
    pub VerifierContext: u64,
    /// Offset 0x770.
    pub AdjustedClientToken: u64,
    /// Offset 0x778.
    pub WorkOnBehalfThread: u64,
    /// Offset 0x798.
    pub PicoContext: u64,
    /// Offset 0x7a0.
    pub UserFsBase: u64,
    /// Offset 0x7a8.
    pub UserGsBase: u64,
    /// Offset 0x7b0.
    pub EnergyValues: u64,
    /// Offset 0x7b8.
    pub CmDbgInfo: u64,
    /// Offset 0x7c0.
    pub SelectedCpuSetsOrIndirect: u64,
    /// Offset 0x7c8.
    pub Silo: u64,
    /// Offset 0x7d0.
    pub ThreadName: u64,
    /// Offset 0x7d8.
    pub SetContextState: u64,
    /// Offset 0x7e0.
    pub LastExpectedRunTime: u32,
    /// Offset 0x7e4.
    pub HeapData: u32,
    /// Offset 0x7e8.
    pub OwnerEntryListHead: ListEntry,
    /// Offset 0x7f8.
    pub DisownedOwnerEntryListLock: u64,
    /// Offset 0x800.
    pub DisownedOwnerEntryListHead: ListEntry,
}

impl Pod for ETHREAD {
    open spec fn size_of() -> nat {
        0x810
    }

    open spec fn decodes(b: Seq<u8>, v: Self) -> bool {
        &&& KTHREAD::decodes(b.skip(0), v.Tcb)
        &&& v.CreateTime == u64_at(b, 0x5f0)
        &&& v.ExitTimeOrKeyedWaitChain@ == b.subrange(0x5f8, 0x608)
        &&& ListEntry::decodes(b.skip(0x608), v.PostBlockList)
        &&& v.TerminationPort == u64_at(b, 0x618)
        &&& v.ActiveTimerListLock == u64_at(b, 0x620)
        &&& ListEntry::decodes(b.skip(0x628), v.ActiveTimerListHead)
        &&& v.CidUniqueProcess == u64_at(b, 0x638)
        &&& v.CidUniqueThread == u64_at(b, 0x640)
        &&& v.ClientSecurity == u64_at(b, 0x668)
        &&& ListEntry::decodes(b.skip(0x670), v.IrpList)
        &&& v.TopLevelIrp == u64_at(b, 0x680)
        &&& v.DeviceToVerify == u64_at(b, 0x688)
        &&& v.Win32StartAddress == u64_at(b, 0x690)
        &&& v.ChargeOnlySession == u64_at(b, 0x698)
        &&& v.LegacyPowerObject == u64_at(b, 0x6a0)
        &&& ListEntry::decodes(b.skip(0x6a8), v.ThreadListEntry)
        &&& v.RundownProtect == u64_at(b, 0x6b8)
        &&& v.ThreadLock == u64_at(b, 0x6c0)
        &&& v.ReadClusterSize == u32_at(b, 0x6c8)
        &&& v.MmLockOrdering == u32_at(b, 0x6cc) as i32
        &&& v.CrossThreadFlags == u32_at(b, 0x6d0)
        &&& v.SameThreadPassiveFlags == u32_at(b, 0x6d4)
        &&& v.SameThreadApcFlags == u32_at(b, 0x6d8)
        &&& v.CacheManagerActive == b[0x6dc]
        &&& v.DisablePageFaultClustering == b[0x6dd]
        &&& v.ActiveFaultCount == b[0x6de]
        &&& v.LockOrderState == b[0x6df]
        &&& v.AlpcMessageId == u64_at(b, 0x6e0)
        &&& v.AlpcMessage == u64_at(b, 0x6e8)
        &&& ListEntry::decodes(b.skip(0x6f0), v.AlpcWaitListEntry)
        &&& v.ExitStatus == u32_at(b, 0x700) as i32
        &&& v.CacheManagerCount == u32_at(b, 0x704)
        &&& v.IoBoostCount == u32_at(b, 0x708)
        &&& v.IoQoSBoostCount == u32_at(b, 0x70c)
        &&& v.IoQoSThrottleCount == u32_at(b, 0x710)
        &&& v.KernelStackReference == u32_at(b, 0x714)
        &&& ListEntry::decodes(b.skip(0x718), v.BoostList)
        &&& ListEntry::decodes(b.skip(0x728), v.DeboostList)
        &&& v.BoostListLock == u64_at(b, 0x738)
        &&& v.IrpListLock == u64_at(b, 0x740)
        &&& v.ReservedForSynchTracking == u64_at(b, 0x748)
        &&& SingleListEntry::decodes(b.skip(0x750), v.CmCallbackListHead)
        &&& v.ActivityId == u64_at(b, 0x758)
        &&& SingleListEntry::decodes(b.skip(0x760), v.SeLearningModeListHead)
        &&& v.VerifierContext == u64_at(b, 0x768)
        &&& v.AdjustedClientToken == u64_at(b, 0x770)
        &&& v.WorkOnBehalfThread == u64_at(b, 0x778)
        &&& v.PicoContext == u64_at(b, 0x798)
        &&& v.UserFsBase == u64_at(b, 0x7a0)
        &&& v.UserGsBase == u64_at(b, 0x7a8)
        &&& v.EnergyValues == u64_at(b, 0x7b0)
        &&& v.CmDbgInfo == u64_at(b, 0x7b8)
        &&& v.SelectedCpuSetsOrIndirect == u64_at(b, 0x7c0)
        &&& v.Silo == u64_at(b, 0x7c8)
        &&& v.ThreadName == u64_at(b, 0x7d0)
        &&& v.SetContextState == u64_at(b, 0x7d8)
        &&& v.LastExpectedRunTime == u32_at(b, 0x7e0)
        &&& v.HeapData == u32_at(b, 0x7e4)
        &&& ListEntry::decodes(b.skip(0x7e8), v.OwnerEntryListHead)
        &&& v.DisownedOwnerEntryListLock == u64_at(b, 0x7f8)
        &&& ListEntry::decodes(b.skip(0x800), v.DisownedOwnerEntryListHead)
    }

    proof fn lemma_decodes_unique(b: Seq<u8>, v: Self, w: Self) {
        KTHREAD::lemma_decodes_unique(b.skip(0), v.Tcb, w.Tcb);
        assert(v.ExitTimeOrKeyedWaitChain =~= w.ExitTimeOrKeyedWaitChain);
        ListEntry::lemma_decodes_unique(b.skip(0x608), v.PostBlockList, w.PostBlockList);
        ListEntry::lemma_decodes_unique(b.skip(0x628), v.ActiveTimerListHead, w.ActiveTimerListHead);
        ListEntry::lemma_decodes_unique(b.skip(0x670), v.IrpList, w.IrpList);
        ListEntry::lemma_decodes_unique(b.skip(0x6a8), v.ThreadListEntry, w.ThreadListEntry);
        ListEntry::lemma_decodes_unique(b.skip(0x6f0), v.AlpcWaitListEntry, w.AlpcWaitListEntry);
        ListEntry::lemma_decodes_unique(b.skip(0x718), v.BoostList, w.BoostList);
        ListEntry::lemma_decodes_unique(b.skip(0x728), v.DeboostList, w.DeboostList);
        SingleListEntry::lemma_decodes_unique(b.skip(0x750), v.CmCallbackListHead, w.CmCallbackListHead);
        SingleListEntry::lemma_decodes_unique(b.skip(0x760), v.SeLearningModeListHead, w.SeLearningModeListHead);
        ListEntry::lemma_decodes_unique(b.skip(0x7e8), v.OwnerEntryListHead, w.OwnerEntryListHead);
        ListEntry::lemma_decodes_unique(b.skip(0x800), v.DisownedOwnerEntryListHead, w.DisownedOwnerEntryListHead);
    }

    fn size() -> (n: usize) {
        0x810
    }

    fn from_bytes(b: &[u8]) -> (v: Self) {
        ETHREAD {
            Tcb: KTHREAD::from_bytes(slice_subrange(b, 0, b.len())),
            CreateTime: get_u64(b, 0x5f0),
            ExitTimeOrKeyedWaitChain: get_u8s(b, 0x5f8),
            PostBlockList: ListEntry::from_bytes(slice_subrange(b, 0x608, b.len())),
            TerminationPort: get_u64(b, 0x618),
            ActiveTimerListLock: get_u64(b, 0x620),
            ActiveTimerListHead: ListEntry::from_bytes(slice_subrange(b, 0x628, b.len())),
            CidUniqueProcess: get_u64(b, 0x638),
            CidUniqueThread: get_u64(b, 0x640),
            ClientSecurity: get_u64(b, 0x668),
            IrpList: ListEntry::from_bytes(slice_subrange(b, 0x670, b.len())),
            TopLevelIrp: get_u64(b, 0x680),
            DeviceToVerify: get_u64(b, 0x688),
            Win32StartAddress: get_u64(b, 0x690),
            ChargeOnlySession: get_u64(b, 0x698),
            LegacyPowerObject: get_u64(b, 0x6a0),
            ThreadListEntry: ListEntry::from_bytes(slice_subrange(b, 0x6a8, b.len())),
            RundownProtect: get_u64(b, 0x6b8),
            ThreadLock: get_u64(b, 0x6c0),
            ReadClusterSize: get_u32(b, 0x6c8),
            MmLockOrdering: #[verifier::truncate] (get_u32(b, 0x6cc) as i32),
            CrossThreadFlags: get_u32(b, 0x6d0),
            SameThreadPassiveFlags: get_u32(b, 0x6d4),
            SameThreadApcFlags: get_u32(b, 0x6d8),
            CacheManagerActive: get_u8(b, 0x6dc),
            DisablePageFaultClustering: get_u8(b, 0x6dd),
            ActiveFaultCount: get_u8(b, 0x6de),
            LockOrderState: get_u8(b, 0x6df),
            AlpcMessageId: get_u64(b, 0x6e0),
            AlpcMessage: get_u64(b, 0x6e8),
            AlpcWaitListEntry: ListEntry::from_bytes(slice_subrange(b, 0x6f0, b.len())),
            ExitStatus: #[verifier::truncate] (get_u32(b, 0x700) as i32),
            CacheManagerCount: get_u32(b, 0x704),
            IoBoostCount: get_u32(b, 0x708),
            IoQoSBoostCount: get_u32(b, 0x70c),
            IoQoSThrottleCount: get_u32(b, 0x710),
            KernelStackReference: get_u32(b, 0x714),
            BoostList: ListEntry::from_bytes(slice_subrange(b, 0x718, b.len())),
            DeboostList: ListEntry::from_bytes(slice_subrange(b, 0x728, b.len())),
            BoostListLock: get_u64(b, 0x738),
            IrpListLock: get_u64(b, 0x740),
            ReservedForSynchTracking: get_u64(b, 0x748),
            CmCallbackListHead: SingleListEntry::from_bytes(slice_subrange(b, 0x750, b.len())),
            ActivityId: get_u64(b, 0x758),
            SeLearningModeListHead: SingleListEntry::from_bytes(slice_subrange(b, 0x760, b.len())),
            VerifierContext: get_u64(b, 0x768),
            AdjustedClientToken: get_u64(b, 0x770),
            WorkOnBehalfThread: get_u64(b, 0x778),
            PicoContext: get_u64(b, 0x798),
            UserFsBase: get_u64(b, 0x7a0),
            UserGsBase: get_u64(b, 0x7a8),
            EnergyValues: get_u64(b, 0x7b0),
            CmDbgInfo: get_u64(b, 0x7b8),
            SelectedCpuSetsOrIndirect: get_u64(b, 0x7c0),
            Silo: get_u64(b, 0x7c8),
            ThreadName: get_u64(b, 0x7d0),
            SetContextState: get_u64(b, 0x7d8),
            LastExpectedRunTime: get_u32(b, 0x7e0),
            HeapData: get_u32(b, 0x7e4),
            OwnerEntryListHead: ListEntry::from_bytes(slice_subrange(b, 0x7e8, b.len())),
            DisownedOwnerEntryListLock: get_u64(b, 0x7f8),
            DisownedOwnerEntryListHead: ListEntry::from_bytes(slice_subrange(b, 0x800, b.len())),
        }
    }
}

/// The kernel loader's record of a loaded kernel module: 0xa0 bytes.
#[allow(non_snake_case)]
#[derive(Clone, Copy, Debug)]
pub struct KldrDataTableEntry {
    /// Offset 0.
    pub InLoadOrderLinks: ListEntry,
    /// Offset 0x10.
    pub ExceptionTable: u64,
    /// Offset 0x18.
    pub ExceptionTableSize: u32,
    /// Offset 0x20.
    pub GpValue: u64,
    /// Offset 0x28.
    pub NonPagedDebugInfo: u64,
    /// Offset 0x30.
    pub DllBase: u64,
    /// Offset 0x38.
    pub EntryPoint: u64,
    /// Offset 0x40.
    pub SizeOfImage: u32,
    /// Offset 0x48.
    pub FullDllName: UnicodeString,
    /// Offset 0x58.
    pub BaseDllName: UnicodeString,
    /// Offset 0x68.
    pub Flags: u32,
    /// Offset 0x6c.
    pub LoadCount: u16,
    /// Offset 0x6e.
    pub SignatureLevel: u16,
    /// Offset 0x70.
    pub SectionPointer: u64,
    /// Offset 0x78.
    pub CheckSum: u32,
    /// Offset 0x7c.
    pub CoverageSectionSize: u32,
    /// Offset 0x80.
    pub CoverageSection: u64,
    /// Offset 0x88.
    pub LoadedImports: u64,
    /// Offset 0x90.
    pub Spare: u64,
    /// Offset 0x98.
    pub SizeOfImageNotRounded: u32,
    /// Offset 0x9c.
    pub TimeDateStamp: u32,
}

impl Pod for KldrDataTableEntry {
    open spec fn size_of() -> nat {
        0xa0
    }

    open spec fn decodes(b: Seq<u8>, v: Self) -> bool {
        &&& ListEntry::decodes(b.skip(0), v.InLoadOrderLinks)
        &&& v.ExceptionTable == u64_at(b, 0x10)
        &&& v.ExceptionTableSize == u32_at(b, 0x18)
        &&& v.GpValue == u64_at(b, 0x20)
        &&& v.NonPagedDebugInfo == u64_at(b, 0x28)
        &&& v.DllBase == u64_at(b, 0x30)
        &&& v.EntryPoint == u64_at(b, 0x38)
        &&& v.SizeOfImage == u32_at(b, 0x40)
        &&& UnicodeString::decodes(b.skip(0x48), v.FullDllName)
        &&& UnicodeString::decodes(b.skip(0x58), v.BaseDllName)
        &&& v.Flags == u32_at(b, 0x68)
        &&& v.LoadCount == u16_at(b, 0x6c)
        &&& v.SignatureLevel == u16_at(b, 0x6e)
        &&& v.SectionPointer == u64_at(b, 0x70)
        &&& v.CheckSum == u32_at(b, 0x78)
        &&& v.CoverageSectionSize == u32_at(b, 0x7c)
        &&& v.CoverageSection == u64_at(b, 0x80)
        &&& v.LoadedImports == u64_at(b, 0x88)
        &&& v.Spare == u64_at(b, 0x90)
        &&& v.SizeOfImageNotRounded == u32_at(b, 0x98)
        &&& v.TimeDateStamp == u32_at(b, 0x9c)
    }

    proof fn lemma_decodes_unique(b: Seq<u8>, v: Self, w: Self) {
        ListEntry::lemma_decodes_unique(b.skip(0), v.InLoadOrderLinks, w.InLoadOrderLinks);
        UnicodeString::lemma_decodes_unique(b.skip(0x48), v.FullDllName, w.FullDllName);
        UnicodeString::lemma_decodes_unique(b.skip(0x58), v.BaseDllName, w.BaseDllName);
    }

    fn size() -> (n: usize) {
        0xa0
    }

    fn from_bytes(b: &[u8]) -> (v: Self) {
        KldrDataTableEntry {
            InLoadOrderLinks: ListEntry::from_bytes(slice_subrange(b, 0, b.len())),
            ExceptionTable: get_u64(b, 0x10),
            ExceptionTableSize: get_u32(b, 0x18),
            GpValue: get_u64(b, 0x20),
            NonPagedDebugInfo: get_u64(b, 0x28),
            DllBase: get_u64(b, 0x30),
            EntryPoint: get_u64(b, 0x38),
            SizeOfImage: get_u32(b, 0x40),
            FullDllName: UnicodeString::from_bytes(slice_subrange(b, 0x48, b.len())),
            BaseDllName: UnicodeString::from_bytes(slice_subrange(b, 0x58, b.len())),
            Flags: get_u32(b, 0x68),
            LoadCount: get_u16(b, 0x6c),
            SignatureLevel: get_u16(b, 0x6e),
            SectionPointer: get_u64(b, 0x70),
            CheckSum: get_u32(b, 0x78),
            CoverageSectionSize: get_u32(b, 0x7c),
            CoverageSection: get_u64(b, 0x80),
            LoadedImports: get_u64(b, 0x88),
            Spare: get_u64(b, 0x90),
            SizeOfImageNotRounded: get_u32(b, 0x98),
            TimeDateStamp: get_u32(b, 0x9c),
        }
    }
}

} // verus!
