//! The thread environment block and the small records in it.

use crate::bytes::{
    decoded, get_u16, get_u32, get_u32s, get_u64, get_u64s, get_u8, get_u8s, u16_at, u32_at,
    u32s_at, u64_at, u64s_at, Pod,
};
use crate::win::list_entry::ListEntry;
use crate::win::unicode_string::UnicodeString;
use vstd::prelude::*;
use vstd::slice::slice_subrange;

verus! {

/// Flags of a thread, sixteen bits in two bytes: bit 0 is the least
/// significant bit of the first byte.
#[derive(Copy, Clone, Debug)]
pub struct TebFlagsBitfield {
    pub value: [u8; 2],
}

impl TebFlagsBitfield {
    /// Bit `n` of the flags, as 0 or 1.
    pub open spec fn flag(&self, n: int) -> u16 {
        if n < 8 {
            ((self.value@[0] >> (n as u8)) & 1) as u16
        } else {
            ((self.value@[1] >> ((n - 8) as u8)) & 1) as u16
        }
    }

    /// 1 if a safe thunk call is under way, else 0: bit 0.
    #[allow(non_snake_case)]
    pub fn SafeThunkCall(&self) -> (r: u16)
        ensures
            r == self.flag(0),
    {
        ((self.value[0] >> 0u8) & 1) as u16
    }

    /// 1 if the thread is printing a debug message, else 0: bit 1.
    #[allow(non_snake_case)]
    pub fn InDebugPrint(&self) -> (r: u16)
        ensures
            r == self.flag(1),
    {
        ((self.value[0] >> 1u8) & 1) as u16
    }

    /// 1 if the thread has fiber data, else 0: bit 2.
    #[allow(non_snake_case)]
    pub fn HasFiberData(&self) -> (r: u16)
        ensures
            r == self.flag(2),
    {
        ((self.value[0] >> 2u8) & 1) as u16
    }

    /// 1 if thread attach is skipped, else 0: bit 3.
    #[allow(non_snake_case)]
    pub fn SkipThreadAttach(&self) -> (r: u16)
        ensures
            r == self.flag(3),
    {
        ((self.value[0] >> 3u8) & 1) as u16
    }

    /// 1 if the thread is in the code of a ship assert, else 0: bit 4.
    #[allow(non_snake_case)]
    pub fn WerInShipAssertCode(&self) -> (r: u16)
        ensures
            r == self.flag(4),
    {
        ((self.value[0] >> 4u8) & 1) as u16
    }

    /// 1 if the process initialisation has run, else 0: bit 5.
    #[allow(non_snake_case)]
    pub fn RanProcessInit(&self) -> (r: u16)
        ensures
            r == self.flag(5),
    {
        ((self.value[0] >> 5u8) & 1) as u16
    }

    /// 1 if the thread was cloned, else 0: bit 6.
    #[allow(non_snake_case)]
    pub fn ClonedThread(&self) -> (r: u16)
        ensures
            r == self.flag(6),
    {
        ((self.value[0] >> 6u8) & 1) as u16
    }

    /// 1 if debug messages are suppressed, else 0: bit 7.
    #[allow(non_snake_case)]
    pub fn SuppressDebugMsg(&self) -> (r: u16)
        ensures
            r == self.flag(7),
    {
        ((self.value[0] >> 7u8) & 1) as u16
    }

    /// 1 if walks of the user stack are disabled, else 0: bit 8.
    #[allow(non_snake_case)]
    pub fn DisableUserStackWalk(&self) -> (r: u16)
        ensures
            r == self.flag(8),
    {
        ((self.value[1] >> 0u8) & 1) as u16
    }

    /// 1 if an exception handler of the run-time library is attached, else 0: bit 9.
    #[allow(non_snake_case)]
    pub fn RtlExceptionAttached(&self) -> (r: u16)
        ensures
            r == self.flag(9),
    {
        ((self.value[1] >> 1u8) & 1) as u16
    }

    /// 1 if the thread is the initial thread of its process, else 0: bit 10.
    #[allow(non_snake_case)]
    pub fn InitialThread(&self) -> (r: u16)
        ensures
            r == self.flag(10),
    {
        ((self.value[1] >> 2u8) & 1) as u16
    }

    /// 1 if the thread is aware of sessions, else 0: bit 11.
    #[allow(non_snake_case)]
    pub fn SessionAware(&self) -> (r: u16)
        ensures
            r == self.flag(11),
    {
        ((self.value[1] >> 3u8) & 1) as u16
    }

    /// 1 if the thread owns a load, else 0: bit 12.
    #[allow(non_snake_case)]
    pub fn LoadOwner(&self) -> (r: u16)
        ensures
            r == self.flag(12),
    {
        ((self.value[1] >> 4u8) & 1) as u16
    }

    /// 1 if the thread is a worker of the loader, else 0: bit 13.
    #[allow(non_snake_case)]
    pub fn LoaderWorker(&self) -> (r: u16)
        ensures
            r == self.flag(13),
    {
        ((self.value[1] >> 5u8) & 1) as u16
    }

    /// 1 if the initialisation of the loader is skipped, else 0: bit 14.
    #[allow(non_snake_case)]
    pub fn SkipLoaderInit(&self) -> (r: u16)
        ensures
            r == self.flag(14),
    {
        ((self.value[1] >> 6u8) & 1) as u16
    }

    /// 1 if the spare bit is set, else 0: bit 15.
    #[allow(non_snake_case)]
    pub fn SpareSameTebBits(&self) -> (r: u16)
        ensures
            r == self.flag(15),
    {
        ((self.value[1] >> 7u8) & 1) as u16
    }
}

impl Pod for TebFlagsBitfield {
    open spec fn size_of() -> nat {
        2
    }

    open spec fn decodes(b: Seq<u8>, v: Self) -> bool {
        v.value@ == b.subrange(0, 2)
    }

    proof fn lemma_decodes_unique(b: Seq<u8>, v: Self, w: Self) {
        assert(v.value =~= w.value);
    }

    fn size() -> (n: usize) {
        2
    }

    fn from_bytes(b: &[u8]) -> (v: Self) {
        let v = TebFlagsBitfield { value: [get_u8(b, 0), get_u8(b, 1)] };
        assert(v.value@ =~= b@.subrange(0, 2));
        v
    }
}

/// A processor by its group and its number in the group.
#[allow(non_snake_case)]
#[derive(Clone, Copy, Debug)]
pub struct ProcessorNumber {
    /// Offset 0.
    pub Group: u16,
    /// Offset 2.
    pub Number: u8,
    /// Offset 3.
    pub Reserved: u8,
}

impl Pod for ProcessorNumber {
    open spec fn size_of() -> nat {
        4
    }

    open spec fn decodes(b: Seq<u8>, v: Self) -> bool {
        &&& v.Group == u16_at(b, 0)
        &&& v.Number == b[2]
        &&& v.Reserved == b[3]
    }

    proof fn lemma_decodes_unique(b: Seq<u8>, v: Self, w: Self) {
    }

    fn size() -> (n: usize) {
        4
    }

    fn from_bytes(b: &[u8]) -> (v: Self) {
        ProcessorNumber {
            Group: get_u16(b, 0),
            Number: get_u8(b, 2),
            Reserved: get_u8(b, 3),
        }
    }
}

/// A globally unique identifier.
#[allow(non_snake_case)]
#[derive(Clone, Copy, Debug)]
pub struct GUID {
    /// Offset 0.
    pub Data1: u32,
    /// Offset 4.
    pub Data2: u16,
    /// Offset 6.
    pub Data3: u16,
    /// Offset 8.
    pub Data4: [u8; 8],
}

impl Pod for GUID {
    open spec fn size_of() -> nat {
        0x10
    }

    open spec fn decodes(b: Seq<u8>, v: Self) -> bool {
        &&& v.Data1 == u32_at(b, 0)
        &&& v.Data2 == u16_at(b, 4)
        &&& v.Data3 == u16_at(b, 6)
        &&& v.Data4@ == b.subrange(8, 0x10)
    }

    proof fn lemma_decodes_unique(b: Seq<u8>, v: Self, w: Self) {
        assert(v.Data4 =~= w.Data4);
    }

    fn size() -> (n: usize) {
        0x10
    }

    fn from_bytes(b: &[u8]) -> (v: Self) {
        GUID {
            Data1: get_u32(b, 0),
            Data2: get_u16(b, 4),
            Data3: get_u16(b, 6),
            Data4: get_u8s(b, 8),
        }
    }
}

/// The stack of activation contexts of a thread.
#[allow(non_snake_case)]
#[derive(Clone, Copy, Debug)]
pub struct ActivationContextStack {
    /// Offset 0.
    pub ActiveFrame: u64,
    /// Offset 8.
    pub FrameListCache: ListEntry,
    /// Offset 0x18.
    pub Flags: u32,
    /// Offset 0x1c.
    pub NextCookieSequenceNumber: u32,
    /// Offset 0x20.
    pub StackId: u32,
}

impl Pod for ActivationContextStack {
    open spec fn size_of() -> nat {
        0x28
    }

    open spec fn decodes(b: Seq<u8>, v: Self) -> bool {
        &&& v.ActiveFrame == u64_at(b, 0)
        &&& ListEntry::decodes(b.skip(8), v.FrameListCache)
        &&& v.Flags == u32_at(b, 0x18)
        &&& v.NextCookieSequenceNumber == u32_at(b, 0x1c)
        &&& v.StackId == u32_at(b, 0x20)
    }

    proof fn lemma_decodes_unique(b: Seq<u8>, v: Self, w: Self) {
        ListEntry::lemma_decodes_unique(b.skip(8), v.FrameListCache, w.FrameListCache);
    }

    fn size() -> (n: usize) {
        0x28
    }

    fn from_bytes(b: &[u8]) -> (v: Self) {
        ActivationContextStack {
            ActiveFrame: get_u64(b, 0),
            FrameListCache: ListEntry::from_bytes(slice_subrange(b, 8, b.len())),
            Flags: get_u32(b, 0x18),
            NextCookieSequenceNumber: get_u32(b, 0x1c),
            StackId: get_u32(b, 0x20),
        }
    }
}

/// The process and the thread that a thread belongs to.
#[allow(non_snake_case)]
#[derive(Clone, Copy, Debug)]
pub struct ClientID {
    /// Offset 0.
    pub UniqueProcess: u64,
    /// Offset 8.
    pub UniqueThread: u64,
}

impl Pod for ClientID {
    open spec fn size_of() -> nat {
        0x10
    }

    open spec fn decodes(b: Seq<u8>, v: Self) -> bool {
        &&& v.UniqueProcess == u64_at(b, 0)
        &&& v.UniqueThread == u64_at(b, 8)
    }

    proof fn lemma_decodes_unique(b: Seq<u8>, v: Self, w: Self) {
    }

    fn size() -> (n: usize) {
        0x10
    }

    fn from_bytes(b: &[u8]) -> (v: Self) {
        ClientID {
            UniqueProcess: get_u64(b, 0),
            UniqueThread: get_u64(b, 8),
        }
    }
}

/// The thread information block that a thread environment block starts with.
/// The fiber data and the version share one field.
#[allow(non_snake_case)]
#[derive(Clone, Copy, Debug)]
pub struct NtTIB {
    /// Offset 0.
    pub ExceptionList: u64,
    /// Offset 8.
    pub StackBase: u64,
    /// Offset 0x10.
    pub StackLimit: u64,
    /// Offset 0x18.
    pub SubSystemTib: u64,
    /// Offset 0x20.
    pub FiberDataOrVersion: u64,
    /// Offset 0x28.
    pub ArbitraryUserPointer: u64,
    /// Offset 0x30.
    pub Self_0: u64,
}

impl Pod for NtTIB {
    open spec fn size_of() -> nat {
        0x38
    }

    open spec fn decodes(b: Seq<u8>, v: Self) -> bool {
        &&& v.ExceptionList == u64_at(b, 0)
        &&& v.StackBase == u64_at(b, 8)
        &&& v.StackLimit == u64_at(b, 0x10)
        &&& v.SubSystemTib == u64_at(b, 0x18)
        &&& v.FiberDataOrVersion == u64_at(b, 0x20)
        &&& v.ArbitraryUserPointer == u64_at(b, 0x28)
        &&& v.Self_0 == u64_at(b, 0x30)
    }

    proof fn lemma_decodes_unique(b: Seq<u8>, v: Self, w: Self) {
    }

    fn size() -> (n: usize) {
        0x38
    }

    fn from_bytes(b: &[u8]) -> (v: Self) {
        NtTIB {
            ExceptionList: get_u64(b, 0),
            StackBase: get_u64(b, 8),
            StackLimit: get_u64(b, 0x10),
            SubSystemTib: get_u64(b, 0x18),
            FiberDataOrVersion: get_u64(b, 0x20),
            ArbitraryUserPointer: get_u64(b, 0x28),
            Self_0: get_u64(b, 0x30),
        }
    }
}

/// The ideal processor of a thread, as the last of four bytes.
#[allow(non_snake_case)]
#[derive(Clone, Copy, Debug)]
pub struct IdealProcessorFlags {
    /// Offset 0.
    pub ReservedPad0: u8,
    /// Offset 1.
    pub ReservedPad1: u8,
    /// Offset 2.
    pub ReservedPad2: u8,
    /// Offset 3.
    pub IdealProcessor: u8,
}

impl Pod for IdealProcessorFlags {
    open spec fn size_of() -> nat {
        4
    }

    open spec fn decodes(b: Seq<u8>, v: Self) -> bool {
        &&& v.ReservedPad0 == b[0]
        &&& v.ReservedPad1 == b[1]
        &&& v.ReservedPad2 == b[2]
        &&& v.IdealProcessor == b[3]
    }

    proof fn lemma_decodes_unique(b: Seq<u8>, v: Self, w: Self) {
    }

    fn size() -> (n: usize) {
        4
    }

    fn from_bytes(b: &[u8]) -> (v: Self) {
        IdealProcessorFlags {
            ReservedPad0: get_u8(b, 0),
            ReservedPad1: get_u8(b, 1),
            ReservedPad2: get_u8(b, 2),
            IdealProcessor: get_u8(b, 3),
        }
    }
}

/// The thread environment block, the user-mode state of a thread: 0x1838 bytes.
/// Ranges of the record that are reserved or opaque are not decoded.
#[allow(non_snake_case)]
#[derive(Clone, Copy, Debug)]
pub struct TEB {
    /// Offset 0.
    pub NtTib: NtTIB,
    /// Offset 0x38.
    pub EnvironmentPointer: u64,
    /// Offset 0x40.
    pub ClientId: ClientID,
    /// Offset 0x50.
    pub ActiveRpcHandle: u64,
    /// Offset 0x58.
    pub ThreadLocalStoragePointer: u64,
    /// Offset 0x60.
    pub ProcessEnvironmentBlock: u64,
    /// Offset 0x68.
    pub LastErrorValue: u32,
    /// Offset 0x6c.
    pub CountOfOwnedCriticalSections: u32,
    /// Offset 0x70.
    pub CsrClientThread: u64,
    /// Offset 0x78.
    pub Win32ThreadInfo: u64,
    /// Offset 0xe8.
    pub UserReserved: [u32; 5],
    /// Offset 0x100.
    pub WOW32Reserved: u64,
    /// Offset 0x108.
    pub CurrentLocale: u32,
    /// Offset 0x10c.
    pub FpSoftwareStatusRegister: u32,
    /// Offset 0x110.
    pub ReservedForDebuggerInstrumentation: [u64; 16],
    /// Offset 0x280.
    pub PlaceholderCompatibilityMode: i8,
    /// Offset 0x281.
    pub PlaceholderHydrationAlwaysExplicit: u8,
    /// Offset 0x28c.
    pub ProxiedProcessId: u32,
    /// Offset 0x290.
    pub _ActivationStack: ActivationContextStack,
    /// Offset 0x2b8.
    pub WorkingOnBehalfTicket: [u8; 8],
    /// Offset 0x2c0.
    pub ExceptionCode: i32,
    /// Offset 0x2c4.
    pub Padding0: [u8; 4],
    /// Offset 0x2c8.
    pub ActivationContextStackPointer: u64,
    /// Offset 0x2d0.
    pub InstrumentationCallbackSp: u64,
    /// Offset 0x2d8.
    pub InstrumentationCallbackPreviousPc: u64,
    /// Offset 0x2e0.
    pub InstrumentationCallbackPreviousSp: u64,
    /// Offset 0x2e8.
    pub TxFsContext: u32,
    /// Offset 0x2ec.
    pub InstrumentationCallbackDisabled: u8,
    /// Offset 0x2ed.
    pub UnalignedLoadStoreExceptions: u8,
    /// Offset 0x2ee.
    pub Padding1: [u8; 2],
    /// Offset 0x7d8.
    pub RealClientId: ClientID,
    /// Offset 0x7e8.
    pub GdiCachedProcessHandle: u64,
    /// Offset 0x7f0.
    pub GdiClientPID: u32,
    /// Offset 0x7f4.
    pub GdiClientTID: u32,
    /// Offset 0x7f8.
    pub GdiThreadLocalInfo: u64,
    /// Offset 0x1220.
    pub glReserved2: u64,
    /// Offset 0x1228.
    pub glSectionInfo: u64,
    /// Offset 0x1230.
    pub glSection: u64,
    /// Offset 0x1238.
    pub glTable: u64,
    /// Offset 0x1240.
    pub glCurrentRC: u64,
    /// Offset 0x1248.
    pub glContext: u64,
    /// Offset 0x1250.
    pub LastStatusValue: u32,
    /// Offset 0x1254.
    pub Padding2: [u8; 4],
    /// Offset 0x1258.
    pub StaticUnicodeString: UnicodeString,
    /// Offset 0x1472.
    pub Padding3: [u8; 6],
    /// Offset 0x1478.
    pub DeallocationStack: u64,
    /// Offset 0x1680.
    pub TlsLinks: ListEntry,
    /// Offset 0x1690.
    pub Vdm: u64,
    /// Offset 0x1698.
    pub ReservedForNtRpc: u64,
    /// Offset 0x16a0.
    pub DbgSsReserved: [u64; 2],
    /// Offset 0x16b0.
    pub HardErrorMode: u32,
    /// Offset 0x16b4.
    pub Padding4: [u8; 4],
    /// Offset 0x16b8.
    pub Instrumentation: [u64; 11],
    /// Offset 0x1710.
    pub ActivityId: GUID,
    /// Offset 0x1720.
    pub SubProcessTag: u64,
    /// Offset 0x1728.
    pub PerflibData: u64,
    /// Offset 0x1730.
    pub EtwTraceData: u64,
    /// Offset 0x1738.
    pub WinSockData: u64,
    /// Offset 0x1740.
    pub GdiBatchCount: u32,
    /// Offset 0x1744.
    pub IdealProcessorValue: u32,
    /// Offset 0x1748.
    pub GuaranteedStackBytes: u32,
    /// Offset 0x174c.
    pub Padding5: [u8; 4],
    /// Offset 0x1750.
    pub ReservedForPerf: u64,
    /// Offset 0x1758.
    pub ReservedForOle: u64,
    /// Offset 0x1760.
    pub WaitingOnLoaderLock: u32,
    /// Offset 0x1764.
    pub Padding6: [u8; 4],
    /// Offset 0x1768.
    pub SavedPriorityState: u64,
    /// Offset 0x1770.
    pub ReservedForCodeCoverage: u64,
    /// Offset 0x1778.
    pub ThreadPoolData: u64,
    /// Offset 0x1780.
    pub TlsExpansionSlots: u64,
    /// Offset 0x1788.
    pub DeallocationBStore: u64,
    /// Offset 0x1790.
    pub BStoreLimit: u64,
    /// Offset 0x1798.
    pub MuiGeneration: u32,
    /// Offset 0x179c.
    pub IsImpersonating: u32,
    /// Offset 0x17a0.
    pub NlsCache: u64,
    /// Offset 0x17a8.
    pub pShimData: u64,
    /// Offset 0x17b0.
    pub HeapData: u32,
    /// Offset 0x17b4.
    pub Padding7: [u8; 4],
    /// Offset 0x17b8.
    pub CurrentTransactionHandle: u64,
    /// Offset 0x17c0.
    pub ActiveFrame: u64,
    /// Offset 0x17c8.
    pub FlsData: u64,
    /// Offset 0x17d0.
    pub PreferredLanguages: u64,
    /// Offset 0x17d8.
    pub UserPrefLanguages: u64,
    /// Offset 0x17e0.
    pub MergedPrefLanguages: u64,
    /// Offset 0x17e8.
    pub MuiImpersonation: u32,
    /// Offset 0x17ec.
    pub CrossTebFlags: u16,
    /// Offset 0x17ee.
    pub SameTebFlags: TebFlagsBitfield,
    /// Offset 0x17f0.
    pub TxnScopeEnterCallback: u64,
    /// Offset 0x17f8.
    pub TxnScopeExitCallback: u64,
    /// Offset 0x1800.
    pub TxnScopeContext: u64,
    /// Offset 0x1808.
    pub LockCount: u32,
    /// Offset 0x180c.
    pub WowTebOffset: i32,
    /// Offset 0x1810.
    pub ResourceRetValue: u64,
    /// Offset 0x1818.
    pub ReservedForWdf: u64,
    /// Offset 0x1820.
    pub ReservedForCrt: u64,
    /// Offset 0x1828.
    pub EffectiveContainerId: GUID,
}

impl Pod for TEB {
    open spec fn size_of() -> nat {
        0x1838
    }

    open spec fn decodes(b: Seq<u8>, v: Self) -> bool {
        &&& NtTIB::decodes(b.skip(0), v.NtTib)
        &&& v.EnvironmentPointer == u64_at(b, 0x38)
        &&& ClientID::decodes(b.skip(0x40), v.ClientId)
        &&& v.ActiveRpcHandle == u64_at(b, 0x50)
        &&& v.ThreadLocalStoragePointer == u64_at(b, 0x58)
        &&& v.ProcessEnvironmentBlock == u64_at(b, 0x60)
        &&& v.LastErrorValue == u32_at(b, 0x68)
        &&& v.CountOfOwnedCriticalSections == u32_at(b, 0x6c)
        &&& v.CsrClientThread == u64_at(b, 0x70)
        &&& v.Win32ThreadInfo == u64_at(b, 0x78)
        &&& v.UserReserved@ == u32s_at(b, 0xe8, 5)
        &&& v.WOW32Reserved == u64_at(b, 0x100)
        &&& v.CurrentLocale == u32_at(b, 0x108)
        &&& v.FpSoftwareStatusRegister == u32_at(b, 0x10c)
        &&& v.ReservedForDebuggerInstrumentation@ == u64s_at(b, 0x110, 16)
        &&& v.PlaceholderCompatibilityMode == b[0x280] as i8
        &&& v.PlaceholderHydrationAlwaysExplicit == b[0x281]
        &&& v.ProxiedProcessId == u32_at(b, 0x28c)
        &&& ActivationContextStack::decodes(b.skip(0x290), v._ActivationStack)
        &&& v.WorkingOnBehalfTicket@ == b.subrange(0x2b8, 0x2c0)
        &&& v.ExceptionCode == u32_at(b, 0x2c0) as i32
        &&& v.Padding0@ == b.subrange(0x2c4, 0x2c8)
        &&& v.ActivationContextStackPointer == u64_at(b, 0x2c8)
        &&& v.InstrumentationCallbackSp == u64_at(b, 0x2d0)
        &&& v.InstrumentationCallbackPreviousPc == u64_at(b, 0x2d8)
        &&& v.InstrumentationCallbackPreviousSp == u64_at(b, 0x2e0)
        &&& v.TxFsContext == u32_at(b, 0x2e8)
        &&& v.InstrumentationCallbackDisabled == b[0x2ec]
        &&& v.UnalignedLoadStoreExceptions == b[0x2ed]
        &&& v.Padding1@ == b.subrange(0x2ee, 0x2f0)
        &&& ClientID::decodes(b.skip(0x7d8), v.RealClientId)
        &&& v.GdiCachedProcessHandle == u64_at(b, 0x7e8)
        &&& v.GdiClientPID == u32_at(b, 0x7f0)
        &&& v.GdiClientTID == u32_at(b, 0x7f4)
        &&& v.GdiThreadLocalInfo == u64_at(b, 0x7f8)
        &&& v.glReserved2 == u64_at(b, 0x1220)
        &&& v.glSectionInfo == u64_at(b, 0x1228)
        &&& v.glSection == u64_at(b, 0x1230)
        &&& v.glTable == u64_at(b, 0x1238)
        &&& v.glCurrentRC == u64_at(b, 0x1240)
        &&& v.glContext == u64_at(b, 0x1248)
        &&& v.LastStatusValue == u32_at(b, 0x1250)
        &&& v.Padding2@ == b.subrange(0x1254, 0x1258)
        &&& UnicodeString::decodes(b.skip(0x1258), v.StaticUnicodeString)
        &&& v.Padding3@ == b.subrange(0x1472, 0x1478)
        &&& v.DeallocationStack == u64_at(b, 0x1478)
        &&& ListEntry::decodes(b.skip(0x1680), v.TlsLinks)
        &&& v.Vdm == u64_at(b, 0x1690)
        &&& v.ReservedForNtRpc == u64_at(b, 0x1698)
        &&& v.DbgSsReserved@ == u64s_at(b, 0x16a0, 2)
        &&& v.HardErrorMode == u32_at(b, 0x16b0)
        &&& v.Padding4@ == b.subrange(0x16b4, 0x16b8)
        &&& v.Instrumentation@ == u64s_at(b, 0x16b8, 11)
        &&& GUID::decodes(b.skip(0x1710), v.ActivityId)
        &&& v.SubProcessTag == u64_at(b, 0x1720)
        &&& v.PerflibData == u64_at(b, 0x1728)
        &&& v.EtwTraceData == u64_at(b, 0x1730)
        &&& v.WinSockData == u64_at(b, 0x1738)
        &&& v.GdiBatchCount == u32_at(b, 0x1740)
        &&& v.IdealProcessorValue == u32_at(b, 0x1744)
        &&& v.GuaranteedStackBytes == u32_at(b, 0x1748)
        &&& v.Padding5@ == b.subrange(0x174c, 0x1750)
        &&& v.ReservedForPerf == u64_at(b, 0x1750)
        &&& v.ReservedForOle == u64_at(b, 0x1758)
        &&& v.WaitingOnLoaderLock == u32_at(b, 0x1760)
        &&& v.Padding6@ == b.subrange(0x1764, 0x1768)
        &&& v.SavedPriorityState == u64_at(b, 0x1768)
        &&& v.ReservedForCodeCoverage == u64_at(b, 0x1770)
        &&& v.ThreadPoolData == u64_at(b, 0x1778)
        &&& v.TlsExpansionSlots == u64_at(b, 0x1780)
        &&& v.DeallocationBStore == u64_at(b, 0x1788)
        &&& v.BStoreLimit == u64_at(b, 0x1790)
        &&& v.MuiGeneration == u32_at(b, 0x1798)
        &&& v.IsImpersonating == u32_at(b, 0x179c)
        &&& v.NlsCache == u64_at(b, 0x17a0)
        &&& v.pShimData == u64_at(b, 0x17a8)
        &&& v.HeapData == u32_at(b, 0x17b0)
        &&& v.Padding7@ == b.subrange(0x17b4, 0x17b8)
        &&& v.CurrentTransactionHandle == u64_at(b, 0x17b8)
        &&& v.ActiveFrame == u64_at(b, 0x17c0)
        &&& v.FlsData == u64_at(b, 0x17c8)
        &&& v.PreferredLanguages == u64_at(b, 0x17d0)
        &&& v.UserPrefLanguages == u64_at(b, 0x17d8)
        &&& v.MergedPrefLanguages == u64_at(b, 0x17e0)
        &&& v.MuiImpersonation == u32_at(b, 0x17e8)
        &&& v.CrossTebFlags == u16_at(b, 0x17ec)
        &&& TebFlagsBitfield::decodes(b.skip(0x17ee), v.SameTebFlags)
        &&& v.TxnScopeEnterCallback == u64_at(b, 0x17f0)
        &&& v.TxnScopeExitCallback == u64_at(b, 0x17f8)
        &&& v.TxnScopeContext == u64_at(b, 0x1800)
        &&& v.LockCount == u32_at(b, 0x1808)
        &&& v.WowTebOffset == u32_at(b, 0x180c) as i32
        &&& v.ResourceRetValue == u64_at(b, 0x1810)
        &&& v.ReservedForWdf == u64_at(b, 0x1818)
        &&& v.ReservedForCrt == u64_at(b, 0x1820)
        &&& GUID::decodes(b.skip(0x1828), v.EffectiveContainerId)
    }

    proof fn lemma_decodes_unique(b: Seq<u8>, v: Self, w: Self) {
        NtTIB::lemma_decodes_unique(b.skip(0), v.NtTib, w.NtTib);
        ClientID::lemma_decodes_unique(b.skip(0x40), v.ClientId, w.ClientId);
        assert(v.UserReserved =~= w.UserReserved);
        assert(v.ReservedForDebuggerInstrumentation =~= w.ReservedForDebuggerInstrumentation);
        ActivationContextStack::lemma_decodes_unique(b.skip(0x290), v._ActivationStack, w._ActivationStack);
        assert(v.WorkingOnBehalfTicket =~= w.WorkingOnBehalfTicket);
        assert(v.Padding0 =~= w.Padding0);
        assert(v.Padding1 =~= w.Padding1);
        ClientID::lemma_decodes_unique(b.skip(0x7d8), v.RealClientId, w.RealClientId);
        assert(v.Padding2 =~= w.Padding2);
        UnicodeString::lemma_decodes_unique(b.skip(0x1258), v.StaticUnicodeString, w.StaticUnicodeString);
        assert(v.Padding3 =~= w.Padding3);
        ListEntry::lemma_decodes_unique(b.skip(0x1680), v.TlsLinks, w.TlsLinks);
        assert(v.DbgSsReserved =~= w.DbgSsReserved);
        assert(v.Padding4 =~= w.Padding4);
        assert(v.Instrumentation =~= w.Instrumentation);
        GUID::lemma_decodes_unique(b.skip(0x1710), v.ActivityId, w.ActivityId);
        assert(v.Padding5 =~= w.Padding5);
        assert(v.Padding6 =~= w.Padding6);
        assert(v.Padding7 =~= w.Padding7);
        TebFlagsBitfield::lemma_decodes_unique(b.skip(0x17ee), v.SameTebFlags, w.SameTebFlags);
        GUID::lemma_decodes_unique(b.skip(0x1828), v.EffectiveContainerId, w.EffectiveContainerId);
    }

    fn size() -> (n: usize) {
        0x1838
    }

    fn from_bytes(b: &[u8]) -> (v: Self) {
        TEB {
            NtTib: NtTIB::from_bytes(slice_subrange(b, 0, b.len())),
            EnvironmentPointer: get_u64(b, 0x38),
            ClientId: ClientID::from_bytes(slice_subrange(b, 0x40, b.len())),
            ActiveRpcHandle: get_u64(b, 0x50),
            ThreadLocalStoragePointer: get_u64(b, 0x58),
            ProcessEnvironmentBlock: get_u64(b, 0x60),
            LastErrorValue: get_u32(b, 0x68),
            CountOfOwnedCriticalSections: get_u32(b, 0x6c),
            CsrClientThread: get_u64(b, 0x70),
            Win32ThreadInfo: get_u64(b, 0x78),
            UserReserved: get_u32s(b, 0xe8),
            WOW32Reserved: get_u64(b, 0x100),
            CurrentLocale: get_u32(b, 0x108),
            FpSoftwareStatusRegister: get_u32(b, 0x10c),
            ReservedForDebuggerInstrumentation: get_u64s(b, 0x110),
            PlaceholderCompatibilityMode: #[verifier::truncate] (get_u8(b, 0x280) as i8),
            PlaceholderHydrationAlwaysExplicit: get_u8(b, 0x281),
            ProxiedProcessId: get_u32(b, 0x28c),
            _ActivationStack: ActivationContextStack::from_bytes(slice_subrange(b, 0x290, b.len())),
            WorkingOnBehalfTicket: get_u8s(b, 0x2b8),
            ExceptionCode: #[verifier::truncate] (get_u32(b, 0x2c0) as i32),
            Padding0: get_u8s(b, 0x2c4),
            ActivationContextStackPointer: get_u64(b, 0x2c8),
            InstrumentationCallbackSp: get_u64(b, 0x2d0),
            InstrumentationCallbackPreviousPc: get_u64(b, 0x2d8),
            InstrumentationCallbackPreviousSp: get_u64(b, 0x2e0),
            TxFsContext: get_u32(b, 0x2e8),
            InstrumentationCallbackDisabled: get_u8(b, 0x2ec),
            UnalignedLoadStoreExceptions: get_u8(b, 0x2ed),
            Padding1: get_u8s(b, 0x2ee),
            RealClientId: ClientID::from_bytes(slice_subrange(b, 0x7d8, b.len())),
            GdiCachedProcessHandle: get_u64(b, 0x7e8),
            GdiClientPID: get_u32(b, 0x7f0),
            GdiClientTID: get_u32(b, 0x7f4),
            GdiThreadLocalInfo: get_u64(b, 0x7f8),
            glReserved2: get_u64(b, 0x1220),
            glSectionInfo: get_u64(b, 0x1228),
            glSection: get_u64(b, 0x1230),
            glTable: get_u64(b, 0x1238),
            glCurrentRC: get_u64(b, 0x1240),
            glContext: get_u64(b, 0x1248),
            LastStatusValue: get_u32(b, 0x1250),
            Padding2: get_u8s(b, 0x1254),
            StaticUnicodeString: UnicodeString::from_bytes(slice_subrange(b, 0x1258, b.len())),
            Padding3: get_u8s(b, 0x1472),
            DeallocationStack: get_u64(b, 0x1478),
            TlsLinks: ListEntry::from_bytes(slice_subrange(b, 0x1680, b.len())),
            Vdm: get_u64(b, 0x1690),
            ReservedForNtRpc: get_u64(b, 0x1698),
            DbgSsReserved: get_u64s(b, 0x16a0),
            HardErrorMode: get_u32(b, 0x16b0),
            Padding4: get_u8s(b, 0x16b4),
            Instrumentation: get_u64s(b, 0x16b8),
            ActivityId: GUID::from_bytes(slice_subrange(b, 0x1710, b.len())),
            SubProcessTag: get_u64(b, 0x1720),
            PerflibData: get_u64(b, 0x1728),
            EtwTraceData: get_u64(b, 0x1730),
            WinSockData: get_u64(b, 0x1738),
            GdiBatchCount: get_u32(b, 0x1740),
            IdealProcessorValue: get_u32(b, 0x1744),
            GuaranteedStackBytes: get_u32(b, 0x1748),
            Padding5: get_u8s(b, 0x174c),
            ReservedForPerf: get_u64(b, 0x1750),
            ReservedForOle: get_u64(b, 0x1758),
            WaitingOnLoaderLock: get_u32(b, 0x1760),
            Padding6: get_u8s(b, 0x1764),
            SavedPriorityState: get_u64(b, 0x1768),
            ReservedForCodeCoverage: get_u64(b, 0x1770),
            ThreadPoolData: get_u64(b, 0x1778),
            TlsExpansionSlots: get_u64(b, 0x1780),
            DeallocationBStore: get_u64(b, 0x1788),
            BStoreLimit: get_u64(b, 0x1790),
            MuiGeneration: get_u32(b, 0x1798),
            IsImpersonating: get_u32(b, 0x179c),
            NlsCache: get_u64(b, 0x17a0),
            pShimData: get_u64(b, 0x17a8),
            HeapData: get_u32(b, 0x17b0),
            Padding7: get_u8s(b, 0x17b4),
            CurrentTransactionHandle: get_u64(b, 0x17b8),
            ActiveFrame: get_u64(b, 0x17c0),
            FlsData: get_u64(b, 0x17c8),
            PreferredLanguages: get_u64(b, 0x17d0),
            UserPrefLanguages: get_u64(b, 0x17d8),
            MergedPrefLanguages: get_u64(b, 0x17e0),
            MuiImpersonation: get_u32(b, 0x17e8),
            CrossTebFlags: get_u16(b, 0x17ec),
            SameTebFlags: TebFlagsBitfield::from_bytes(slice_subrange(b, 0x17ee, b.len())),
            TxnScopeEnterCallback: get_u64(b, 0x17f0),
            TxnScopeExitCallback: get_u64(b, 0x17f8),
            TxnScopeContext: get_u64(b, 0x1800),
            LockCount: get_u32(b, 0x1808),
            WowTebOffset: #[verifier::truncate] (get_u32(b, 0x180c) as i32),
            ResourceRetValue: get_u64(b, 0x1810),
            ReservedForWdf: get_u64(b, 0x1818),
            ReservedForCrt: get_u64(b, 0x1820),
            EffectiveContainerId: GUID::from_bytes(slice_subrange(b, 0x1828, b.len())),
        }
    }
}

} // verus!
