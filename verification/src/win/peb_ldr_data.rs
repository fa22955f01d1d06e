//! The loader's lists of the modules of a process.

use crate::bytes::{decoded, get_u16, get_u32, get_u64, u16_at, u32_at, u64_at, Pod};
use crate::vm::binding_core::PhysMem;
use crate::vm::VMBinding;
use crate::win::list_entry::ListEntry;
use crate::win::unicode_string::UnicodeString;
use vstd::prelude::*;
use vstd::slice::slice_subrange;

verus! {

/// The loader data of a process: the heads of its three module lists.
#[allow(non_snake_case)]
#[derive(Clone, Copy, Debug)]
pub struct PebLdrData {
    /// Offset 0.
    pub Length: u32,
    /// Offset 4.
    pub Initialized: u32,
    /// Offset 8.
    pub SsHandle: u64,
    /// Offset 0x10.
    pub InLoadOrderModuleList: ListEntry,
    /// Offset 0x20.
    pub InMemoryOrderModuleList: ListEntry,
    /// Offset 0x30.
    pub InInitializationOrderModuleList: ListEntry,
    /// Offset 0x40.
    pub EntryInProgress: u64,
    /// Offset 0x48.
    pub ShutdownInProgress: u32,
    /// Offset 0x50.
    pub ShutdownThreadId: u64,
}

impl Pod for PebLdrData {
    open spec fn size_of() -> nat {
        0x58
    }

    open spec fn decodes(b: Seq<u8>, v: Self) -> bool {
        &&& v.Length == u32_at(b, 0)
        &&& v.Initialized == u32_at(b, 4)
        &&& v.SsHandle == u64_at(b, 8)
        &&& ListEntry::decodes(b.skip(0x10), v.InLoadOrderModuleList)
        &&& ListEntry::decodes(b.skip(0x20), v.InMemoryOrderModuleList)
        &&& ListEntry::decodes(b.skip(0x30), v.InInitializationOrderModuleList)
        &&& v.EntryInProgress == u64_at(b, 0x40)
        &&& v.ShutdownInProgress == u32_at(b, 0x48)
        &&& v.ShutdownThreadId == u64_at(b, 0x50)
    }

    proof fn lemma_decodes_unique(b: Seq<u8>, v: Self, w: Self) {
        ListEntry::lemma_decodes_unique(b.skip(0x10), v.InLoadOrderModuleList, w.InLoadOrderModuleList);
        ListEntry::lemma_decodes_unique(b.skip(0x20), v.InMemoryOrderModuleList, w.InMemoryOrderModuleList);
        ListEntry::lemma_decodes_unique(b.skip(0x30), v.InInitializationOrderModuleList, w.InInitializationOrderModuleList);
    }

    fn size() -> (n: usize) {
        0x58
    }

    fn from_bytes(b: &[u8]) -> (v: Self) {
        PebLdrData {
            Length: get_u32(b, 0),
            Initialized: get_u32(b, 4),
            SsHandle: get_u64(b, 8),
            InLoadOrderModuleList: ListEntry::from_bytes(slice_subrange(b, 0x10, b.len())),
            InMemoryOrderModuleList: ListEntry::from_bytes(slice_subrange(b, 0x20, b.len())),
            InInitializationOrderModuleList: ListEntry::from_bytes(slice_subrange(b, 0x30, b.len())),
            EntryInProgress: get_u64(b, 0x40),
            ShutdownInProgress: get_u32(b, 0x48),
            ShutdownThreadId: get_u64(b, 0x50),
        }
    }
}

/// The loader's record of a module loaded in a process. It is linked into the
/// three module lists by its first three fields.
#[allow(non_snake_case)]
#[derive(Clone, Copy, Debug)]
pub struct LdrModule {
    /// Offset 0.
    pub InLoadOrderModuleList: ListEntry,
    /// Offset 0x10.
    pub InMemoryOrderModuleList: ListEntry,
    /// Offset 0x20.
    pub InInitializationOrderModuleList: ListEntry,
    /// Offset 0x30.
    pub BaseAddress: u64,
    /// Offset 0x38.
    pub EntryPoint: u64,
    /// Offset 0x40.
    pub SizeOfImage: u32,
    /// Offset 0x48.
    pub FullDllName: UnicodeString,
    /// Offset 0x58.
    pub BaseDllName: UnicodeString,
    /// Offset 0x68.
    pub Flags: u32,
    /// Offset 0x6c.
    pub LoadCount: i16,
    /// Offset 0x6e.
    pub TlsIndex: i16,
    /// Offset 0x70.
    pub HashTableEntry: ListEntry,
    /// Offset 0x80.
    pub TimeDateStamp: u32,
}

impl Pod for LdrModule {
    open spec fn size_of() -> nat {
        0x88
    }

    open spec fn decodes(b: Seq<u8>, v: Self) -> bool {
        &&& ListEntry::decodes(b.skip(0), v.InLoadOrderModuleList)
        &&& ListEntry::decodes(b.skip(0x10), v.InMemoryOrderModuleList)
        &&& ListEntry::decodes(b.skip(0x20), v.InInitializationOrderModuleList)
        &&& v.BaseAddress == u64_at(b, 0x30)
        &&& v.EntryPoint == u64_at(b, 0x38)
        &&& v.SizeOfImage == u32_at(b, 0x40)
        &&& UnicodeString::decodes(b.skip(0x48), v.FullDllName)
        &&& UnicodeString::decodes(b.skip(0x58), v.BaseDllName)
        &&& v.Flags == u32_at(b, 0x68)
        &&& v.LoadCount == u16_at(b, 0x6c) as i16
        &&& v.TlsIndex == u16_at(b, 0x6e) as i16
        &&& ListEntry::decodes(b.skip(0x70), v.HashTableEntry)
        &&& v.TimeDateStamp == u32_at(b, 0x80)
    }

    proof fn lemma_decodes_unique(b: Seq<u8>, v: Self, w: Self) {
        ListEntry::lemma_decodes_unique(b.skip(0), v.InLoadOrderModuleList, w.InLoadOrderModuleList);
        ListEntry::lemma_decodes_unique(b.skip(0x10), v.InMemoryOrderModuleList, w.InMemoryOrderModuleList);
        ListEntry::lemma_decodes_unique(b.skip(0x20), v.InInitializationOrderModuleList, w.InInitializationOrderModuleList);
        UnicodeString::lemma_decodes_unique(b.skip(0x48), v.FullDllName, w.FullDllName);
        UnicodeString::lemma_decodes_unique(b.skip(0x58), v.BaseDllName, w.BaseDllName);
        ListEntry::lemma_decodes_unique(b.skip(0x70), v.HashTableEntry, w.HashTableEntry);
    }

    fn size() -> (n: usize) {
        0x88
    }

    fn from_bytes(b: &[u8]) -> (v: Self) {
        LdrModule {
            InLoadOrderModuleList: ListEntry::from_bytes(slice_subrange(b, 0, b.len())),
            InMemoryOrderModuleList: ListEntry::from_bytes(slice_subrange(b, 0x10, b.len())),
            InInitializationOrderModuleList: ListEntry::from_bytes(slice_subrange(b, 0x20, b.len())),
            BaseAddress: get_u64(b, 0x30),
            EntryPoint: get_u64(b, 0x38),
            SizeOfImage: get_u32(b, 0x40),
            FullDllName: UnicodeString::from_bytes(slice_subrange(b, 0x48, b.len())),
            BaseDllName: UnicodeString::from_bytes(slice_subrange(b, 0x58, b.len())),
            Flags: get_u32(b, 0x68),
            LoadCount: #[verifier::truncate] (get_u16(b, 0x6c) as i16),
            TlsIndex: #[verifier::truncate] (get_u16(b, 0x6e) as i16),
            HashTableEntry: ListEntry::from_bytes(slice_subrange(b, 0x70, b.len())),
            TimeDateStamp: get_u32(b, 0x80),
        }
    }
}

impl PebLdrData {
    /// Whether every field is zero, as in a record read from unmapped memory.
    pub open spec fn spec_likely_invalid(&self) -> bool {
        self.Length == 0 && self.Initialized == 0 && self.SsHandle == 0
            && self.InLoadOrderModuleList.flink == 0 && self.InLoadOrderModuleList.blink == 0
            && self.InMemoryOrderModuleList.flink == 0 && self.InMemoryOrderModuleList.blink == 0
            && self.InInitializationOrderModuleList.flink == 0
            && self.InInitializationOrderModuleList.blink == 0 && self.EntryInProgress == 0
            && self.ShutdownInProgress == 0 && self.ShutdownThreadId == 0
    }

    /// Whether every field is zero, as in a record read from unmapped memory.
    #[verifier::when_used_as_spec(spec_likely_invalid)]
    pub fn likely_invalid(&self) -> (r: bool)
        ensures
            r == self.spec_likely_invalid(),
    {
        self.Length == 0 && self.Initialized == 0 && self.SsHandle == 0
            && self.InLoadOrderModuleList.flink == 0 && self.InLoadOrderModuleList.blink == 0
            && self.InMemoryOrderModuleList.flink == 0 && self.InMemoryOrderModuleList.blink == 0
            && self.InInitializationOrderModuleList.flink == 0
            && self.InInitializationOrderModuleList.blink == 0 && self.EntryInProgress == 0
            && self.ShutdownInProgress == 0 && self.ShutdownThreadId == 0
    }

    /// The first module of the list in memory order. The links of that list
    /// lie 16 bytes into a module record.
    pub fn get_first_in_memory_order_module_list_with_dirbase(
        &self,
        vm: &VMBinding,
        dirbase: u64,
    ) -> (r: Option<LdrModule>)
        ensures
            r == if self.InMemoryOrderModuleList.flink == 0 {
                None
            } else {
                Some(
                    decoded::<LdrModule>(
                        LdrModule::bytes_behind(vm.mem@, Some(dirbase), self.InMemoryOrderModuleList.flink, 0x10),
                    ),
                )
            },
    {
        self.InMemoryOrderModuleList.get_next_with_dirbase(vm, Some(dirbase), 0x10)
    }

    /// The first module of the list in load order. The links of that list are
    /// the start of a module record.
    pub fn get_first_in_load_order_module_list_with_dirbase(
        &self,
        vm: &VMBinding,
        dirbase: u64,
    ) -> (r: Option<LdrModule>)
        ensures
            r == if self.InLoadOrderModuleList.flink == 0 {
                None
            } else {
                Some(
                    decoded::<LdrModule>(
                        LdrModule::bytes_behind(vm.mem@, Some(dirbase), self.InLoadOrderModuleList.flink, 0),
                    ),
                )
            },
    {
        self.InLoadOrderModuleList.get_next_with_dirbase(vm, Some(dirbase), 0)
    }

    /// The first module of the list in initialization order. The links of that
    /// list lie 32 bytes into a module record.
    pub fn get_first_in_initialization_order_module_list_with_dirbase(
        &self,
        vm: &VMBinding,
        dirbase: u64,
    ) -> (r: Option<LdrModule>)
        ensures
            r == if self.InInitializationOrderModuleList.flink == 0 {
                None
            } else {
                Some(
                    decoded::<LdrModule>(
                        LdrModule::bytes_behind(
                            vm.mem@,
                            Some(dirbase),
                            self.InInitializationOrderModuleList.flink,
                            0x20,
                        ),
                    ),
                )
            },
    {
        self.InInitializationOrderModuleList.get_next_with_dirbase(vm, Some(dirbase), 0x20)
    }
}

impl LdrModule {
    /// The bytes of the module record whose links, `offset` bytes into it, are
    /// at the address `link`.
    pub open spec fn bytes_behind(mem: PhysMem, dirbase: Option<u64>, link: u64, offset: u64) -> Seq<u8> {
        mem.read_or_zeros(
            ListEntry::record_address(mem, dirbase, link, offset),
            LdrModule::size_of() as int,
        )
    }

    /// The module after this one in load order.
    pub fn get_next_in_load_order_module_list_with_dirbase(
        &self,
        vm: &VMBinding,
        dirbase: Option<u64>,
    ) -> (r: Option<LdrModule>)
        ensures
            r == if self.InLoadOrderModuleList.flink == 0 {
                None
            } else {
                Some(
                    decoded::<LdrModule>(
                        LdrModule::bytes_behind(vm.mem@, dirbase, self.InLoadOrderModuleList.flink, 0),
                    ),
                )
            },
    {
        self.InLoadOrderModuleList.get_next_with_dirbase(vm, dirbase, 0)
    }

    /// The module after this one in memory order.
    pub fn get_next_in_memory_order_module_list_with_dirbase(
        &self,
        vm: &VMBinding,
        dirbase: Option<u64>,
    ) -> (r: Option<LdrModule>)
        ensures
            r == if self.InMemoryOrderModuleList.flink == 0 {
                None
            } else {
                Some(
                    decoded::<LdrModule>(
                        LdrModule::bytes_behind(vm.mem@, dirbase, self.InMemoryOrderModuleList.flink, 0x10),
                    ),
                )
            },
    {
        self.InMemoryOrderModuleList.get_next_with_dirbase(vm, dirbase, 0x10)
    }

    /// The module after this one in initialization order.
    pub fn get_next_in_initialization_order_module_list_with_dirbase(
        &self,
        vm: &VMBinding,
        dirbase: Option<u64>,
    ) -> (r: Option<LdrModule>)
        ensures
            r == if self.InInitializationOrderModuleList.flink == 0 {
                None
            } else {
                Some(
                    decoded::<LdrModule>(
                        LdrModule::bytes_behind(
                            vm.mem@,
                            dirbase,
                            self.InInitializationOrderModuleList.flink,
                            0x20,
                        ),
                    ),
                )
            },
    {
        self.InInitializationOrderModuleList.get_next_with_dirbase(vm, dirbase, 0x20)
    }
}

} // verus!
