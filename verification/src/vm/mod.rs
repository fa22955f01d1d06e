//! The binding to one guest: its memory window and what was discovered in it.

use crate::vm::binding_core::MemoryWindow;
use crate::win::Offsets;
use vstd::prelude::*;

pub mod binding_acquire;
pub mod binding_core;
pub mod binding_init;
pub mod binding_porcelain;
pub mod binding_rw;
pub mod binding_search;
pub mod mlayout;
pub mod nativebinding;

verus! {

/// Bits of an address that select a byte inside a 4 KiB page.
pub const PAGE_OFFSET_SIZE: u64 = 12;

/// Size of a page, and of the largest single copy in or out of the window.
pub const STEP_SIZE: u64 = 0x1000;

/// The bits of a page-table entry that hold the physical address of the next level.
pub const PMASK: u64 = 0xf_ffff_f000;

/// Guest physical addresses from here up are shifted down by `KFIXO`.
pub const KFIXC: u64 = 0x8000_0000;

/// The distance by which addresses at or above `KFIXC` are shifted down.
pub const KFIXO: u64 = 0x8000_0000;

/// Where the guest's memory was found on the host.
#[derive(Debug, Default, Copy, Clone, PartialEq, Eq, Structural)]
pub struct ProcessData {
    /// Where the mapping of the guest's memory starts in the hypervisor process.
    pub maps_start: u64,
    /// Size of that mapping.
    pub maps_size: u64,
    /// The hypervisor process.
    pub pid: i32,
}

/// A name that an image exports, and the address it stands for.
#[derive(Clone, Default)]
pub struct WinExport {
    /// The name.
    pub name: String,
    /// The address in the address space of the image.
    pub address: u64,
}

/// A loaded module as a caller sees it.
#[derive(Debug, Clone)]
pub struct WinModule {
    /// Where the image of the module starts.
    pub base_address: u64,
    /// Where its code is entered.
    pub entry_point: u64,
    /// Size of the image.
    pub size_of_module: u64,
    /// The base name of the module.
    pub name: String,
    /// How often the module was loaded.
    pub load_count: u16,
}

/// A process by its kernel record and its address space.
#[derive(Debug, Clone)]
pub struct WinProc {
    /// Virtual address of the process record.
    pub eprocess_va: u64,
    /// Physical address of the process record.
    pub eprocess_addr: u64,
    /// Root of the page tables of the process.
    pub dirbase: u64,
    /// The process id.
    pub pid: u64,
    /// The name of the process.
    pub name: String,
}

/// One guest: the window onto its memory, and what the bootstrap found there.
pub struct VMBinding {
    /// Entry point of the kernel, as the low stub names it.
    pub nt_kernel_entry: u64,
    /// One hundred times the major version of the system plus the minor one.
    pub nt_version: u16,
    /// Build number of the system.
    pub nt_build: u32,
    /// Base of the kernel image.
    pub nt_kernel_modulebase: u64,
    /// The initial process, whose address space is that of the kernel.
    pub initial_process: WinProc,
    /// The named exports of the kernel, in the order of its table of names.
    pub cached_nt_exports: Vec<WinExport>,
    /// Where the guest's memory was found on the host.
    pub process: ProcessData,
    /// Offsets of the fields of a process record in this version of the system.
    pub offsets: Option<Offsets>,
    /// The guest's physical memory.
    pub mem: MemoryWindow,
}

impl VMBinding {
    /// Whether `self` and `other` differ in nothing but the guest's memory.
    pub open spec fn same_metadata(self, other: VMBinding) -> bool {
        &&& self.nt_kernel_entry == other.nt_kernel_entry
        &&& self.nt_version == other.nt_version
        &&& self.nt_build == other.nt_build
        &&& self.nt_kernel_modulebase == other.nt_kernel_modulebase
        &&& self.initial_process == other.initial_process
        &&& self.cached_nt_exports == other.cached_nt_exports
        &&& self.process == other.process
        &&& self.offsets == other.offsets
    }
}

/// Whether `x` is among `v`.
pub(crate) fn seen(v: &Vec<u64>, x: u64) -> (r: bool)
    ensures
        r == v@.contains(x),
{
    let mut i: usize = 0;
    while i < v.len()
        invariant
            i <= v.len(),
            forall|k: int| 0 <= k < i ==> v@[k] != x,
        decreases v.len() - i,
    {
        if v[i] == x {
            return true;
        }
        i = i + 1;
    }
    false
}

} // verus!
