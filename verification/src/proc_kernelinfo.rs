//! What a walk of the process list records of one process.

use crate::win::eprocess::EPROCESS;
use vstd::prelude::*;
use vstd::string::StringExecFns;

verus! {

/// A snapshot of one process: its name, its kernel record as it was read, and
/// the virtual and physical address of that record.
#[allow(non_snake_case)]
#[derive(Debug, Clone)]
pub struct ProcKernelInfo {
    /// The name of the process.
    pub name: String,
    /// The process record as it was read.
    pub eprocess: EPROCESS,
    /// Virtual address of the process record.
    pub eprocessVirtAddr: u64,
    /// Physical address of the process record.
    pub eprocessPhysAddr: u64,
}

impl ProcKernelInfo {
    /// A record of the process called `name` whose kernel record `eprocess`
    /// was read at `virt_addr`, which is `phys_addr` in physical memory.
    pub fn new(name: &str, eprocess: EPROCESS, virt_addr: u64, phys_addr: u64) -> (r: ProcKernelInfo)
        ensures
            r.name@ == name@,
            r.eprocess == eprocess,
            r.eprocessVirtAddr == virt_addr,
            r.eprocessPhysAddr == phys_addr,
    {
        ProcKernelInfo {
            name: String::from_str(name),
            eprocess,
            eprocessPhysAddr: phys_addr,
            eprocessVirtAddr: virt_addr,
        }
    }
}

} // verus!
