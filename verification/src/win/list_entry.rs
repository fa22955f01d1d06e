//! The links of the kernel's lists. A link holds the address of the link inside
//! the next record, so the record itself starts a fixed distance before it.

use crate::bytes::{decoded, get_u64, u64_at, Pod};
use crate::vm::binding_core::PhysMem;
use crate::vm::VMBinding;
use vstd::prelude::*;

verus! {

/// A link of a singly linked list.
#[derive(Clone, Copy, Debug)]
pub struct SingleListEntry {
    /// Address of the link in the next record, or zero at the end.
    pub next: u64,
}

impl Pod for SingleListEntry {
    open spec fn size_of() -> nat {
        8
    }

    open spec fn decodes(b: Seq<u8>, v: Self) -> bool {
        v.next == u64_at(b, 0)
    }

    proof fn lemma_decodes_unique(b: Seq<u8>, v: Self, w: Self) {
    }

    fn size() -> (n: usize) {
        8
    }

    fn from_bytes(b: &[u8]) -> (v: Self) {
        SingleListEntry { next: get_u64(b, 0) }
    }
}

impl SingleListEntry {
    /// The record that the link leads to, read in the kernel's address space.
    /// `None` at the end of the list.
    pub fn get_next_from_kernel_initial_process<T: Pod>(
        &self,
        vm: &VMBinding,
        list_entry_offset_in_target_struct: u64,
    ) -> (r: Option<T>)
        ensures
            r == if self.next == 0 {
                None
            } else {
                Some(
                    decoded::<T>(
                        vm.mem@.vbytes(
                            vm.initial_process.dirbase,
                            self.next.wrapping_sub(list_entry_offset_in_target_struct) as int,
                            T::size_of() as int,
                        ),
                    ),
                )
            },
    {
        self.get_next_with_dirbase(
            vm,
            Some(vm.initial_process.dirbase),
            list_entry_offset_in_target_struct,
        )
    }

    /// The record that the link leads to: it starts
    /// `list_entry_offset_in_target_struct` bytes before the address in the
    /// link. With an address space it is read there, without one in physical
    /// memory. `None` at the end of the list.
    pub fn get_next_with_dirbase<T: Pod>(
        &self,
        vm: &VMBinding,
        dirbase: Option<u64>,
        list_entry_offset_in_target_struct: u64,
    ) -> (r: Option<T>)
        ensures
            r == if self.next == 0 {
                None
            } else {
                Some(
                    decoded::<T>(
                        match dirbase {
                            Some(db) => vm.mem@.vbytes(
                                db,
                                self.next.wrapping_sub(list_entry_offset_in_target_struct) as int,
                                T::size_of() as int,
                            ),
                            None => vm.mem@.read_or_zeros(
                                self.next.wrapping_sub(list_entry_offset_in_target_struct),
                                T::size_of() as int,
                            ),
                        },
                    ),
                )
            },
    {
        if self.next == 0 {
            return None;
        }
        let target = self.next.wrapping_sub(list_entry_offset_in_target_struct);
        Some(
            match dirbase {
                Some(db) => vm.vread(db, target),
                None => vm.read(target),
            },
        )
    }
}

/// A link of a doubly linked, circular list.
#[derive(Clone, Copy, Debug)]
pub struct ListEntry {
    /// Address of the link in the next record.
    pub flink: u64,
    /// Address of the link in the record before.
    pub blink: u64,
}

impl Pod for ListEntry {
    open spec fn size_of() -> nat {
        0x10
    }

    open spec fn decodes(b: Seq<u8>, v: Self) -> bool {
        &&& v.flink == u64_at(b, 0)
        &&& v.blink == u64_at(b, 8)
    }

    proof fn lemma_decodes_unique(b: Seq<u8>, v: Self, w: Self) {
    }

    fn size() -> (n: usize) {
        0x10
    }

    fn from_bytes(b: &[u8]) -> (v: Self) {
        ListEntry { flink: get_u64(b, 0), blink: get_u64(b, 8) }
    }
}

impl ListEntry {
    /// Physical address of the record that starts `offset` bytes before the
    /// virtual or physical address `link`.
    pub open spec fn record_address(mem: PhysMem, dirbase: Option<u64>, link: u64, offset: u64) -> u64 {
        match dirbase {
            Some(d) => mem.translate(d, link.wrapping_sub(offset)),
            None => link.wrapping_sub(offset),
        }
    }

    /// The record that the forward link leads to, found through the kernel's
    /// address space. `None` where the link is zero.
    pub fn get_next_from_kernel_initial_process<T: Pod>(
        &self,
        vm: &VMBinding,
        list_entry_offset_in_target_struct: u64,
    ) -> (r: Option<T>)
        ensures
            r == if self.flink == 0 {
                None
            } else {
                Some(
                    decoded::<T>(
                        vm.mem@.read_or_zeros(
                            Self::record_address(
                                vm.mem@,
                                Some(vm.initial_process.dirbase),
                                self.flink,
                                list_entry_offset_in_target_struct,
                            ),
                            T::size_of() as int,
                        ),
                    ),
                )
            },
    {
        self.get_next_with_dirbase(
            vm,
            Some(vm.initial_process.dirbase),
            list_entry_offset_in_target_struct,
        )
    }

    /// The record that the forward link leads to: it starts
    /// `list_entry_offset_in_target_struct` bytes before the address in the
    /// link. With an address space that start is translated once and the record
    /// is read from physical memory there. `None` where the link is zero.
    pub fn get_next_with_dirbase<T: Pod>(
        &self,
        vm: &VMBinding,
        dirbase: Option<u64>,
        list_entry_offset_in_target_struct: u64,
    ) -> (r: Option<T>)
        ensures
            r == if self.flink == 0 {
                None
            } else {
                Some(
                    decoded::<T>(
                        vm.mem@.read_or_zeros(
                            Self::record_address(
                                vm.mem@,
                                dirbase,
                                self.flink,
                                list_entry_offset_in_target_struct,
                            ),
                            T::size_of() as int,
                        ),
                    ),
                )
            },
    {
        if self.flink == 0 {
            return None;
        }
        let target = self.flink.wrapping_sub(list_entry_offset_in_target_struct);
        let addr = match dirbase {
            Some(d) => vm.native_translate(d, target),
            None => target,
        };
        Some(vm.read(addr))
    }

    /// The record that the backward link leads to, found through the kernel's
    /// address space. `None` where the link is zero.
    pub fn get_previous_from_kernel_initial_process<T: Pod>(
        &self,
        vm: &VMBinding,
        list_entry_offset_in_target_struct: u64,
    ) -> (r: Option<T>)
        ensures
            r == if self.blink == 0 {
                None
            } else {
                Some(
                    decoded::<T>(
                        vm.mem@.read_or_zeros(
                            Self::record_address(
                                vm.mem@,
                                Some(vm.initial_process.dirbase),
                                self.blink,
                                list_entry_offset_in_target_struct,
                            ),
                            T::size_of() as int,
                        ),
                    ),
                )
            },
    {
        self.get_previous_with_dirbase(
            vm,
            Some(vm.initial_process.dirbase),
            list_entry_offset_in_target_struct,
        )
    }

    /// The record that the backward link leads to, found as
    /// `get_next_with_dirbase` finds the next one. `None` where the link is zero.
    pub fn get_previous_with_dirbase<T: Pod>(
        &self,
        vm: &VMBinding,
        dirbase: Option<u64>,
        list_entry_offset_in_target_struct: u64,
    ) -> (r: Option<T>)
        ensures
            r == if self.blink == 0 {
                None
            } else {
                Some(
                    decoded::<T>(
                        vm.mem@.read_or_zeros(
                            Self::record_address(
                                vm.mem@,
                                dirbase,
                                self.blink,
                                list_entry_offset_in_target_struct,
                            ),
                            T::size_of() as int,
                        ),
                    ),
                )
            },
    {
        if self.blink == 0 {
            return None;
        }
        let target = self.blink.wrapping_sub(list_entry_offset_in_target_struct);
        let addr = match dirbase {
            Some(d) => vm.native_translate(d, target),
            None => target,
        };
        Some(vm.read(addr))
    }
}

} // verus!
