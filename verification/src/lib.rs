//! Introspection of a Windows guest through a window onto its physical memory:
//! physical and virtual reads and writes, the x86-64 page walk, discovery of the
//! kernel image, and traversal of the kernel's process, thread and module lists.

use crate::bytes::{decoded, Pod};
use crate::vm::mlayout::{be_bytes, hex_text, to_hex};
use crate::vm::VMBinding;
use vstd::prelude::*;
use vstd::string::StringExecFns;

pub mod bytes;
pub mod proc_kernelinfo;

pub mod text;
pub mod vm;
pub mod win;

verus! {

/// An address in the guest. It is a plain number, never dereferenced on the
/// host; reading what it points to takes a binding to the guest.
#[derive(Clone, Copy, Debug)]
pub struct RemotePtr {
    addr: u64,
}

impl View for RemotePtr {
    type V = u64;

    closed spec fn view(&self) -> u64 {
        self.addr
    }
}

impl RemotePtr {
    /// A pointer to the address `addr`.
    pub fn new(addr: u64) -> (r: Self)
        ensures
            r@ == addr,
    {
        Self { addr }
    }

    /// The address.
    pub fn addr(&self) -> (a: u64)
        ensures
            a == self@,
    {
        self.addr
    }

    /// The pointer `offset` bytes further on, or back if `offset` is
    /// negative, around the ends of the address space.
    pub fn with_offset(&self, offset: i64) -> (r: Self)
        ensures
            r@ == self@.wrapping_add_signed(offset),
    {
        Self { addr: self.addr.wrapping_add_signed(offset) }
    }

    /// Reads a value of type `T` at `offset` bytes from the pointer, taken as
    /// a physical address.
    pub fn read<T: Pod>(&self, vm: &VMBinding, offset: i64) -> (r: T)
        ensures
            r == decoded::<T>(
                vm.mem@.read_or_zeros(self@.wrapping_add_signed(offset), T::size_of() as int),
            ),
    {
        vm.read(self.addr.wrapping_add_signed(offset))
    }

    /// Reads a value of type `T` at `offset` bytes from the pointer, taken as
    /// an address in the address space rooted at `dtb`.
    pub fn vread<T: Pod>(&self, vm: &VMBinding, dtb: u64, offset: i64) -> (r: T)
        ensures
            r == decoded::<T>(
                vm.mem@.vbytes(dtb, self@.wrapping_add_signed(offset) as int, T::size_of() as int),
            ),
    {
        vm.vread(dtb, self.addr.wrapping_add_signed(offset))
    }

    /// Reads `len` bytes at `offset` bytes from the pointer, taken as a
    /// physical address.
    pub fn readvec(&self, vm: &VMBinding, offset: i64, len: u64) -> (r: Vec<u8>)
        ensures
            r@ == vm.mem@.read_or_zeros(self@.wrapping_add_signed(offset), len as int),
    {
        vm.readvec(self.addr.wrapping_add_signed(offset), len)
    }

    /// Reads `len` bytes at `offset` bytes from the pointer, taken as an
    /// address in the address space rooted at `dtb`.
    pub fn vreadvec(&self, vm: &VMBinding, dtb: u64, offset: i64, len: u64) -> (r: Vec<u8>)
        ensures
            r@ == vm.mem@.vbytes(dtb, self@.wrapping_add_signed(offset) as int, len as int),
    {
        vm.vreadvec(dtb, self.addr.wrapping_add_signed(offset), len)
    }

    /// The address as text: `0x` and sixteen hexadecimal digits.
    pub fn print(&self) -> (s: String)
        ensures
            s@ == "0x"@ + hex_text(be_bytes(self@)),
    {
        let digits = to_hex(self.addr);
        String::from_str("0x").concat(digits.as_str())
    }
}

/// An address in the guest at which a value of type `T` is expected.
pub struct TypedRemotePtr<T> {
    ptr: RemotePtr,
    typ: std::marker::PhantomData<T>,
}

impl<T> Clone for TypedRemotePtr<T> {
    fn clone(&self) -> (r: Self)
        ensures
            r@ == self@,
    {
        Self { ptr: self.ptr, typ: std::marker::PhantomData }
    }
}

impl<T> Copy for TypedRemotePtr<T> {

}

impl<T> View for TypedRemotePtr<T> {
    type V = u64;

    closed spec fn view(&self) -> u64 {
        self.ptr@
    }
}

impl<T: Pod> TypedRemotePtr<T> {
    /// A pointer to a value of type `T` at the address `addr`.
    pub fn new(addr: u64) -> (r: Self)
        ensures
            r@ == addr,
    {
        Self { ptr: RemotePtr::new(addr), typ: std::marker::PhantomData }
    }

    /// The address.
    pub fn addr(&self) -> (a: u64)
        ensures
            a == self@,
    {
        self.ptr.addr()
    }

    /// Reads the value at `offset` bytes from the pointer, taken as a
    /// physical address.
    pub fn read(&self, vm: &VMBinding, offset: i64) -> (r: T)
        ensures
            r == decoded::<T>(
                vm.mem@.read_or_zeros(self@.wrapping_add_signed(offset), T::size_of() as int),
            ),
    {
        self.ptr.read(vm, offset)
    }

    /// Reads the value at `offset` bytes from the pointer, taken as an
    /// address in the address space rooted at `dtb`.
    pub fn vread(&self, vm: &VMBinding, dtb: u64, offset: i64) -> (r: T)
        ensures
            r == decoded::<T>(
                vm.mem@.vbytes(dtb, self@.wrapping_add_signed(offset) as int, T::size_of() as int),
            ),
    {
        self.ptr.vread(vm, dtb, offset)
    }

    /// How many bytes `readvec` and `vreadvec` read: `len` if it is given,
    /// else what is left of a value of type `T` behind `offset`.
    pub open spec fn read_len(offset: i64, len: Option<u64>) -> u64 {
        match len {
            Some(l) => l,
            None => (T::size_of() as u64).wrapping_sub(offset as u64),
        }
    }

    /// Reads bytes at `offset` bytes from the pointer, taken as a physical
    /// address.
    pub fn readvec(&self, vm: &VMBinding, offset: i64, len: Option<u64>) -> (r: Vec<u8>)
        ensures
            r@ == vm.mem@.read_or_zeros(
                self@.wrapping_add_signed(offset),
                Self::read_len(offset, len) as int,
            ),
    {
        let len_to_read = match len {
            Some(l) => l,
            None => (T::size() as u64).wrapping_sub(
                #[verifier::truncate]
                (offset as u64),
            ),
        };
        self.ptr.readvec(vm, offset, len_to_read)
    }

    /// Reads bytes at `offset` bytes from the pointer, taken as an address in
    /// the address space rooted at `dtb`.
    pub fn vreadvec(&self, vm: &VMBinding, dtb: u64, offset: i64, len: Option<u64>) -> (r: Vec<u8>)
        ensures
            r@ == vm.mem@.vbytes(
                dtb,
                self@.wrapping_add_signed(offset) as int,
                Self::read_len(offset, len) as int,
            ),
    {
        let len_to_read = match len {
            Some(l) => l,
            None => (T::size() as u64).wrapping_sub(
                #[verifier::truncate]
                (offset as u64),
            ),
        };
        self.ptr.vreadvec(vm, dtb, offset, len_to_read)
    }

    /// The address as text: `0x` and sixteen hexadecimal digits.
    pub fn print(&self) -> (s: String)
        ensures
            s@ == "0x"@ + hex_text(be_bytes(self@)),
    {
        self.ptr.print()
    }
}

} // verus!
