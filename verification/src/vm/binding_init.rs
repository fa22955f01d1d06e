//! Finding the guest's kernel in nothing but its physical memory: the low
//! stub that names the kernel's page tables and its entry point, the kernel
//! image near that entry point, and the version of the system that it is.

use crate::bytes::{decoded, get_u16, get_u32, get_u64, get_u8, u16_at, u32_at, u64_at, Pod};
use crate::vm::binding_core::{MemoryWindow, PhysMem};
use crate::vm::{ProcessData, VMBinding, WinExport, WinProc};
use crate::win::pe::IMAGE_DOS_SIGNATURE;
use crate::win::Offsets;
use vstd::prelude::*;
use vstd::string::StringExecFns;

verus! {

/// Size of the windows in which the scans read memory.
pub const SCAN_WINDOW: u64 = 0x10000;

/// Number of windows at the bottom of physical memory that are searched for
/// the low stub.
pub const LOW_STUB_WINDOWS: u64 = 10;

/// The bits of the first quadword of the low stub that are fixed.
pub const LOW_STUB_MASK: u64 = 0xffff_ffff_ffff_00ff;

/// What the fixed bits of the first quadword of the low stub are: a jump.
pub const LOW_STUB_SIGNATURE: u64 = 0x0000_0001_0006_00E9;

/// The bits that every address in kernel space has set.
pub const KERNEL_SPACE: u64 = 0xffff_f800_0000_0000;

/// The bits that are zero in the address that the low stub holds of the root
/// page table: the low twelve, for the table is a page, and the high forty,
/// for it lies in low memory.
pub const NOT_A_TABLE: u64 = 0xffff_ffff_ff00_0fff;

/// The tag "INITKDBG" as a quadword.
pub const TAG_KDBG: u64 = 0x4742_444b_5449_4e49;

/// The tag "POOLCODE" as a quadword.
pub const TAG_POOLCODE: u64 = 0x4544_4f43_4c4f_4f50;

/// How far below and above the kernel entry point the kernel image is sought.
pub const KERNEL_SEARCH_SPAN: u64 = 0x2000_0000;

/// The distance between the blocks of the search for the kernel image.
pub const KERNEL_SEARCH_BLOCK: u64 = 0x20_0000;

/// Number of bytes of the version routine that are looked at.
pub const VERSION_CODE_SIZE: u64 = 0x100;

/// Number of offsets in the version routine at which an instruction is sought.
pub const VERSION_SCAN_END: u64 = 240;

/// Whether the page at offset `o` of `buf` is the low stub: it starts with the
/// jump, holds an address in kernel space at 0x70 and the physical address of
/// a page table in low memory at 0xa0.
pub open spec fn is_low_stub(buf: Seq<u8>, o: int) -> bool {
    &&& u64_at(buf, o) & LOW_STUB_MASK == LOW_STUB_SIGNATURE
    &&& u64_at(buf, o + 0x70) & KERNEL_SPACE == KERNEL_SPACE
    &&& u64_at(buf, o + 0xa0) & NOT_A_TABLE == 0
}

/// Whether the quadword `tag` starts at one of the offsets from `u` on in the
/// first 4 KiB of the page at offset `p` of `buf`; a quadword that does not
/// fit in `buf` is not looked at.
pub open spec fn has_tag(buf: Seq<u8>, p: int, tag: u64, u: int) -> bool
    decreases 0x1000 - u,
{
    if u >= 0x1000 {
        false
    } else {
        (p + u + 8 <= buf.len() && u64_at(buf, p + u) == tag) || has_tag(buf, p, tag, u + 1)
    }
}

/// Whether the page at offset `p` of `buf` looks like the start of the kernel
/// image: it starts with "MZ" and holds both tags.
pub open spec fn looks_like_kernel(buf: Seq<u8>, p: int) -> bool {
    &&& u16_at(buf, p) == IMAGE_DOS_SIGNATURE
    &&& has_tag(buf, p, TAG_KDBG, 0)
    &&& has_tag(buf, p, TAG_POOLCODE, 0)
}

/// What the scan of the version routine `buf` gives from offset `i` on, with
/// `major` and `minor` found so far. An instruction that stores one quadword
/// to offset 4 of the structure gives both numbers at once, if none was found
/// before; else the first store to offset 4 gives the major and the first
/// store to offset 8 the minor version. A minor version of 100 or more
/// counts as zero.
pub open spec fn version_scan(buf: Seq<u8>, i: int, major: u8, minor: u8) -> u16
    decreases VERSION_SCAN_END - i,
{
    if i >= VERSION_SCAN_END {
        if minor >= 100 {
            (major * 100) as u16
        } else {
            (major * 100 + minor) as u16
        }
    } else {
        let firstlong = u32_at(buf, i);
        if major == 0 && minor == 0 && firstlong == 0x441c748 {
            u16_at(buf, i + 4).wrapping_mul(100).wrapping_add((buf[i + 5] & 0xf) as u16)
        } else {
            version_scan(
                buf,
                i + 1,
                if major == 0 && firstlong & 0xfffff == 0x441c7 {
                    buf[i + 3]
                } else {
                    major
                },
                if minor == 0 && firstlong & 0xfffff == 0x841c7 {
                    buf[i + 3]
                } else {
                    minor
                },
            )
        }
    }
}

/// What the scan of the version routine `buf` gives for the build from offset
/// `i` on: the operand of the first instruction that stores to offset 12 of
/// the structure, or zero if there is none.
pub open spec fn build_scan(buf: Seq<u8>, i: int) -> u32
    decreases VERSION_SCAN_END - i,
{
    if i >= VERSION_SCAN_END {
        0
    } else if u32_at(buf, i) & 0xffffff == 0x0c41c7 || u32_at(buf, i) & 0xffffff == 0x05c01b {
        u32_at(buf, i + 3)
    } else {
        build_scan(buf, i + 1)
    }
}

/// Recovers the version of the system from the code of its version routine:
/// one hundred times the major version plus the minor one.
pub fn scan_nt_version(buf: &[u8]) -> (r: u16)
    requires
        buf@.len() == VERSION_CODE_SIZE,
    ensures
        r == version_scan(buf@, 0, 0, 0),
{
    let mut major: u8 = 0;
    let mut minor: u8 = 0;
    let mut i: usize = 0;
    while i < 240
        invariant
            i <= 240,
            buf@.len() == VERSION_CODE_SIZE,
            version_scan(buf@, 0, 0, 0) == version_scan(buf@, i as int, major, minor),
        decreases 240 - i,
    {
        let firstlong = get_u32(buf, i);
        if major == 0 && minor == 0 {
            if firstlong == 0x441c748 {
                return get_u16(buf, i + 4).wrapping_mul(100).wrapping_add(
                    (get_u8(buf, i + 5) & 0xf) as u16,
                );
            }
        }
        if major == 0 && firstlong & 0xfffff == 0x441c7 {
            major = get_u8(buf, i + 3);
        }
        if minor == 0 && firstlong & 0xfffff == 0x841c7 {
            minor = get_u8(buf, i + 3);
        }
        i = i + 1;
    }
    if minor >= 100 {
        minor = 0;
    }
    major as u16 * 100 + minor as u16
}

/// Recovers the build number of the system from the code of its version
/// routine.
pub fn scan_nt_build(buf: &[u8]) -> (r: u32)
    requires
        buf@.len() == VERSION_CODE_SIZE,
    ensures
        r == build_scan(buf@, 0),
{
    let mut i: usize = 0;
    while i < 240
        invariant
            i <= 240,
            buf@.len() == VERSION_CODE_SIZE,
            build_scan(buf@, 0) == build_scan(buf@, i as int),
        decreases 240 - i,
    {
        let firstlong = get_u32(buf, i);
        let val = firstlong & 0xffffff;
        if val == 0x0c41c7 || val == 0x05c01b {
            return get_u32(buf, i + 3);
        }
        i = i + 1;
    }
    0
}

/// Whether the page at offset `p` of the window `buf` holds the quadword
/// `tag` in its first 4 KiB.
fn find_tag(buf: &[u8], p: usize, tag: u64) -> (r: bool)
    requires
        p + 0x1000 <= buf@.len(),
    ensures
        r == has_tag(buf@, p as int, tag, 0),
{
    let mut u: usize = 0;
    while u < 0x1000
        invariant
            u <= 0x1000,
            p + 0x1000 <= buf.len(),
            has_tag(buf@, p as int, tag, 0) == has_tag(buf@, p as int, tag, u as int),
        decreases 0x1000 - u,
    {
        if buf.len() - (p + u) >= 8 {
            if get_u64(buf, p + u) == tag {
                return true;
            }
        }
        u = u + 1;
    }
    false
}

/// What the bootstrap finds out about a guest.
pub struct BootInfo {
    /// Root of the page tables of the kernel.
    pub dirbase: u64,
    /// Entry point of the kernel.
    pub kernel_entry: u64,
    /// Base of the kernel image.
    pub kernel_base: u64,
    /// Virtual address of the record of the initial process.
    pub eprocess_va: u64,
    /// Physical address of the record of the initial process.
    pub eprocess_addr: u64,
    /// One hundred times the major version of the system plus the minor one.
    pub nt_version: u16,
    /// Build number of the system.
    pub nt_build: u32,
    /// Offsets of the fields of a process record in this version.
    pub offsets: Offsets,
}

impl PhysMem {
    /// The window of 64 KiB of physical memory at `gpa`, as a scan reads it.
    pub open spec fn physical_window(self, gpa: u64) -> Seq<u8> {
        self.read_or_zeros(gpa, SCAN_WINDOW as int)
    }

    /// The page table root and the kernel entry point that the first low stub
    /// from page `page` on names, the pages being those of the first ten
    /// windows of physical memory.
    pub open spec fn low_stub_from(self, page: int) -> Option<(u64, u64)>
        decreases 160 - page,
    {
        if page < 0 || page >= 160 {
            None
        } else {
            let buf = self.physical_window(((page / 16) * 0x10000) as u64);
            let o = (page % 16) * 0x1000;
            if is_low_stub(buf, o) {
                Some((u64_at(buf, o + 0xa0), u64_at(buf, o + 0x70)))
            } else {
                self.low_stub_from(page + 1)
            }
        }
    }

    /// The window of 64 KiB at the virtual address `base`, as the search for
    /// the kernel reads it.
    pub open spec fn kernel_window(self, dirbase: u64, base: u64) -> Seq<u8> {
        self.vbytes(dirbase, base as int, SCAN_WINDOW as int)
    }

    /// Whether the kernel image starts at offset `p` of the window at `base`:
    /// the page looks like the kernel and its exports can be read.
    pub open spec fn is_kernel_at(self, dirbase: u64, base: u64, p: int) -> bool {
        &&& looks_like_kernel(self.kernel_window(dirbase, base), p)
        &&& self.export_fault(dirbase, base.wrapping_add(p as u64)) is None
    }

    /// The first page from offset `p` on of the window at `base` at which the
    /// kernel image starts.
    pub open spec fn kernel_in_window(self, dirbase: u64, base: u64, p: int) -> Option<u64>
        decreases 0x10000 - p,
    {
        if p < 0 || p + 0x1000 > 0x10000 {
            None
        } else if self.is_kernel_at(dirbase, base, p) {
            Some(base.wrapping_add(p as u64))
        } else {
            self.kernel_in_window(dirbase, base, p + 0x1000)
        }
    }

    /// The first page at which the kernel image starts in the windows from
    /// window `o` on of the block of 2 MiB at `block`.
    pub open spec fn kernel_in_block(self, dirbase: u64, block: u64, o: int) -> Option<u64>
        decreases 0x20 - o,
    {
        if o < 0 || o >= 0x20 {
            None
        } else {
            match self.kernel_in_window(dirbase, block.wrapping_add((0x10000 * o) as u64), 0) {
                Some(base) => Some(base),
                None => self.kernel_in_block(dirbase, block, o + 1),
            }
        }
    }

    /// The first page at which the kernel image starts in the blocks from
    /// `block` on downwards, as long as they lie above `bottom`.
    pub open spec fn kernel_from(self, dirbase: u64, block: u64, bottom: u64) -> Option<u64>
        decreases block,
    {
        if block <= bottom {
            None
        } else {
            match self.kernel_in_block(dirbase, block, 0) {
                Some(base) => Some(base),
                None => if block < KERNEL_SEARCH_BLOCK {
                    None
                } else {
                    self.kernel_from(dirbase, (block - KERNEL_SEARCH_BLOCK) as u64, bottom)
                },
            }
        }
    }

    /// The base of the kernel image: the first page at which it starts in the
    /// blocks of 2 MiB from 512 MiB above the block of the entry point down to
    /// 512 MiB below the entry point, the pages of a block in rising order.
    pub open spec fn kernel_base(self, dirbase: u64, kernel_entry: u64) -> Option<u64> {
        self.kernel_from(
            dirbase,
            (kernel_entry & !0x1f_ffffu64).wrapping_add(KERNEL_SEARCH_SPAN),
            kernel_entry.wrapping_sub(KERNEL_SEARCH_SPAN),
        )
    }

    /// The address of the export called `name` among the first `n` named
    /// exports of the image at `module_base`. Where the name comes twice, the
    /// later entry counts.
    pub open spec fn export_lookup(self, dirbase: u64, module_base: u64, name: Seq<char>, n: int) -> Option<
        u64,
    >
        decreases n,
    {
        let dir = self.export_directory(dirbase, module_base);
        if n <= 0 {
            None
        } else if self.export_name(dirbase, module_base, dir, (n - 1) as u64) == name {
            Some(self.export_address(dirbase, module_base, dir, (n - 1) as u64))
        } else {
            self.export_lookup(dirbase, module_base, name, n - 1)
        }
    }

    /// The address of the export called `name` of the image at `module_base`.
    pub open spec fn export_named(self, dirbase: u64, module_base: u64, name: Seq<char>) -> Option<u64> {
        self.export_lookup(
            dirbase,
            module_base,
            name,
            self.export_directory(dirbase, module_base).NumberOfNames as int,
        )
    }

    /// Looking a name up in a list of the exports of an image is looking it up
    /// in the image.
    pub proof fn lemma_lookup_export(
        self,
        dirbase: u64,
        module_base: u64,
        exports: Seq<WinExport>,
        name: Seq<char>,
        n: int,
    )
        requires
            self.is_export_list(dirbase, module_base, exports),
            0 <= n <= exports.len(),
        ensures
            VMBinding::lookup_export(exports.take(n), name) == self.export_lookup(
                dirbase,
                module_base,
                name,
                n,
            ),
        decreases n,
    {
        if n > 0 {
            assert(exports.take(n).last() == exports[n - 1]);
            assert(exports.take(n).drop_last() =~= exports.take(n - 1));
            self.lemma_lookup_export(dirbase, module_base, exports, name, n - 1);
        }
    }

    /// The 64-bit value at the virtual address `address`.
    pub open spec fn vread_u64(self, dirbase: u64, address: u64) -> u64 {
        decoded::<u64>(self.vbytes(dirbase, address as int, 8))
    }

    /// The version of the system whose version routine is at `routine`: zero
    /// where the routine was not found.
    pub open spec fn nt_version(self, dirbase: u64, routine: Option<u64>) -> u16 {
        match routine {
            None => 0,
            Some(addr) => if addr == 0 {
                0
            } else {
                version_scan(self.vbytes(dirbase, addr as int, VERSION_CODE_SIZE as int), 0, 0, 0)
            },
        }
    }

    /// The build of the system whose version routine is at `routine`: zero
    /// where the routine was not found.
    pub open spec fn nt_build(self, dirbase: u64, routine: Option<u64>) -> u32 {
        match routine {
            None => 0,
            Some(addr) => if addr == 0 {
                0
            } else {
                build_scan(self.vbytes(dirbase, addr as int, VERSION_CODE_SIZE as int), 0)
            },
        }
    }

    /// What the bootstrap finds in this memory, or `None` where a step fails:
    /// the low stub, the kernel image near the entry point that the stub
    /// names, the export of the kernel that holds the address of the initial
    /// process, and a version of the system for which the offsets are known.
    pub open spec fn boot(self) -> Option<BootInfo> {
        match self.low_stub_from(0) {
            None => None,
            Some((pml4, kernel_entry)) => match self.kernel_base(pml4, kernel_entry) {
                None => None,
                Some(kernel_base) => match self.export_named(
                    pml4,
                    kernel_base,
                    "PsInitialSystemProcess"@,
                ) {
                    None => None,
                    Some(init_proc_addr) => {
                        let routine = self.export_named(pml4, kernel_base, "RtlGetVersion"@);
                        let nt_version = self.nt_version(pml4, routine);
                        let nt_build = self.nt_build(pml4, routine);
                        let eprocess_va = self.vread_u64(pml4, init_proc_addr);
                        if init_proc_addr == 0 {
                            None
                        } else {
                            match Offsets::row(nt_version, nt_build) {
                                None => None,
                                Some(offsets) => Some(
                                    BootInfo {
                                        dirbase: pml4,
                                        kernel_entry,
                                        kernel_base,
                                        eprocess_va,
                                        eprocess_addr: self.translate(pml4, eprocess_va),
                                        nt_version,
                                        nt_build,
                                        offsets,
                                    },
                                ),
                            }
                        }
                    },
                },
            },
        }
    }
}

impl VMBinding {
    /// Looks for the low stub in the first ten windows of physical memory, a
    /// page at a time, and returns the page table root and the kernel entry
    /// point that the first one names.
    pub fn find_initial_process(&self) -> (r: Option<(u64, u64)>)
        ensures
            r == self.mem@.low_stub_from(0),
    {
        let mut i: u64 = 0;
        while i < LOW_STUB_WINDOWS
            invariant
                i <= LOW_STUB_WINDOWS,
                self.mem@.low_stub_from(0) == self.mem@.low_stub_from(i * 16),
            decreases LOW_STUB_WINDOWS - i,
        {
            let buf = self.readvec(i * SCAN_WINDOW, SCAN_WINDOW);
            let mut o: usize = 0;
            while o < 0x10000
                invariant
                    i < LOW_STUB_WINDOWS,
                    o <= 0x10000,
                    o % 0x1000 == 0,
                    buf@ == self.mem@.physical_window((i * 0x10000) as u64),
                    buf@.len() == 0x10000,
                    self.mem@.low_stub_from(0) == self.mem@.low_stub_from(i * 16 + o / 0x1000),
                decreases 0x10000 - o,
            {
                let ghost page = (i * 16 + o / 0x1000) as int;
                assert(page / 16 == i && page % 16 == o / 0x1000);
                let ulonglong = get_u64(buf.as_slice(), o);
                let x70_ulonglong = get_u64(buf.as_slice(), o + 0x70);
                let xa0_ulonglong = get_u64(buf.as_slice(), o + 0xa0);
                if ulonglong & LOW_STUB_MASK == LOW_STUB_SIGNATURE && x70_ulonglong & KERNEL_SPACE
                    == KERNEL_SPACE && xa0_ulonglong & NOT_A_TABLE == 0 {
                    return Some((xa0_ulonglong, x70_ulonglong));
                }
                assert(self.mem@.low_stub_from(page) == self.mem@.low_stub_from(page + 1));
                o = o + 0x1000;
            }
            i = i + 1;
        }
        None
    }

    /// Says whether the kernel image starts at offset `p` of the window `buf`,
    /// which was read at `base`, and reads its exports if it does.
    fn probe_kernel(&self, buf: &[u8], base: u64, p: usize) -> (r: Option<(u64, Vec<WinExport>)>)
        requires
            buf@ == self.mem@.kernel_window(self.initial_process.dirbase, base),
            buf@.len() == 0x10000,
            p + 0x1000 <= 0x10000,
        ensures
            r is Some <==> self.mem@.is_kernel_at(self.initial_process.dirbase, base, p as int),
            r is Some ==> r.unwrap().0 == base.wrapping_add(p as u64) && self.mem@.is_export_list(
                self.initial_process.dirbase,
                r.unwrap().0,
                r.unwrap().1@,
            ),
    {
        if get_u16(buf, p) == IMAGE_DOS_SIGNATURE && find_tag(buf, p, TAG_KDBG) && find_tag(
            buf,
            p,
            TAG_POOLCODE,
        ) {
            let nt_kernel = base.wrapping_add(p as u64);
            match self.get_module_exports(self.initial_process.dirbase, nt_kernel) {
                Ok(kexports) => Some((nt_kernel, kexports)),
                Err(_) => None,
            }
        } else {
            None
        }
    }

    /// Looks for the kernel image in the window of 64 KiB at `base`.
    fn scan_window(&self, base: u64) -> (r: Option<(u64, Vec<WinExport>)>)
        ensures
            match r {
                Some((kernel, exports)) => {
                    &&& self.mem@.kernel_in_window(self.initial_process.dirbase, base, 0) == Some(
                        kernel,
                    )
                    &&& self.mem@.is_export_list(self.initial_process.dirbase, kernel, exports@)
                },
                None => self.mem@.kernel_in_window(self.initial_process.dirbase, base, 0) is None,
            },
    {
        let dirbase = self.initial_process.dirbase;
        let buf = self.vreadvec(dirbase, base, SCAN_WINDOW);
        let mut p: usize = 0;
        while p < 0x10000
            invariant
                p <= 0x10000,
                p % 0x1000 == 0,
                dirbase == self.initial_process.dirbase,
                buf@ == self.mem@.kernel_window(dirbase, base),
                buf@.len() == 0x10000,
                self.mem@.kernel_in_window(dirbase, base, 0) == self.mem@.kernel_in_window(
                    dirbase,
                    base,
                    p as int,
                ),
            decreases 0x10000 - p,
        {
            match self.probe_kernel(buf.as_slice(), base, p) {
                Some(found) => {
                    return Some(found);
                },
                None => {},
            }
            p = p + 0x1000;
        }
        None
    }

    /// Looks for the kernel image in the 32 windows of the block at `block`.
    fn scan_block(&self, block: u64) -> (r: Option<(u64, Vec<WinExport>)>)
        ensures
            match r {
                Some((kernel, exports)) => {
                    &&& self.mem@.kernel_in_block(self.initial_process.dirbase, block, 0) == Some(
                        kernel,
                    )
                    &&& self.mem@.is_export_list(self.initial_process.dirbase, kernel, exports@)
                },
                None => self.mem@.kernel_in_block(self.initial_process.dirbase, block, 0) is None,
            },
    {
        let mut o: u64 = 0;
        while o < 0x20
            invariant
                o <= 0x20,
                self.mem@.kernel_in_block(self.initial_process.dirbase, block, 0)
                    == self.mem@.kernel_in_block(self.initial_process.dirbase, block, o as int),
            decreases 0x20 - o,
        {
            match self.scan_window(block.wrapping_add(0x10000 * o)) {
                Some(found) => {
                    return Some(found);
                },
                None => {},
            }
            o = o + 1;
        }
        None
    }

    /// Looks for the kernel image around the entry point `kernel_entry`, in
    /// the kernel's address space, and reads its exports. The image is the
    /// first page that starts with "MZ", holds the tags "INITKDBG" and
    /// "POOLCODE" in its first 4 KiB, and has exports that can be read.
    pub fn find_nt_kernel(&self, kernel_entry: u64) -> (r: Option<(u64, Vec<WinExport>)>)
        ensures
            match r {
                Some((kernel, exports)) => {
                    &&& self.mem@.kernel_base(self.initial_process.dirbase, kernel_entry) == Some(
                        kernel,
                    )
                    &&& self.mem@.is_export_list(self.initial_process.dirbase, kernel, exports@)
                },
                None => self.mem@.kernel_base(self.initial_process.dirbase, kernel_entry) is None,
            },
    {
        let bottom = kernel_entry.wrapping_sub(KERNEL_SEARCH_SPAN);
        let mut i: u64 = (kernel_entry & !0x1f_ffffu64).wrapping_add(KERNEL_SEARCH_SPAN);
        while i > bottom
            invariant
                self.mem@.kernel_base(self.initial_process.dirbase, kernel_entry)
                    == self.mem@.kernel_from(self.initial_process.dirbase, i, bottom),
            decreases i,
        {
            match self.scan_block(i) {
                Some(found) => {
                    return Some(found);
                },
                None => {},
            }
            if i < KERNEL_SEARCH_BLOCK {
                return None;
            }
            i = i - KERNEL_SEARCH_BLOCK;
        }
        None
    }

    /// Recovers the version of the system from the code of the kernel's
    /// version routine: one hundred times the major version plus the minor
    /// one, or zero where the kernel does not export the routine.
    pub fn get_nt_version(&self) -> (r: u16)
        ensures
            r == self.mem@.nt_version(
                self.initial_process.dirbase,
                Self::lookup_export(self.cached_nt_exports@, "RtlGetVersion"@),
            ),
    {
        let get_version = match self.find_kernel_export("RtlGetVersion") {
            None => {
                return 0;
            },
            Some(addr) => addr,
        };
        if get_version == 0 {
            return 0;
        }
        let buf = self.vreadvec(self.initial_process.dirbase, get_version, VERSION_CODE_SIZE);
        scan_nt_version(buf.as_slice())
    }

    /// Recovers the build number of the system from the code of the kernel's
    /// version routine, or zero where none is found.
    pub fn get_nt_build(&self) -> (r: u32)
        ensures
            r == self.mem@.nt_build(
                self.initial_process.dirbase,
                Self::lookup_export(self.cached_nt_exports@, "RtlGetVersion"@),
            ),
    {
        let get_version = match self.find_kernel_export("RtlGetVersion") {
            None => {
                return 0;
            },
            Some(addr) => addr,
        };
        if get_version == 0 {
            return 0;
        }
        let buf = self.vreadvec(self.initial_process.dirbase, get_version, VERSION_CODE_SIZE);
        scan_nt_build(buf.as_slice())
    }

    /// What the bootstrap found for this guest.
    pub open spec fn boot_info(&self) -> BootInfo {
        BootInfo {
            dirbase: self.initial_process.dirbase,
            kernel_entry: self.nt_kernel_entry,
            kernel_base: self.nt_kernel_modulebase,
            eprocess_va: self.initial_process.eprocess_va,
            eprocess_addr: self.initial_process.eprocess_addr,
            nt_version: self.nt_version,
            nt_build: self.nt_build,
            offsets: self.offsets.unwrap(),
        }
    }

    /// Binds to the guest whose physical memory `mem` holds, which was found
    /// on the host as `process` says. The guest is bootstrapped from its
    /// memory alone; if a step fails, there is no binding.
    pub fn new(process: ProcessData, mem: MemoryWindow) -> (r: Option<VMBinding>)
        ensures
            match r {
                Some(vm) => {
                    &&& vm.mem@ == mem@
                    &&& vm.process == process
                    &&& vm.offsets is Some
                    &&& mem@.boot() == Some(vm.boot_info())
                    &&& mem@.is_export_list(
                        vm.initial_process.dirbase,
                        vm.nt_kernel_modulebase,
                        vm.cached_nt_exports@,
                    )
                    &&& vm.initial_process.pid == 0
                    &&& vm.initial_process.name@ == Seq::<char>::empty()
                },
                None => mem@.boot() is None,
            },
    {
        let mut binding = VMBinding {
            offsets: None,
            cached_nt_exports: Vec::new(),
            nt_kernel_entry: 0,
            nt_kernel_modulebase: 0,
            nt_version: 0,
            nt_build: 0,
            process,
            initial_process: WinProc {
                eprocess_va: 0,
                eprocess_addr: 0,
                dirbase: 0,
                pid: 0,
                name: String::new(),
            },
            mem,
        };
        let (pml4, kernel_entry) = match binding.find_initial_process() {
            Some(s) => s,
            None => {
                return None;
            },
        };
        binding.initial_process.dirbase = pml4;
        binding.nt_kernel_entry = kernel_entry;
        match binding.find_nt_kernel(kernel_entry) {
            Some((ntk, kexports)) => {
                binding.nt_kernel_modulebase = ntk;
                binding.cached_nt_exports = kexports;
            },
            None => {
                return None;
            },
        }
        proof {
            let exports = binding.cached_nt_exports@;
            assert(exports.take(exports.len() as int) =~= exports);
            binding.mem@.lemma_lookup_export(
                pml4,
                binding.nt_kernel_modulebase,
                exports,
                "PsInitialSystemProcess"@,
                exports.len() as int,
            );
            binding.mem@.lemma_lookup_export(
                pml4,
                binding.nt_kernel_modulebase,
                exports,
                "RtlGetVersion"@,
                exports.len() as int,
            );
        }
        let init_proc_addr = match binding.find_kernel_export("PsInitialSystemProcess") {
            None => {
                return None;
            },
            Some(addr) => addr,
        };
        if init_proc_addr == 0 {
            return None;
        }
        let eprocess_va: u64 = binding.vread(pml4, init_proc_addr);
        binding.initial_process.eprocess_va = eprocess_va;
        binding.initial_process.eprocess_addr = binding.native_translate(pml4, eprocess_va);
        binding.nt_version = binding.get_nt_version();
        binding.nt_build = binding.get_nt_build();
        binding.offsets = Offsets::get_offsets(binding.nt_version, binding.nt_build);
        if binding.offsets.is_none() {
            return None;
        }
        Some(binding)
    }
}

} // verus!
