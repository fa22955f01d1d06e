//! What the kernel keeps of its own image and of its processes and threads:
//! the exports of an image, the environment block of a process, and the walks
//! of the process list and of a thread list.

use crate::bytes::{decoded, Pod};
use crate::proc_kernelinfo::ProcKernelInfo;
use crate::text::{latin1, padded_string, str_eq, until_nul};
use crate::vm::binding_core::PhysMem;
use crate::vm::{seen, VMBinding, WinExport};
use crate::win::eprocess::EPROCESS;
use crate::win::ethread::{ETHREAD, KTHREAD_THREAD_LIST_OFFSET};
use crate::win::heap_entry::HEAP;
use crate::win::list_entry::ListEntry;
use crate::win::pe::{
    ImageDataDirectory,
    ImageDosHeader,
    ImageExportDirectory,
    ImageNtHeaders32,
    ImageNtHeaders64,
    NtHeaders,
    IMAGE_DOS_SIGNATURE,
    IMAGE_NT_HEADERS_SIGNATURE,
    IMAGE_NT_OPTIONAL_HDR32_MAGIC,
    IMAGE_NT_OPTIONAL_HDR64_MAGIC,
};
use crate::win::peb::FullPEB;
use crate::win::peb_ldr_data::{LdrModule, PebLdrData};
use crate::win::teb::TEB;
use std::collections::HashMap;
use vstd::prelude::*;
use vstd::string::StringExecFns;

verus! {

/// Offset of the first data directory, that of the exports, in the headers of
/// a 64-bit image.
pub const EXPORT_DIRECTORY_OFFSET: u64 = 0x88;

/// The largest export directory that is taken for one.
pub const EXPORT_DIRECTORY_MAX_SIZE: u32 = 0x7fffff;

/// The most bytes that are read of the name of an export.
pub const EXPORT_NAME_MAX: u64 = 128;

/// Why the exports of an image could not be read.
#[derive(Copy, Clone, Debug, PartialEq, Eq, Structural)]
pub enum ExportError {
    /// There is no image at the address: a signature or a magic number is wrong.
    NoNtHeader,
    /// The export directory is larger than any real one.
    TableTooLarge,
    /// The export directory is said to lie at the image base itself.
    TableAtModuleBase,
    /// The export directory is smaller than its own header.
    TableTooSmall,
}

/// What a walk of the process list needs to know besides the memory: where the
/// links and the address of the environment block lie in a process record,
/// the kernel's address space, and the initial process.
pub struct WalkContext {
    /// Offset of the links of the list of active processes.
    pub apl: u64,
    /// Offset of the address of the environment block.
    pub peb: u64,
    /// Root of the page tables of the kernel.
    pub kernel_dirbase: u64,
    /// Virtual address of the record of the initial process.
    pub initial_va: u64,
    /// Physical address of the record of the initial process.
    pub initial_pa: u64,
}

impl PhysMem {
    /// The address of the image headers of the image at `address`, or `None`
    /// if there is no image: the image must start with "MZ", its headers with
    /// "PE", and the optional header must be that of a 64-bit or of a 32-bit
    /// image.
    pub open spec fn nt_header_address(self, dirbase: u64, address: u64) -> Option<u64> {
        let dos = decoded::<ImageDosHeader>(
            self.vbytes(dirbase, address as int, ImageDosHeader::size_of() as int),
        );
        let nt_addr = address + dos.e_lfanew;
        if dos.e_magic != IMAGE_DOS_SIGNATURE || nt_addr > u64::MAX {
            None
        } else {
            let nt = decoded::<ImageNtHeaders64>(
                self.vbytes(dirbase, nt_addr, ImageNtHeaders64::size_of() as int),
            );
            if nt.Signature != IMAGE_NT_HEADERS_SIGNATURE {
                None
            } else if nt.OptionalHeader.Magic == IMAGE_NT_OPTIONAL_HDR64_MAGIC
                || nt.OptionalHeader.Magic == IMAGE_NT_OPTIONAL_HDR32_MAGIC {
                Some(nt_addr as u64)
            } else {
                None
            }
        }
    }

    /// The image headers at `nt_addr`, read by the width that they declare.
    pub open spec fn nt_headers_at(self, dirbase: u64, nt_addr: u64) -> NtHeaders {
        let nt = decoded::<ImageNtHeaders64>(
            self.vbytes(dirbase, nt_addr as int, ImageNtHeaders64::size_of() as int),
        );
        if nt.OptionalHeader.Magic == IMAGE_NT_OPTIONAL_HDR64_MAGIC {
            NtHeaders::Bit64(nt)
        } else {
            NtHeaders::Bit32(
                decoded::<ImageNtHeaders32>(
                    self.vbytes(dirbase, nt_addr as int, ImageNtHeaders32::size_of() as int),
                ),
            )
        }
    }

    /// Where the export directory of the image at `module_base` lies and how
    /// large it is, as the headers at `nt_addr` say.
    pub open spec fn export_table(self, dirbase: u64, nt_addr: u64) -> ImageDataDirectory {
        decoded::<ImageDataDirectory>(
            self.vbytes(
                dirbase,
                nt_addr.wrapping_add(EXPORT_DIRECTORY_OFFSET) as int,
                ImageDataDirectory::size_of() as int,
            ),
        )
    }

    /// Why the exports of the image at `module_base` cannot be read, if they
    /// cannot. The size of the directory is checked against its upper bound
    /// first, then its place, then the lower bound of its size.
    pub open spec fn export_fault(self, dirbase: u64, module_base: u64) -> Option<ExportError> {
        match self.nt_header_address(dirbase, module_base) {
            None => Some(ExportError::NoNtHeader),
            Some(nt_addr) => {
                let table = self.export_table(dirbase, nt_addr);
                if table.Size > EXPORT_DIRECTORY_MAX_SIZE {
                    Some(ExportError::TableTooLarge)
                } else if table.VirtualAddress as u64 == module_base {
                    Some(ExportError::TableAtModuleBase)
                } else if table.Size < ImageExportDirectory::size_of() {
                    Some(ExportError::TableTooSmall)
                } else {
                    None
                }
            },
        }
    }

    /// The export directory of the image at `module_base`.
    pub open spec fn export_directory(self, dirbase: u64, module_base: u64) -> ImageExportDirectory {
        let table = self.export_table(
            dirbase,
            self.nt_header_address(dirbase, module_base).unwrap(),
        );
        decoded::<ImageExportDirectory>(
            self.vbytes(
                dirbase,
                module_base.wrapping_add(table.VirtualAddress as u64) as int,
                ImageExportDirectory::size_of() as int,
            ),
        )
    }

    /// The 32-bit value at the virtual address `address`.
    pub open spec fn vread_u32(self, dirbase: u64, address: u64) -> u32 {
        decoded::<u32>(self.vbytes(dirbase, address as int, 4))
    }

    /// The 16-bit value at the virtual address `address`.
    pub open spec fn vread_u16(self, dirbase: u64, address: u64) -> u16 {
        decoded::<u16>(self.vbytes(dirbase, address as int, 2))
    }

    /// The name of export `i` of the directory `dir` of the image at
    /// `module_base`: the string at the address that entry `i` of the table of
    /// names gives, at most 128 bytes of it; empty where that address is not
    /// mapped.
    pub open spec fn export_name(
        self,
        dirbase: u64,
        module_base: u64,
        dir: ImageExportDirectory,
        i: u64,
    ) -> Seq<char> {
        let name_pos = module_base.wrapping_add(dir.AddressOfNames as u64).wrapping_add(
            (4 * i) as u64,
        );
        let name_ptr = self.vread_u32(dirbase, name_pos);
        let gpa = self.translate(dirbase, module_base.wrapping_add(name_ptr as u64));
        if gpa == 0 {
            Seq::empty()
        } else {
            latin1(self.cstring(gpa as int, Some(EXPORT_NAME_MAX), 0))
        }
    }

    /// The address of export `i` of the directory `dir` of the image at
    /// `module_base`: entry `i` of the table of ordinals picks an entry of the
    /// table of functions, which is relative to the image base.
    pub open spec fn export_address(
        self,
        dirbase: u64,
        module_base: u64,
        dir: ImageExportDirectory,
        i: u64,
    ) -> u64 {
        let ordinal_pos = module_base.wrapping_add(dir.AddressOfNameOrdinals as u64).wrapping_add(
            (2 * i) as u64,
        );
        let ordinal = self.vread_u16(dirbase, ordinal_pos);
        let fn_pos = module_base.wrapping_add(dir.AddressOfFunctions as u64).wrapping_add(
            (4 * ordinal) as u64,
        );
        module_base.wrapping_add(self.vread_u32(dirbase, fn_pos) as u64)
    }

    /// Whether `exports` are the named exports of the image at `module_base`:
    /// one entry for each name of the export directory, in the order of the
    /// table of names.
    pub open spec fn is_export_list(self, dirbase: u64, module_base: u64, exports: Seq<WinExport>) -> bool {
        let dir = self.export_directory(dirbase, module_base);
        &&& exports.len() == dir.NumberOfNames
        &&& forall|i: int|
            0 <= i < exports.len() ==> {
                &&& (#[trigger] exports[i]).name@ == self.export_name(
                    dirbase,
                    module_base,
                    dir,
                    i as u64,
                )
                &&& exports[i].address == self.export_address(dirbase, module_base, dir, i as u64)
            }
    }

    /// The 64-bit value at the physical address `gpa`.
    pub open spec fn read_u64_at(self, gpa: u64) -> u64 {
        decoded::<u64>(self.read_or_zeros(gpa, 8))
    }

    /// The environment block of the process whose record is at the physical
    /// address `phys_process`: the record holds its address `peb_offset` bytes
    /// in, and the block is read in the address space rooted at `dirbase`.
    pub open spec fn peb_at(self, peb_offset: u64, dirbase: u64, phys_process: u64) -> FullPEB {
        decoded::<FullPEB>(
            self.vbytes(
                dirbase,
                self.read_u64_at(phys_process.wrapping_add(peb_offset)) as int,
                FullPEB::size_of() as int,
            ),
        )
    }

    /// The environment block of the process whose record is at the physical
    /// address `phys_process`.
    pub open spec fn full_peb(self, ctx: WalkContext, dirbase: u64, phys_process: u64) -> FullPEB {
        self.peb_at(ctx.peb, dirbase, phys_process)
    }

    /// The heap header read at slot `i` of the table of heaps of `peb`.
    pub open spec fn heap_at(self, dirbase: u64, peb: FullPEB, i: u64) -> HEAP {
        decoded::<HEAP>(
            self.vbytes(
                dirbase,
                peb.ProcessHeaps.wrapping_add((8 * i) as u64) as int,
                HEAP::size_of() as int,
            ),
        )
    }

    /// The process record at the physical address `pa`.
    pub open spec fn eprocess_at(self, pa: u64) -> EPROCESS {
        decoded::<EPROCESS>(self.read_or_zeros(pa, EPROCESS::size_of() as int))
    }

    /// The module record whose links, `offset` bytes into it, are at the
    /// address `link`.
    pub open spec fn module_behind(self, dirbase: Option<u64>, link: u64, offset: u64) -> LdrModule {
        decoded::<LdrModule>(LdrModule::bytes_behind(self, dirbase, link, offset))
    }

    /// The loader data that `peb` points to.
    pub open spec fn loader_of(self, dirbase: u64, peb: FullPEB) -> PebLdrData {
        decoded::<PebLdrData>(
            self.vbytes(dirbase, peb.Ldr as int, PebLdrData::size_of() as int),
        )
    }

    /// The name of the process whose record is at `pa`: the base name of the
    /// first module that its loader lists in memory order, or, where the
    /// loader lists none, the image file name in the record, which ends
    /// before the first zero byte of its fifteen.
    pub open spec fn process_name(self, ctx: WalkContext, pa: u64) -> Seq<char> {
        let eprocess = self.eprocess_at(pa);
        let dirbase = eprocess.Pcb.DirectoryTableBase;
        let ldr = self.loader_of(dirbase, self.full_peb(ctx, dirbase, pa));
        if ldr.InMemoryOrderModuleList.flink == 0 {
            latin1(until_nul(eprocess.ImageFileName@))
        } else {
            self.module_behind(
                Some(dirbase),
                ldr.InMemoryOrderModuleList.flink,
                0x10,
            ).BaseDllName.text(self, Some(dirbase), Some(512u16))
        }
    }

    /// Whether the image of the process whose record is at `pa` is still in
    /// place: the image base that its environment block names starts with "MZ".
    pub open spec fn process_alive(self, ctx: WalkContext, pa: u64) -> bool {
        let dirbase = self.eprocess_at(pa).Pcb.DirectoryTableBase;
        self.vread_u16(dirbase, self.full_peb(ctx, dirbase, pa).ImageBaseAddress) == IMAGE_DOS_SIGNATURE
    }

    /// Whether a walk lists the process whose record is at `pa`: records with
    /// a process id of 2^31 or more or with no stack are left over from dead
    /// processes, and `require_alive` asks for the image to be in place.
    pub open spec fn process_listed(self, ctx: WalkContext, pa: u64, require_alive: bool) -> bool {
        let eprocess = self.eprocess_at(pa);
        &&& eprocess.UniqueProcessId < 0x8000_0000
        &&& eprocess.Pcb.StackCount >= 1
        &&& (self.process_alive(ctx, pa) || !require_alive)
    }

    /// The virtual and the physical address of the record that follows the
    /// record at `pa` in the list of active processes, or `None` where the
    /// list ends: the link is zero, the next record is not mapped, or it is
    /// the initial process again.
    pub open spec fn next_process(self, ctx: WalkContext, pa: u64) -> Option<(u64, u64)> {
        let apl = ctx.apl;
        let virt = self.read_u64_at(pa.wrapping_add(apl)).wrapping_sub(apl);
        let next = self.translate(ctx.kernel_dirbase, virt);
        if virt == 0 || next == 0 || next == ctx.initial_pa || virt
            == ctx.initial_va {
            None
        } else {
            Some((virt, next))
        }
    }

    /// The virtual and physical addresses of the records that a walk from the
    /// record at `pa` lists, in the order of the list. The walk ends at a
    /// record with process id zero, at a record that it has been to, and where
    /// `next_process` says so; `steps` counts the records still to go before
    /// it gives up.
    pub open spec fn process_walk(
        self,
        ctx: WalkContext,
        va: u64,
        pa: u64,
        require_alive: bool,
        visited: Seq<u64>,
        steps: nat,
    ) -> Seq<(u64, u64)>
        decreases steps,
    {
        if steps == 0 || visited.contains(pa) || self.eprocess_at(pa).UniqueProcessId == 0 {
            Seq::empty()
        } else {
            let here = if self.process_listed(ctx, pa, require_alive) {
                seq![(va, pa)]
            } else {
                Seq::empty()
            };
            match self.next_process(ctx, pa) {
                None => here,
                Some((next_va, next_pa)) => here + self.process_walk(
                    ctx,
                    next_va,
                    next_pa,
                    require_alive,
                    visited.push(pa),
                    (steps - 1) as nat,
                ),
            }
        }
    }

    /// Whether `info` is what a walk records of the process whose record is at
    /// the virtual address `va`, which is `pa` in physical memory.
    pub open spec fn is_record_of(self, ctx: WalkContext, info: ProcKernelInfo, va: u64, pa: u64) -> bool {
        &&& info.eprocessVirtAddr == va
        &&& info.eprocessPhysAddr == pa
        &&& info.eprocess == self.eprocess_at(pa)
        &&& info.name@ == self.process_name(ctx, pa)
    }
    /// The thread record whose list entry is at the address `link`, in the
    /// address space rooted at `dirbase`.
    pub open spec fn thread_behind(self, dirbase: u64, link: u64) -> ETHREAD {
        decoded::<ETHREAD>(
            self.read_or_zeros(
                ListEntry::record_address(self, Some(dirbase), link, KTHREAD_THREAD_LIST_OFFSET),
                ETHREAD::size_of() as int,
            ),
        )
    }

    /// The thread records that the links from `link` on lead to, at most `n`
    /// of them, up to the first link that is zero.
    pub open spec fn thread_chain(self, dirbase: u64, link: ListEntry, n: nat) -> Seq<ETHREAD>
        decreases n,
    {
        if n == 0 || link.flink == 0 {
            Seq::empty()
        } else {
            let thread = self.thread_behind(dirbase, link.flink);
            seq![thread] + self.thread_chain(dirbase, thread.Tcb.ThreadListEntry, (n - 1) as nat)
        }
    }
}

impl PhysMem {
    /// The physical addresses of the process records that a walk from the
    /// record at `pa` goes through, in the order of the walk.
    pub open spec fn process_trail(self, ctx: WalkContext, pa: u64, visited: Seq<u64>, steps: nat) -> Seq<
        u64,
    >
        decreases steps,
    {
        if steps == 0 || visited.contains(pa) || self.eprocess_at(pa).UniqueProcessId == 0 {
            Seq::empty()
        } else {
            match self.next_process(ctx, pa) {
                None => seq![pa],
                Some((next_va, next_pa)) => seq![pa] + self.process_trail(
                    ctx,
                    next_pa,
                    visited.push(pa),
                    (steps - 1) as nat,
                ),
            }
        }
    }

    /// Number of records that a walk from the record at `pa` reads, the one
    /// at which it stops among them.
    pub open spec fn process_reads(self, ctx: WalkContext, pa: u64, visited: Seq<u64>, steps: nat) -> nat
        decreases steps,
    {
        if steps == 0 || visited.contains(pa) {
            0
        } else if self.eprocess_at(pa).UniqueProcessId == 0 {
            1
        } else {
            match self.next_process(ctx, pa) {
                None => 1,
                Some((next_va, next_pa)) => 1 + self.process_reads(
                    ctx,
                    next_pa,
                    visited.push(pa),
                    (steps - 1) as nat,
                ),
            }
        }
    }

    /// A walk of the process list goes through every record once at most: the
    /// records on its trail are distinct and none was visited before. So it
    /// reads at most one record more than there are distinct records on its
    /// way, and lists no more processes than that.
    pub proof fn lemma_walk_visits_once(
        self,
        ctx: WalkContext,
        va: u64,
        pa: u64,
        require_alive: bool,
        visited: Seq<u64>,
        steps: nat,
    )
        ensures
            self.process_trail(ctx, pa, visited, steps).no_duplicates(),
            forall|i: int|
                0 <= i < self.process_trail(ctx, pa, visited, steps).len() ==> !visited.contains(
                    #[trigger] self.process_trail(ctx, pa, visited, steps)[i],
                ),
            self.process_reads(ctx, pa, visited, steps) <= self.process_trail(
                ctx,
                pa,
                visited,
                steps,
            ).len() + 1,
            self.process_walk(ctx, va, pa, require_alive, visited, steps).len()
                <= self.process_trail(ctx, pa, visited, steps).len(),
        decreases steps,
    {
        let trail = self.process_trail(ctx, pa, visited, steps);
        if steps == 0 || visited.contains(pa) || self.eprocess_at(pa).UniqueProcessId == 0 {
        } else {
            match self.next_process(ctx, pa) {
                None => {},
                Some((next_va, next_pa)) => {
                    let seen = visited.push(pa);
                    let rest = self.process_trail(ctx, next_pa, seen, (steps - 1) as nat);
                    self.lemma_walk_visits_once(
                        ctx,
                        next_va,
                        next_pa,
                        require_alive,
                        seen,
                        (steps - 1) as nat,
                    );
                    assert(trail == seq![pa] + rest);
                    assert forall|i: int| 0 <= i < rest.len() implies rest[i] != pa
                        && !visited.contains(rest[i]) by {
                        assert(!seen.contains(rest[i]));
                        assert(seen[visited.len() as int] == pa);
                        if visited.contains(rest[i]) {
                            let k = choose|k: int| 0 <= k < visited.len() && visited[k] == rest[i];
                            assert(seen[k] == rest[i]);
                        }
                    }
                    assert forall|i: int, j: int|
                        0 <= i < trail.len() && 0 <= j < trail.len() && i != j implies trail[i]
                        != trail[j] by {
                        if i > 0 && j > 0 {
                            assert(trail[i] == rest[i - 1] && trail[j] == rest[j - 1]);
                        } else if i == 0 {
                            assert(trail[j] == rest[j - 1]);
                        } else {
                            assert(trail[i] == rest[i - 1]);
                        }
                    }
                    assert forall|i: int| 0 <= i < trail.len() implies !visited.contains(
                        #[trigger] trail[i],
                    ) by {
                        if i > 0 {
                            assert(trail[i] == rest[i - 1]);
                        }
                    }
                },
            }
        }
    }
}

impl VMBinding {
    /// The address of the export called `name` among `exports`. Where a name
    /// comes twice, the later entry counts.
    pub open spec fn lookup_export(exports: Seq<WinExport>, name: Seq<char>) -> Option<u64>
        decreases exports.len(),
    {
        if exports.len() == 0 {
            None
        } else if exports.last().name@ == name {
            Some(exports.last().address)
        } else {
            Self::lookup_export(exports.drop_last(), name)
        }
    }

    /// The exports `exports` as a map from names to addresses. Where a name
    /// comes twice, the later entry counts.
    pub open spec fn exports_map(exports: Seq<WinExport>) -> Map<Seq<char>, u64>
        decreases exports.len(),
    {
        if exports.len() == 0 {
            Map::empty()
        } else {
            Self::exports_map(exports.drop_last()).insert(
                exports.last().name@,
                exports.last().address,
            )
        }
    }

    /// Whether no two of `exports` have the same name.
    pub open spec fn names_distinct(exports: Seq<WinExport>) -> bool {
        forall|i: int, j: int|
            0 <= i < j < exports.len() ==> (#[trigger] exports[i]).name@ != (
            #[trigger] exports[j]).name@
    }

    /// The map of a list of exports holds the names of the list and no
    /// others, and looking a name up in the list is looking it up in the map.
    /// Where the names are distinct, the map has as many entries as the list.
    pub proof fn lemma_exports_map(exports: Seq<WinExport>)
        ensures
            Self::exports_map(exports).dom().finite(),
            forall|name: Seq<char>|
                Self::exports_map(exports).dom().contains(name) <==> exists|i: int|
                    0 <= i < exports.len() && (#[trigger] exports[i]).name@ == name,
            forall|name: Seq<char>|
                #[trigger] Self::lookup_export(exports, name) == if Self::exports_map(
                    exports,
                ).dom().contains(name) {
                    Some(Self::exports_map(exports)[name])
                } else {
                    None
                },
            Self::names_distinct(exports) ==> Self::exports_map(exports).dom().len()
                == exports.len(),
        decreases exports.len(),
    {
        if exports.len() > 0 {
            let init = exports.drop_last();
            let last = exports.last();
            Self::lemma_exports_map(init);
            let before = Self::exports_map(init);
            let map = Self::exports_map(exports);
            assert(map == before.insert(last.name@, last.address));
            assert(map.dom() =~= before.dom().insert(last.name@));
            assert forall|name: Seq<char>|
                map.dom().contains(name) <==> exists|i: int|
                    0 <= i < exports.len() && (#[trigger] exports[i]).name@ == name by {
                if map.dom().contains(name) {
                    if name == last.name@ {
                        assert(exports[exports.len() - 1].name@ == name);
                    } else {
                        let i = choose|i: int| 0 <= i < init.len() && (#[trigger] init[i]).name@ == name;
                        assert(exports[i].name@ == name);
                    }
                }
                if exists|i: int| 0 <= i < exports.len() && (#[trigger] exports[i]).name@ == name {
                    let i = choose|i: int| 0 <= i < exports.len() && (#[trigger] exports[i]).name@ == name;
                    if i < init.len() {
                        assert(init[i].name@ == name);
                    }
                }
            }
            assert forall|name: Seq<char>|
                #[trigger] Self::lookup_export(exports, name) == if map.dom().contains(name) {
                    Some(map[name])
                } else {
                    None
                } by {
                if last.name@ != name {
                    assert(Self::lookup_export(exports, name) == Self::lookup_export(init, name));
                    assert(map.dom().contains(name) == before.dom().contains(name));
                    if before.dom().contains(name) {
                        assert(map[name] == before[name]);
                    }
                }
            }
            if Self::names_distinct(exports) {
                assert(Self::names_distinct(init)) by {
                    assert forall|i: int, j: int| 0 <= i < j < init.len() implies (
                    #[trigger] init[i]).name@ != (#[trigger] init[j]).name@ by {
                        assert(init[i] == exports[i] && init[j] == exports[j]);
                    }
                }
                if before.dom().contains(last.name@) {
                    let i = choose|i: int| 0 <= i < init.len() && (#[trigger] init[i]).name@ == last.name@;
                    assert(exports[i].name@ == exports[exports.len() - 1].name@);
                }
            }
        }
    }

    /// An image whose named exports have distinct names exports as many names
    /// as its export directory counts.
    pub proof fn lemma_export_count(mem: PhysMem, dirbase: u64, module_base: u64, exports: Seq<WinExport>)
        requires
            mem.is_export_list(dirbase, module_base, exports),
            Self::names_distinct(exports),
        ensures
            Self::exports_map(exports).dom().len() == mem.export_directory(
                dirbase,
                module_base,
            ).NumberOfNames,
    {
        Self::lemma_exports_map(exports);
    }

    /// The address of the export called `name` among `exports`.
    pub fn find_export(exports: &Vec<WinExport>, name: &str) -> (r: Option<u64>)
        ensures
            r == Self::lookup_export(exports@, name@),
    {
        let mut i: usize = exports.len();
        assert(exports@.take(i as int) =~= exports@);
        while i > 0
            invariant
                i <= exports.len(),
                Self::lookup_export(exports@, name@) == Self::lookup_export(
                    exports@.take(i as int),
                    name@,
                ),
            decreases i,
        {
            let ghost cur = exports@.take(i as int);
            i = i - 1;
            assert(cur.last() == exports@[i as int]);
            assert(cur.drop_last() =~= exports@.take(i as int));
            if str_eq(exports[i].name.as_str(), name) {
                return Some(exports[i].address);
            }
        }
        None
    }

    /// The address of the kernel export called `name`, from the exports that
    /// were read when the kernel was found.
    pub fn find_kernel_export(&self, name: &str) -> (r: Option<u64>)
        ensures
            r == Self::lookup_export(self.cached_nt_exports@, name@),
    {
        Self::find_export(&self.cached_nt_exports, name)
    }

    /// Reads the headers of the image at `address` in the address space
    /// rooted at `dirbase`, and says where they are.
    pub fn get_nt_header(&self, dirbase: u64, address: u64) -> (r: Option<(NtHeaders, u64)>)
        ensures
            match r {
                Some((headers, nt_addr)) => {
                    &&& self.mem@.nt_header_address(dirbase, address) == Some(nt_addr)
                    &&& headers == self.mem@.nt_headers_at(dirbase, nt_addr)
                },
                None => self.mem@.nt_header_address(dirbase, address) is None,
            },
    {
        let dos_header: ImageDosHeader = self.vread(dirbase, address);
        if dos_header.e_magic != IMAGE_DOS_SIGNATURE {
            return None;
        }
        let nt_header_addr = match address.checked_add(dos_header.e_lfanew as u64) {
            Some(a) => a,
            None => {
                return None;
            },
        };
        let nt_header: ImageNtHeaders64 = self.vread(dirbase, nt_header_addr);
        if nt_header.Signature != IMAGE_NT_HEADERS_SIGNATURE {
            return None;
        }
        let magic = nt_header.OptionalHeader.Magic;
        if magic == IMAGE_NT_OPTIONAL_HDR64_MAGIC {
            Some((NtHeaders::Bit64(nt_header), nt_header_addr))
        } else if magic == IMAGE_NT_OPTIONAL_HDR32_MAGIC {
            let nth: ImageNtHeaders32 = self.vread(dirbase, nt_header_addr);
            Some((NtHeaders::Bit32(nth), nt_header_addr))
        } else {
            None
        }
    }

    /// Reads the named exports of the image at `module_base` in the address
    /// space rooted at `dirbase`.
    pub fn get_module_exports(&self, dirbase: u64, module_base: u64) -> (r: Result<
        Vec<WinExport>,
        ExportError,
    >)
        ensures
            match r {
                Err(e) => self.mem@.export_fault(dirbase, module_base) == Some(e),
                Ok(exports) => {
                    &&& self.mem@.export_fault(dirbase, module_base) is None
                    &&& self.mem@.is_export_list(dirbase, module_base, exports@)
                    &&& exports@.len() == self.mem@.export_directory(
                        dirbase,
                        module_base,
                    ).NumberOfNames
                },
            },
    {
        let nt_headers_addr = match self.get_nt_header(dirbase, module_base) {
            Some((_, addr)) => addr,
            None => {
                return Err(ExportError::NoNtHeader);
            },
        };
        let export_table: ImageDataDirectory = self.vread(
            dirbase,
            nt_headers_addr.wrapping_add(EXPORT_DIRECTORY_OFFSET),
        );
        if export_table.Size > EXPORT_DIRECTORY_MAX_SIZE {
            return Err(ExportError::TableTooLarge);
        }
        if export_table.VirtualAddress as u64 == module_base {
            return Err(ExportError::TableAtModuleBase);
        }
        if export_table.Size < 0x28 {
            return Err(ExportError::TableTooSmall);
        }
        let export_dir: ImageExportDirectory = self.vread(
            dirbase,
            module_base.wrapping_add(export_table.VirtualAddress as u64),
        );
        let names_ptr: u64 = module_base.wrapping_add(export_dir.AddressOfNames as u64);
        let ordinals_ptr: u64 = module_base.wrapping_add(export_dir.AddressOfNameOrdinals as u64);
        let fn_ptr: u64 = module_base.wrapping_add(export_dir.AddressOfFunctions as u64);
        let count: u64 = export_dir.NumberOfNames as u64;
        let mut exports: Vec<WinExport> = Vec::new();
        let mut i: u64 = 0;
        while i < count
            invariant
                i <= count,
                count == export_dir.NumberOfNames,
                export_dir == self.mem@.export_directory(dirbase, module_base),
                names_ptr == module_base.wrapping_add(export_dir.AddressOfNames as u64),
                ordinals_ptr == module_base.wrapping_add(export_dir.AddressOfNameOrdinals as u64),
                fn_ptr == module_base.wrapping_add(export_dir.AddressOfFunctions as u64),
                exports@.len() == i,
                forall|k: int|
                    0 <= k < exports@.len() ==> {
                        &&& (#[trigger] exports@[k]).name@ == self.mem@.export_name(
                            dirbase,
                            module_base,
                            export_dir,
                            k as u64,
                        )
                        &&& exports@[k].address == self.mem@.export_address(
                            dirbase,
                            module_base,
                            export_dir,
                            k as u64,
                        )
                    },
            decreases count - i,
        {
            let name_pos = names_ptr.wrapping_add(4 * i);
            let ordinal_pos = ordinals_ptr.wrapping_add(2 * i);
            let name_ptr: u32 = self.vread(dirbase, name_pos);
            let name_pa = self.native_translate(dirbase, module_base.wrapping_add(name_ptr as u64));
            let name = if name_pa == 0 {
                String::new()
            } else {
                self.read_cstring_from_physical_mem(name_pa, Some(EXPORT_NAME_MAX))
            };
            proof {
                assert(latin1(Seq::<u8>::empty()) =~= Seq::<char>::empty());
            }
            let ordinal: u16 = self.vread(dirbase, ordinal_pos);
            let fn_pos = fn_ptr.wrapping_add(4 * (ordinal as u64));
            let func: u32 = self.vread(dirbase, fn_pos);
            exports.push(WinExport { name, address: module_base.wrapping_add(func as u64) });
            i = i + 1;
        }
        Ok(exports)
    }

    /// Reads the environment block of the process whose record is at the
    /// physical address `phys_process`.
    pub fn get_full_peb(&self, dirbase: u64, phys_process: u64) -> (r: FullPEB)
        requires
            self.offsets is Some,
        ensures
            r == self.mem@.full_peb(self.walk_context(), dirbase, phys_process),
    {
        let peb_offset_from_eprocess = #[verifier::truncate]
        (self.offsets.unwrap().peb as u64);
        let ptr: u64 = self.read(phys_process.wrapping_add(peb_offset_from_eprocess));
        self.vread(dirbase, ptr)
    }

    /// Reads one heap header for each heap that the environment block of the
    /// process counts, at the slots of its table of heaps.
    pub fn get_process_heap(&self, dirbase: u64, phys_process: u64) -> (r: Vec<HEAP>)
        requires
            self.offsets is Some,
        ensures
            r@.len() == self.mem@.full_peb(self.walk_context(), dirbase, phys_process).NumberOfHeaps,
            forall|i: int|
                0 <= i < r@.len() ==> #[trigger] r@[i] == self.mem@.heap_at(
                    dirbase,
                    self.mem@.full_peb(self.walk_context(), dirbase, phys_process),
                    i as u64,
                ),
    {
        let peb = self.get_full_peb(dirbase, phys_process);
        let mut res: Vec<HEAP> = Vec::new();
        let heaps_array_begin: u64 = peb.ProcessHeaps;
        let count: u64 = peb.NumberOfHeaps as u64;
        let mut heap_index: u64 = 0;
        while heap_index < count
            invariant
                heap_index <= count,
                count == peb.NumberOfHeaps,
                heaps_array_begin == peb.ProcessHeaps,
                res@.len() == heap_index,
                forall|i: int|
                    0 <= i < res@.len() ==> #[trigger] res@[i] == self.mem@.heap_at(dirbase, peb, i as u64),
            decreases count - heap_index,
        {
            let heapptr = heaps_array_begin.wrapping_add(8 * heap_index);
            let heap: HEAP = self.vread(dirbase, heapptr);
            res.push(heap);
            heap_index = heap_index + 1;
        }
        res
    }

    /// What a walk of the process list of this guest needs to know.
    pub open spec fn walk_context(&self) -> WalkContext {
        WalkContext {
            apl: self.offsets.unwrap().apl as u64,
            peb: self.offsets.unwrap().peb as u64,
            kernel_dirbase: self.initial_process.dirbase,
            initial_va: self.initial_process.eprocess_va,
            initial_pa: self.initial_process.eprocess_addr,
        }
    }

    /// The processes that a walk of the list of active processes lists, from
    /// the initial process on.
    pub open spec fn listed_processes(&self, require_alive: bool) -> Seq<(u64, u64)> {
        self.mem@.process_walk(
            self.walk_context(),
            self.initial_process.eprocess_va,
            self.initial_process.eprocess_addr,
            require_alive,
            Seq::empty(),
            u64::MAX as nat,
        )
    }

    /// Whether `procs` are the records of the processes that a walk lists.
    pub open spec fn are_listed(&self, procs: Seq<ProcKernelInfo>, require_alive: bool) -> bool {
        &&& procs.len() == self.listed_processes(require_alive).len()
        &&& forall|i: int|
            0 <= i < procs.len() ==> self.mem@.is_record_of(
                self.walk_context(),
                #[trigger] procs[i],
                self.listed_processes(require_alive)[i].0,
                self.listed_processes(require_alive)[i].1,
            )
    }

    /// Reads the process record at the physical address `pa`.
    fn read_eprocess(&self, pa: u64) -> (r: EPROCESS)
        ensures
            r == self.mem@.eprocess_at(pa),
    {
        self.read(pa)
    }

    /// Records the process whose record `eprocess` was read at `pa`, if a
    /// walk lists it.
    fn record_process(&self, eprocess: EPROCESS, va: u64, pa: u64, require_alive: bool) -> (r:
        Option<ProcKernelInfo>)
        requires
            self.offsets is Some,
            eprocess == self.mem@.eprocess_at(pa),
        ensures
            r is Some <==> self.mem@.process_listed(self.walk_context(), pa, require_alive),
            r is Some ==> self.mem@.is_record_of(self.walk_context(), r.unwrap(), va, pa),
    {
        if eprocess.UniqueProcessId >= 0x8000_0000 || eprocess.Pcb.StackCount < 1 {
            return None;
        }
        let dirbase = eprocess.Pcb.DirectoryTableBase;
        let peb = self.get_full_peb(dirbase, pa);
        let pe_magic: u16 = self.vread(dirbase, peb.ImageBaseAddress);
        let valid_pe = pe_magic == IMAGE_DOS_SIGNATURE;
        if !valid_pe && require_alive {
            return None;
        }
        let ldr = peb.read_loader_with_dirbase(self, dirbase);
        let base_module_name = match ldr.get_first_in_memory_order_module_list_with_dirbase(
            self,
            dirbase,
        ) {
            None => padded_string(eprocess.ImageFileName.as_slice()),
            Some(module) => {
                match module.BaseDllName.resolve(self, Some(dirbase), Some(512)) {
                    Some(name) => name,
                    None => String::from_str("unknown"),
                }
            },
        };
        Some(ProcKernelInfo::new(base_module_name.as_str(), eprocess, va, pa))
    }

    /// Follows the list of active processes from the record at `pa` to the next.
    fn step_process(&self, pa: u64) -> (r: Option<(u64, u64)>)
        requires
            self.offsets is Some,
        ensures
            r == self.mem@.next_process(self.walk_context(), pa),
    {
        let apl_offset = #[verifier::truncate]
        (self.offsets.unwrap().apl as u64);
        let vp: u64 = self.read(pa.wrapping_add(apl_offset));
        let next_va = vp.wrapping_sub(apl_offset);
        if next_va == 0 {
            return None;
        }
        let next_pa = self.native_translate(self.initial_process.dirbase, next_va);
        if next_pa == 0 || next_pa == self.initial_process.eprocess_addr || next_va
            == self.initial_process.eprocess_va {
            return None;
        }
        Some((next_va, next_pa))
    }

    /// The records `procs` as a map by process id. Where an id comes twice,
    /// the later record counts.
    pub open spec fn processes_by_pid(procs: Seq<ProcKernelInfo>) -> Map<u64, ProcKernelInfo>
        decreases procs.len(),
    {
        if procs.len() == 0 {
            Map::empty()
        } else {
            Self::processes_by_pid(procs.drop_last()).insert(
                procs.last().eprocess.UniqueProcessId,
                procs.last(),
            )
        }
    }

    /// Puts the records `procs` into a map by process id, in their order.
    pub fn index_processes(procs: Vec<ProcKernelInfo>) -> (r: HashMap<u64, ProcKernelInfo>)
        ensures
            r@ == Self::processes_by_pid(procs@),
    {
        broadcast use vstd::std_specs::hash::group_hash_axioms;

        let mut list = procs;
        let mut m: HashMap<u64, ProcKernelInfo> = HashMap::new();
        let ghost mut done: int = 0;
        assert(procs@.take(0) =~= Seq::<ProcKernelInfo>::empty());
        while list.len() > 0
            invariant
                0 <= done <= procs@.len(),
                list@ == procs@.skip(done),
                m@ == Self::processes_by_pid(procs@.take(done)),
            decreases list.len(),
        {
            let info = list.remove(0);
            let pid = Self::pid_of_record(&info);
            proof {
                assert(info == procs@[done]);
                assert(procs@.take(done + 1).drop_last() =~= procs@.take(done));
                assert(procs@.take(done + 1).last() == procs@[done]);
                assert(list@ =~= procs@.skip(done + 1));
                done = done + 1;
            }
            m.insert(pid, info);
        }
        assert(procs@.take(done) =~= procs@);
        m
    }

    /// The process id of `info`.
    fn pid_of_record(info: &ProcKernelInfo) -> (r: u64)
        ensures
            r == info.eprocess.UniqueProcessId,
    {
        info.eprocess.UniqueProcessId
    }

    /// Walks the list of active processes from the initial process on and
    /// records every process that is listed, by its process id.
    pub fn get_processes(&self, require_alive: bool) -> (r: HashMap<u64, ProcKernelInfo>)
        requires
            self.offsets is Some,
        ensures
            exists|procs: Seq<ProcKernelInfo>|
                self.are_listed(procs, require_alive) && r@ == Self::processes_by_pid(procs),
    {
        let procs = self.walk_processes(require_alive);
        Self::index_processes(procs)
    }

    /// Walks the list of active processes from the initial process on and
    /// records every process that is listed, in the order of the list.
    pub fn walk_processes(&self, require_alive: bool) -> (r: Vec<ProcKernelInfo>)
        requires
            self.offsets is Some,
        ensures
            self.are_listed(r@, require_alive),
    {
        let mut m: Vec<ProcKernelInfo> = Vec::new();
        let mut visited: Vec<u64> = Vec::new();
        let mut cur_proc = self.initial_process.eprocess_addr;
        let mut virt_process = self.initial_process.eprocess_va;
        let mut steps: u64 = u64::MAX;
        let ghost mut listed: Seq<(u64, u64)> = Seq::empty();
        while steps > 0
            invariant
                self.offsets is Some,
                m@.len() == listed.len(),
                forall|i: int|
                    0 <= i < m@.len() ==> self.mem@.is_record_of(
                        self.walk_context(),
                        #[trigger] m@[i],
                        listed[i].0,
                        listed[i].1,
                    ),
                listed + self.mem@.process_walk(
                    self.walk_context(),
                    virt_process,
                    cur_proc,
                    require_alive,
                    visited@,
                    steps as nat,
                ) == self.listed_processes(require_alive),
            decreases steps,
        {
            let ghost rest = self.mem@.process_walk(
                self.walk_context(),
                virt_process,
                cur_proc,
                require_alive,
                visited@,
                steps as nat,
            );
            if seen(&visited, cur_proc) {
                assert(listed + rest =~= listed);
                return m;
            }
            let eprocess: EPROCESS = self.read_eprocess(cur_proc);
            if eprocess.UniqueProcessId == 0 {
                assert(listed + rest =~= listed);
                return m;
            }
            let ghost before = listed;
            let ghost here = if self.mem@.process_listed(self.walk_context(), cur_proc, require_alive) {
                seq![(virt_process, cur_proc)]
            } else {
                Seq::empty()
            };
            match self.record_process(eprocess, virt_process, cur_proc, require_alive) {
                Some(info) => {
                    m.push(info);
                    proof {
                        listed = listed.push((virt_process, cur_proc));
                    }
                },
                None => {},
            }
            assert(listed =~= before + here);
            match self.step_process(cur_proc) {
                None => {
                    assert(rest == here);
                    return m;
                },
                Some((next_va, next_pa)) => {
                    proof {
                        let after = self.mem@.process_walk(
                            self.walk_context(),
                            next_va,
                            next_pa,
                            require_alive,
                            visited@.push(cur_proc),
                            (steps - 1) as nat,
                        );
                        assert(rest == here + after);
                        assert(listed + after =~= before + (here + after));
                    }
                    visited.push(cur_proc);
                    virt_process = next_va;
                    cur_proc = next_pa;
                    steps = steps - 1;
                },
            }
        }
        proof {
            assert(listed + Seq::<(u64, u64)>::empty() =~= listed);
        }
        m
    }
}

impl VMBinding {

    /// Follows the thread list from `link` to the next thread record.
    fn next_thread(&self, dirbase: u64, link: ListEntry) -> (r: Option<ETHREAD>)
        ensures
            r == if link.flink == 0 {
                None
            } else {
                Some(self.mem@.thread_behind(dirbase, link.flink))
            },
    {
        link.get_next_with_dirbase(self, Some(dirbase), KTHREAD_THREAD_LIST_OFFSET)
    }

    /// The link to the thread after `thread` in the list of its process.
    fn thread_link(thread: &ETHREAD) -> (r: ListEntry)
        ensures
            r == thread.Tcb.ThreadListEntry,
    {
        thread.Tcb.ThreadListEntry
    }

    /// Walks the thread list of the process `info`, from the head in the
    /// scheduler's part of its record, and records as many threads as the
    /// process counts as active, or fewer if the list ends before.
    pub fn threads_from_eprocess(&self, info: &ProcKernelInfo) -> (r: Vec<ETHREAD>)
        ensures
            r@ == self.mem@.thread_chain(
                info.eprocess.Pcb.DirectoryTableBase,
                info.eprocess.Pcb.ThreadListHead,
                info.eprocess.ActiveThreads as nat,
            ),
    {
        let dirbase = info.eprocess.Pcb.DirectoryTableBase;
        let active_thread_count = info.eprocess.ActiveThreads;
        let mut link = info.eprocess.Pcb.ThreadListHead;
        let mut threads: Vec<ETHREAD> = Vec::new();
        let mut done: u32 = 0;
        while done < active_thread_count
            invariant
                done <= active_thread_count,
                dirbase == info.eprocess.Pcb.DirectoryTableBase,
                active_thread_count == info.eprocess.ActiveThreads,
                threads@ + self.mem@.thread_chain(dirbase, link, (active_thread_count - done) as nat)
                    == self.mem@.thread_chain(
                    dirbase,
                    info.eprocess.Pcb.ThreadListHead,
                    active_thread_count as nat,
                ),
            decreases active_thread_count - done,
        {
            let ghost rest = self.mem@.thread_chain(
                dirbase,
                link,
                (active_thread_count - done) as nat,
            );
            match self.next_thread(dirbase, link) {
                Some(curr) => {
                    let ghost before = threads@;
                    link = Self::thread_link(&curr);
                    threads.push(curr);
                    done = done + 1;
                    proof {
                        let after = self.mem@.thread_chain(
                            dirbase,
                            link,
                            (active_thread_count - done) as nat,
                        );
                        assert(rest == seq![curr] + after);
                        assert(threads@ + after =~= before + (seq![curr] + after));
                    }
                },
                None => {
                    assert(link.flink == 0);
                    assert(rest == Seq::<ETHREAD>::empty());
                    assert(threads@ + rest =~= threads@);
                    return threads;
                },
            }
        }
        proof {
            assert(threads@ + Seq::<ETHREAD>::empty() =~= threads@);
        }
        threads
    }

    /// The environment block of `thread`, a thread of the process whose
    /// address space is rooted at `dirbase`: its address is translated and the
    /// block is read from physical memory there. `None` if it is not mapped.
    pub fn get_thread_teb(&self, dirbase: u64, thread: &ETHREAD) -> (r: Option<TEB>)
        ensures
            r == if self.mem@.translate(dirbase, thread.Tcb.Teb) == 0 {
                None
            } else {
                Some(
                    decoded::<TEB>(
                        self.mem@.read_or_zeros(
                            self.mem@.translate(dirbase, thread.Tcb.Teb),
                            TEB::size_of() as int,
                        ),
                    ),
                )
            },
    {
        let teb_pa = self.native_translate(dirbase, Self::thread_teb(thread));
        if teb_pa == 0 {
            None
        } else {
            Some(self.read_teb(teb_pa))
        }
    }

    /// The address of the environment block of `thread`.
    fn thread_teb(thread: &ETHREAD) -> (r: u64)
        ensures
            r == thread.Tcb.Teb,
    {
        thread.Tcb.Teb
    }

    /// Reads a thread environment block from physical memory.
    fn read_teb(&self, pa: u64) -> (r: TEB)
        ensures
            r == decoded::<TEB>(self.mem@.read_or_zeros(pa, TEB::size_of() as int)),
    {
        self.read(pa)
    }
}

} // verus!
