//! What a caller asks of a bound guest: its kernel modules, its processes by
//! id or by name, the modules and sections of a process, dumps of images, and
//! the protection of a process.

use crate::bytes::{decoded, Pod};
use crate::proc_kernelinfo::ProcKernelInfo;
use crate::text::str_eq;
use crate::vm::binding_core::{PhysMem, WriteStore};
use crate::vm::{seen, VMBinding, WinModule};
use crate::win::eprocess::{PsProtectedSigner, PsProtectedType, PsProtection, EPROCESS};
use crate::win::ethread::KldrDataTableEntry;
use crate::win::list_entry::ListEntry;
use crate::win::pe::{ImageDosHeader, ImageNtHeaders64, ImageSectionHeader};
use crate::win::peb_ldr_data::LdrModule;
use vstd::prelude::*;
use vstd::string::StringExecFns;

verus! {

/// What the two conditional sets of a protection byte come to, for a type
/// number `t` and a signer number `s` that fit their fields.
proof fn lemma_protection_byte(v: u8, t: u8, s: u8)
    by (bit_vector)
    requires
        t <= 2,
        s <= 8,
    ensures
        v >> 4 == s ==> v == (v & 0x0F) | ((s & 0x0F) << 4),
        ((v & 0x0F) | ((s & 0x0F) << 4)) & 0x07 == t ==> (v & 0x0F) | ((s & 0x0F) << 4) == (((v
            & 0x0F) | ((s & 0x0F) << 4)) & 0xF8) | (t & 0x07),
        (((v & 0x0F) | ((s & 0x0F) << 4)) & 0xF8) | (t & 0x07) == (v & 0x08) | t | (s << 4),
        ((v & 0x0F) | ((s & 0x0F) << 4)) & 0x07 == v & 0x07,
        v & 0x07 <= 7,
        v >> 4 <= 15,
{
}

/// Offset of the protection byte in a process record.
pub const EPROCESS_PROTECTION_OFFSET: u64 = 0x6ca;

/// The most bytes that are read of the name of a module.
pub const MODULE_NAME_MAX: u16 = 255;

/// A kernel module by its name and its loader record.
pub struct KernelModule {
    /// The base name of the module.
    pub name: String,
    /// The loader's record of the module.
    pub entry: KldrDataTableEntry,
}

/// A module of a process by its name and its loader record.
pub struct ProcessModule {
    /// The base name of the module.
    pub name: String,
    /// The loader's record of the module.
    pub module: LdrModule,
}

impl PhysMem {
    /// The record of the kernel module whose links are at `link`.
    pub open spec fn kmod_behind(self, dirbase: u64, link: u64) -> KldrDataTableEntry {
        decoded::<KldrDataTableEntry>(
            self.read_or_zeros(
                ListEntry::record_address(self, Some(dirbase), link, 0),
                KldrDataTableEntry::size_of() as int,
            ),
        )
    }

    /// The records of the kernel modules that the links from `link` on lead
    /// to. The list ends behind the record whose link leads back to the head
    /// at `head`, at a link that is zero, and at a link that was followed
    /// before; `steps` counts the records still to go.
    pub open spec fn kmod_chain(self, dirbase: u64, head: u64, link: u64, visited: Seq<u64>, steps: nat) -> Seq<
        KldrDataTableEntry,
    >
        decreases steps,
    {
        if steps == 0 || link == 0 || visited.contains(link) {
            Seq::empty()
        } else {
            let m = self.kmod_behind(dirbase, link);
            if m.InLoadOrderLinks.flink == head {
                seq![m]
            } else {
                seq![m] + self.kmod_chain(
                    dirbase,
                    head,
                    m.InLoadOrderLinks.flink,
                    visited.push(link),
                    (steps - 1) as nat,
                )
            }
        }
    }

    /// The records of the kernel modules in the list whose head is at `head`.
    pub open spec fn kmods(self, dirbase: u64, head: u64) -> Seq<KldrDataTableEntry> {
        self.kmod_chain(
            dirbase,
            head,
            decoded::<ListEntry>(self.vbytes(dirbase, head as int, ListEntry::size_of() as int)).flink,
            Seq::empty(),
            u64::MAX as nat,
        )
    }

    /// The records of the modules of a process that the links from `link` on
    /// lead to, in load order. The list ends before the record whose link is
    /// `first_link`, the one that the head holds: that record is the head
    /// itself. It also ends at a link that is zero and at a link that was
    /// followed before; `steps` counts the records still to go.
    pub open spec fn module_chain(
        self,
        dirbase: u64,
        first_link: u64,
        link: u64,
        visited: Seq<u64>,
        steps: nat,
    ) -> Seq<LdrModule>
        decreases steps,
    {
        if steps == 0 || link == 0 || visited.contains(link) {
            Seq::empty()
        } else {
            let m = self.module_behind(Some(dirbase), link, 0);
            if m.InLoadOrderModuleList.flink == first_link {
                Seq::empty()
            } else {
                seq![m] + self.module_chain(
                    dirbase,
                    first_link,
                    m.InLoadOrderModuleList.flink,
                    visited.push(link),
                    (steps - 1) as nat,
                )
            }
        }
    }

    /// The modules of the process whose record is at `pa` and whose address
    /// space is rooted at `dirbase`, in load order.
    pub open spec fn process_modules(self, peb_offset: u64, dirbase: u64, pa: u64) -> Seq<LdrModule> {
        let first_link = self.loader_of(
            dirbase,
            self.peb_at(peb_offset, dirbase, pa),
        ).InLoadOrderModuleList.flink;
        self.module_chain(dirbase, first_link, first_link, Seq::empty(), u64::MAX as nat)
    }

    /// The section headers of the image at `base`: they follow the image
    /// headers, one for each section that the file header counts.
    pub open spec fn section_at(self, dirbase: u64, base: u64, i: u64) -> ImageSectionHeader {
        let dos = decoded::<ImageDosHeader>(
            self.vbytes(dirbase, base as int, ImageDosHeader::size_of() as int),
        );
        let nt_addr = base.wrapping_add(dos.e_lfanew as u64);
        decoded::<ImageSectionHeader>(
            self.vbytes(
                dirbase,
                nt_addr.wrapping_add(0x108).wrapping_add((0x28 * i) as u64) as int,
                ImageSectionHeader::size_of() as int,
            ),
        )
    }

    /// Number of sections of the image at `base`.
    pub open spec fn section_count(self, dirbase: u64, base: u64) -> u16 {
        let dos = decoded::<ImageDosHeader>(
            self.vbytes(dirbase, base as int, ImageDosHeader::size_of() as int),
        );
        let nt_addr = base.wrapping_add(dos.e_lfanew as u64);
        decoded::<ImageNtHeaders64>(
            self.vbytes(dirbase, nt_addr as int, ImageNtHeaders64::size_of() as int),
        ).FileHeader.NumberOfSections
    }
}

impl VMBinding {
    /// Reads the record of the kernel module whose links are at `link`.
    fn read_kmod(&self, link: u64) -> (r: KldrDataTableEntry)
        requires
            link != 0,
        ensures
            r == self.mem@.kmod_behind(self.initial_process.dirbase, link),
    {
        let entry = ListEntry { flink: link, blink: 0 };
        let r: Option<KldrDataTableEntry> = entry.get_next_from_kernel_initial_process(self, 0);
        r.unwrap()
    }

    /// The link that leads on from a kernel module.
    fn kmod_link(m: &KldrDataTableEntry) -> (r: u64)
        ensures
            r == m.InLoadOrderLinks.flink,
    {
        m.InLoadOrderLinks.flink
    }

    /// Names the kernel module `m`.
    fn name_kmod(&self, m: KldrDataTableEntry) -> (r: KernelModule)
        ensures
            r.entry == m,
            r.name@ == m.BaseDllName.text(
                self.mem@,
                Some(self.initial_process.dirbase),
                Some(MODULE_NAME_MAX),
            ),
    {
        let name = m.BaseDllName.resolve(
            self,
            Some(self.initial_process.dirbase),
            Some(MODULE_NAME_MAX),
        ).unwrap();
        KernelModule { name, entry: m }
    }

    /// Whether `mods` are the kernel modules `entries`, each with its base
    /// name, of which at most 255 bytes are read.
    pub open spec fn are_named_kmods(&self, mods: Seq<KernelModule>, entries: Seq<KldrDataTableEntry>) -> bool {
        &&& mods.len() == entries.len()
        &&& forall|i: int|
            0 <= i < mods.len() ==> {
                &&& (#[trigger] mods[i]).entry == entries[i]
                &&& mods[i].name@ == entries[i].BaseDllName.text(
                    self.mem@,
                    Some(self.initial_process.dirbase),
                    Some(MODULE_NAME_MAX),
                )
            }
    }

    /// Walks the list of loaded kernel modules, whose head the kernel
    /// exports, and names every module. It fails if the kernel does not
    /// export the head.
    pub fn get_kmods(&self) -> (r: Result<Vec<KernelModule>, &'static str>)
        ensures
            match r {
                Ok(mods) => {
                    &&& Self::lookup_export(self.cached_nt_exports@, "PsLoadedModuleList"@) is Some
                    &&& self.are_named_kmods(
                        mods@,
                        self.mem@.kmods(
                            self.initial_process.dirbase,
                            Self::lookup_export(
                                self.cached_nt_exports@,
                                "PsLoadedModuleList"@,
                            ).unwrap(),
                        ),
                    )
                },
                Err(e) => {
                    &&& Self::lookup_export(self.cached_nt_exports@, "PsLoadedModuleList"@) is None
                    &&& e@ == "Failed to find the 'PsLoadedModuleList' kernel export"@
                },
            },
    {
        let kernel_dirbase = self.initial_process.dirbase;
        let module_list = match self.find_kernel_export("PsLoadedModuleList") {
            Some(addr) => addr,
            None => {
                return Err("Failed to find the 'PsLoadedModuleList' kernel export");
            },
        };
        let psloadedmodulelist: ListEntry = self.vread(kernel_dirbase, module_list);
        let mut mods: Vec<KernelModule> = Vec::new();
        let mut visited: Vec<u64> = Vec::new();
        let mut link: u64 = psloadedmodulelist.flink;
        let mut steps: u64 = u64::MAX;
        let ghost mut entries: Seq<KldrDataTableEntry> = Seq::empty();
        while steps > 0
            invariant
                kernel_dirbase == self.initial_process.dirbase,
                Self::lookup_export(self.cached_nt_exports@, "PsLoadedModuleList"@) == Some(
                    module_list,
                ),
                self.are_named_kmods(mods@, entries),
                entries + self.mem@.kmod_chain(
                    kernel_dirbase,
                    module_list,
                    link,
                    visited@,
                    steps as nat,
                ) == self.mem@.kmods(kernel_dirbase, module_list),
            decreases steps,
        {
            let ghost rest = self.mem@.kmod_chain(
                kernel_dirbase,
                module_list,
                link,
                visited@,
                steps as nat,
            );
            if link == 0 || seen(&visited, link) {
                assert(entries + rest =~= entries);
                return Ok(mods);
            }
            let m = self.read_kmod(link);
            let ghost before = entries;
            mods.push(self.name_kmod(m));
            proof {
                entries = entries.push(m);
            }
            let next = Self::kmod_link(&m);
            if next == module_list {
                assert(before + rest =~= entries);
                return Ok(mods);
            }
            proof {
                let after = self.mem@.kmod_chain(
                    kernel_dirbase,
                    module_list,
                    next,
                    visited@.push(link),
                    (steps - 1) as nat,
                );
                assert(rest == seq![m] + after);
                assert(entries + after =~= before + (seq![m] + after));
            }
            visited.push(link);
            link = next;
            steps = steps - 1;
        }
        proof {
            assert(entries + Seq::<KldrDataTableEntry>::empty() =~= entries);
        }
        Ok(mods)
    }

    /// The last of `mods` that is called `name`.
    pub open spec fn kmod_named(mods: Seq<KernelModule>, name: Seq<char>) -> Option<KldrDataTableEntry>
        decreases mods.len(),
    {
        if mods.len() == 0 {
            None
        } else if mods.last().name@ == name {
            Some(mods.last().entry)
        } else {
            Self::kmod_named(mods.drop_last(), name)
        }
    }

    /// The last of `mods` that is called `name`.
    pub fn pick_kmod(mods: &Vec<KernelModule>, name: &str) -> (r: Option<KldrDataTableEntry>)
        ensures
            r == Self::kmod_named(mods@, name@),
    {
        let mut i: usize = mods.len();
        assert(mods@.take(i as int) =~= mods@);
        while i > 0
            invariant
                i <= mods.len(),
                Self::kmod_named(mods@, name@) == Self::kmod_named(mods@.take(i as int), name@),
            decreases i,
        {
            let ghost cur = mods@.take(i as int);
            i = i - 1;
            assert(cur.last() == mods@[i as int]);
            assert(cur.drop_last() =~= mods@.take(i as int));
            if str_eq(mods[i].name.as_str(), name) {
                return Some(mods[i].entry);
            }
        }
        None
    }

    /// The kernel module called `name`: the last of that name in the list of
    /// loaded kernel modules. `None` if there is none or if the list cannot
    /// be found.
    pub fn find_kmod(&self, name: &str) -> (r: Option<KldrDataTableEntry>)
        ensures
            match Self::lookup_export(self.cached_nt_exports@, "PsLoadedModuleList"@) {
                None => r is None,
                Some(head) => exists|mods: Seq<KernelModule>|
                    self.are_named_kmods(mods, self.mem@.kmods(self.initial_process.dirbase, head))
                        && r == Self::kmod_named(mods, name@),
            },
    {
        match self.get_kmods() {
            Err(_) => None,
            Ok(kmods) => Self::pick_kmod(&kmods, name),
        }
    }

    /// Reads the memory of the kernel module `module`, all of its image.
    pub fn dump_kmod_vmem(&self, module: &KldrDataTableEntry) -> (r: Vec<u8>)
        ensures
            r@ == self.mem@.vbytes(
                self.initial_process.dirbase,
                module.DllBase as int,
                module.SizeOfImage as int,
            ),
    {
        self.vreadvec(self.initial_process.dirbase, module.DllBase, module.SizeOfImage as u64)
    }

    /// Reads the memory of `module`, a module of the process whose address
    /// space is rooted at `dirbase`, all of its image.
    pub fn dump_module_vmem(&self, dirbase: u64, module: &LdrModule) -> (r: Vec<u8>)
        ensures
            r@ == self.mem@.vbytes(dirbase, module.BaseAddress as int, module.SizeOfImage as int),
    {
        self.vreadvec(dirbase, module.BaseAddress, module.SizeOfImage as u64)
    }

    /// Reads the record of the module whose links are at `link`.
    fn read_module(&self, dirbase: u64, link: u64) -> (r: LdrModule)
        requires
            link != 0,
        ensures
            r == self.mem@.module_behind(Some(dirbase), link, 0),
    {
        let entry = ListEntry { flink: link, blink: 0 };
        let r: Option<LdrModule> = entry.get_next_with_dirbase(self, Some(dirbase), 0);
        r.unwrap()
    }

    /// The link that leads on from a module in load order.
    fn module_link(m: &LdrModule) -> (r: u64)
        ensures
            r == m.InLoadOrderModuleList.flink,
    {
        m.InLoadOrderModuleList.flink
    }

    /// The link to the first module in load order of the process `info`.
    fn first_module_link(&self, info: &ProcKernelInfo) -> (r: u64)
        requires
            self.offsets is Some,
        ensures
            r == self.mem@.loader_of(
                info.eprocess.Pcb.DirectoryTableBase,
                self.mem@.peb_at(
                    self.offsets.unwrap().peb as u64,
                    info.eprocess.Pcb.DirectoryTableBase,
                    info.eprocessPhysAddr,
                ),
            ).InLoadOrderModuleList.flink,
    {
        let dirbase = info.eprocess.Pcb.DirectoryTableBase;
        let peb = self.get_full_peb(dirbase, info.eprocessPhysAddr);
        let loader = peb.read_loader_with_dirbase(self, dirbase);
        loader.InLoadOrderModuleList.flink
    }

    /// Walks the list of the modules of the process `info` in load order.
    pub fn get_process_modules(&self, info: &ProcKernelInfo) -> (r: Vec<LdrModule>)
        requires
            self.offsets is Some,
        ensures
            r@ == self.mem@.process_modules(
                self.offsets.unwrap().peb as u64,
                info.eprocess.Pcb.DirectoryTableBase,
                info.eprocessPhysAddr,
            ),
    {
        let dirbase = Self::dirbase_of(info);
        let first_link = self.first_module_link(info);
        let mut modules: Vec<LdrModule> = Vec::new();
        let mut visited: Vec<u64> = Vec::new();
        let mut link: u64 = first_link;
        let mut steps: u64 = u64::MAX;
        while steps > 0
            invariant
                self.offsets is Some,
                dirbase == info.eprocess.Pcb.DirectoryTableBase,
                modules@ + self.mem@.module_chain(
                    dirbase,
                    first_link,
                    link,
                    visited@,
                    steps as nat,
                ) == self.mem@.process_modules(
                    self.offsets.unwrap().peb as u64,
                    info.eprocess.Pcb.DirectoryTableBase,
                    info.eprocessPhysAddr,
                ),
            decreases steps,
        {
            let ghost rest = self.mem@.module_chain(
                dirbase,
                first_link,
                link,
                visited@,
                steps as nat,
            );
            if link == 0 || seen(&visited, link) {
                assert(modules@ + rest =~= modules@);
                return modules;
            }
            let m = self.read_module(dirbase, link);
            let next = Self::module_link(&m);
            if next == first_link {
                assert(modules@ + rest =~= modules@);
                return modules;
            }
            let ghost before = modules@;
            modules.push(m);
            proof {
                let after = self.mem@.module_chain(
                    dirbase,
                    first_link,
                    next,
                    visited@.push(link),
                    (steps - 1) as nat,
                );
                assert(rest == seq![m] + after);
                assert(modules@ + after =~= before + (seq![m] + after));
            }
            visited.push(link);
            link = next;
            steps = steps - 1;
        }
        proof {
            assert(modules@ + Seq::<LdrModule>::empty() =~= modules@);
        }
        modules
    }

    /// The root of the page tables of the process `info`.
    fn dirbase_of(info: &ProcKernelInfo) -> (r: u64)
        ensures
            r == info.eprocess.Pcb.DirectoryTableBase,
    {
        info.eprocess.Pcb.DirectoryTableBase
    }

    /// Walks the list of the modules of the process `info` in load order and
    /// names every module by its base name, of which at most 255 bytes are
    /// read.
    pub fn get_process_modules_map(&self, info: &ProcKernelInfo) -> (r: Vec<ProcessModule>)
        requires
            self.offsets is Some,
        ensures
            r@.len() == self.mem@.process_modules(
                self.offsets.unwrap().peb as u64,
                info.eprocess.Pcb.DirectoryTableBase,
                info.eprocessPhysAddr,
            ).len(),
            forall|i: int|
                0 <= i < r@.len() ==> {
                    &&& (#[trigger] r@[i]).module == self.mem@.process_modules(
                        self.offsets.unwrap().peb as u64,
                        info.eprocess.Pcb.DirectoryTableBase,
                        info.eprocessPhysAddr,
                    )[i]
                    &&& r@[i].name@ == r@[i].module.BaseDllName.text(
                        self.mem@,
                        Some(info.eprocess.Pcb.DirectoryTableBase),
                        Some(MODULE_NAME_MAX),
                    )
                },
    {
        let dirbase = Self::dirbase_of(info);
        let modules = self.get_process_modules(info);
        let mut map: Vec<ProcessModule> = Vec::new();
        let mut idx: usize = 0;
        while idx < modules.len()
            invariant
                idx <= modules.len(),
                dirbase == info.eprocess.Pcb.DirectoryTableBase,
                map@.len() == idx,
                forall|i: int|
                    0 <= i < map@.len() ==> {
                        &&& (#[trigger] map@[i]).module == modules@[i]
                        &&& map@[i].name@ == map@[i].module.BaseDllName.text(
                            self.mem@,
                            Some(dirbase),
                            Some(MODULE_NAME_MAX),
                        )
                    },
            decreases modules.len() - idx,
        {
            let module = modules[idx];
            let name = module.BaseDllName.resolve(self, Some(dirbase), Some(MODULE_NAME_MAX)).unwrap();
            map.push(ProcessModule { name, module });
            idx = idx + 1;
        }
        map
    }

    /// Reads the section headers of `module`, a module of the process `info`.
    pub fn get_module_sections(&self, info: &ProcKernelInfo, module: &LdrModule) -> (r: Vec<
        ImageSectionHeader,
    >)
        ensures
            r@.len() == self.mem@.section_count(
                info.eprocess.Pcb.DirectoryTableBase,
                module.BaseAddress,
            ),
            forall|i: int|
                0 <= i < r@.len() ==> #[trigger] r@[i] == self.mem@.section_at(
                    info.eprocess.Pcb.DirectoryTableBase,
                    module.BaseAddress,
                    i as u64,
                ),
    {
        let dirbase = Self::dirbase_of(info);
        let base = module.BaseAddress;
        let dos_header: ImageDosHeader = self.vread(dirbase, base);
        let nt_header_addr = base.wrapping_add(dos_header.e_lfanew as u64);
        let count: u64 = self.read_section_count(dirbase, nt_header_addr) as u64;
        let first_section_address = nt_header_addr.wrapping_add(0x108);
        let mut res: Vec<ImageSectionHeader> = Vec::new();
        let mut section_idx: u64 = 0;
        while section_idx < count
            invariant
                section_idx <= count,
                count == self.mem@.section_count(dirbase, base),
                count <= u16::MAX,
                dirbase == info.eprocess.Pcb.DirectoryTableBase,
                base == module.BaseAddress,
                first_section_address == base.wrapping_add(
                    decoded::<ImageDosHeader>(
                        self.mem@.vbytes(dirbase, base as int, ImageDosHeader::size_of() as int),
                    ).e_lfanew as u64,
                ).wrapping_add(0x108),
                res@.len() == section_idx,
                forall|i: int|
                    0 <= i < res@.len() ==> #[trigger] res@[i] == self.mem@.section_at(
                        dirbase,
                        base,
                        i as u64,
                    ),
            decreases count - section_idx,
        {
            let offset = section_idx * 0x28;
            let section_header: ImageSectionHeader = self.vread(
                dirbase,
                first_section_address.wrapping_add(offset),
            );
            res.push(section_header);
            section_idx = section_idx + 1;
        }
        res
    }

    /// Reads the number of sections from the image headers at `nt_addr`.
    fn read_section_count(&self, dirbase: u64, nt_addr: u64) -> (r: u16)
        ensures
            r == decoded::<ImageNtHeaders64>(
                self.mem@.vbytes(dirbase, nt_addr as int, ImageNtHeaders64::size_of() as int),
            ).FileHeader.NumberOfSections,
    {
        let nt: ImageNtHeaders64 = self.vread(dirbase, nt_addr);
        nt.FileHeader.NumberOfSections
    }

    /// The index of the last of `procs` whose process id is `pid`.
    pub open spec fn index_of_pid(procs: Seq<ProcKernelInfo>, pid: u64) -> Option<int>
        decreases procs.len(),
    {
        if procs.len() == 0 {
            None
        } else if procs.last().eprocess.UniqueProcessId == pid {
            Some(procs.len() - 1)
        } else {
            Self::index_of_pid(procs.drop_last(), pid)
        }
    }

    /// The index of the first of `procs` from index `from` on that is called
    /// `name`.
    pub open spec fn index_of_name(procs: Seq<ProcKernelInfo>, name: Seq<char>, from: int) -> Option<int>
        decreases procs.len() - from,
    {
        if from < 0 || from >= procs.len() {
            None
        } else if procs[from].name@ == name {
            Some(from)
        } else {
            Self::index_of_name(procs, name, from + 1)
        }
    }

    /// The map by process id holds an id exactly when a record has it, and
    /// holds for it the last record that has it.
    pub proof fn lemma_processes_by_pid(procs: Seq<ProcKernelInfo>, pid: u64)
        ensures
            match Self::index_of_pid(procs, pid) {
                Some(i) => 0 <= i < procs.len() && Self::processes_by_pid(procs).contains_key(pid)
                    && Self::processes_by_pid(procs)[pid] == procs[i],
                None => !Self::processes_by_pid(procs).contains_key(pid),
            },
        decreases procs.len(),
    {
        if procs.len() > 0 {
            Self::lemma_processes_by_pid(procs.drop_last(), pid);
            if procs.last().eprocess.UniqueProcessId != pid {
                match Self::index_of_pid(procs.drop_last(), pid) {
                    Some(i) => {
                        assert(procs.drop_last()[i] == procs[i]);
                    },
                    None => {},
                }
            }
        }
    }

    /// Takes the last process with the id `pid` out of `procs`.
    pub fn take_process_by_pid(procs: Vec<ProcKernelInfo>, pid: u64) -> (r: Option<ProcKernelInfo>)
        ensures
            r == match Self::index_of_pid(procs@, pid) {
                Some(i) => Some(procs@[i]),
                None => None,
            },
    {
        let mut list = procs;
        let ghost all = list@;
        let mut i: usize = list.len();
        assert(all.take(i as int) =~= all);
        while i > 0
            invariant
                i <= list.len(),
                list@ == all,
                all == procs@,
                Self::index_of_pid(all, pid) == Self::index_of_pid(all.take(i as int), pid),
            decreases i,
        {
            let ghost cur = all.take(i as int);
            i = i - 1;
            assert(cur.last() == all[i as int]);
            assert(cur.drop_last() =~= all.take(i as int));
            if Self::pid_of(&list[i]) == pid {
                assert(Self::index_of_pid(cur, pid) == Some(i as int));
                let found = list.remove(i);
                assert(found == all[i as int]);
                return Some(found);
            }
        }
        None
    }

    /// The process id of `info`.
    fn pid_of(info: &ProcKernelInfo) -> (r: u64)
        ensures
            r == info.eprocess.UniqueProcessId,
    {
        info.eprocess.UniqueProcessId
    }

    /// Takes the first process called `name` out of `procs`.
    pub fn take_process_by_name(procs: Vec<ProcKernelInfo>, name: &str) -> (r: Option<ProcKernelInfo>)
        ensures
            r == match Self::index_of_name(procs@, name@, 0) {
                Some(i) => Some(procs@[i]),
                None => None,
            },
    {
        let mut list = procs;
        let ghost all = list@;
        let mut i: usize = 0;
        while i < list.len()
            invariant
                i <= list.len(),
                list@ == all,
                all == procs@,
                Self::index_of_name(all, name@, 0) == Self::index_of_name(all, name@, i as int),
            decreases list.len() - i,
        {
            if str_eq(list[i].name.as_str(), name) {
                assert(Self::index_of_name(all, name@, i as int) == Some(i as int));
                let found = list.remove(i);
                assert(found == all[i as int]);
                return Some(found);
            }
            i = i + 1;
        }
        None
    }

    /// Walks the process list and returns the process with the id `pid`; the
    /// last one, should the list hold the id twice.
    pub fn find_process_by_pid(&self, pid: u64, require_alive: bool) -> (r: Option<ProcKernelInfo>)
        requires
            self.offsets is Some,
        ensures
            exists|procs: Seq<ProcKernelInfo>|
                self.are_listed(procs, require_alive) && r == match Self::index_of_pid(procs, pid) {
                    Some(i) => Some(procs[i]),
                    None => None,
                },
    {
        let procs = self.walk_processes(require_alive);
        Self::take_process_by_pid(procs, pid)
    }

    /// Walks the process list and returns the first process called `name`.
    pub fn find_process_by_name(&self, name: &str, require_alive: bool) -> (r: Option<
        ProcKernelInfo,
    >)
        requires
            self.offsets is Some,
        ensures
            exists|procs: Seq<ProcKernelInfo>|
                self.are_listed(procs, require_alive) && r == match Self::index_of_name(
                    procs,
                    name@,
                    0,
                ) {
                    Some(i) => Some(procs[i]),
                    None => None,
                },
    {
        let procs = self.walk_processes(require_alive);
        Self::take_process_by_name(procs, name)
    }

    /// The protection byte with the signer set to `signer` and the type to
    /// `typ`, each cut to the width of its field.
    pub open spec fn protection_with(value: u8, typ: PsProtectedType, signer: PsProtectedSigner) -> u8 {
        let signed = if PsProtectedSigner::spec_from_u8(value >> 4) != signer {
            (value & 0x0F) | ((signer.spec_to_u8() & 0x0F) << 4)
        } else {
            value
        };
        if PsProtectedType::spec_from_u8(signed & 0x07) != typ {
            (signed & 0xF8) | (typ.spec_to_u8() & 0x07)
        } else {
            signed
        }
    }

    /// For a type and a signer that are known, the new protection byte is the
    /// old audit flag, the number of the type in the low three bits and the
    /// number of the signer in the high four.
    pub proof fn lemma_protection_with(value: u8, typ: PsProtectedType, signer: PsProtectedSigner)
        requires
            typ != PsProtectedType::Unknown,
            signer != PsProtectedSigner::Unknown,
        ensures
            Self::protection_with(value, typ, signer) == (value & 0x08) | typ.spec_to_u8() | (
            signer.spec_to_u8() << 4),
    {
        lemma_protection_byte(value, typ.spec_to_u8(), signer.spec_to_u8());
    }

    /// Sets the protection of the process `proc` to the type `typ` and the
    /// signer `signer`, in the snapshot `proc` and in the record of the
    /// process in guest memory, where the byte lies 0x6ca bytes in. Nothing
    /// is written where that address is past the end of the address space or
    /// outside the window. The copies that were made into the window are
    /// handed back; their payload is the new byte.
    pub fn set_process_security(
        &mut self,
        proc: &mut ProcKernelInfo,
        typ: PsProtectedType,
        signer: PsProtectedSigner,
    ) -> (stores: Vec<WriteStore>)
        ensures
            stores@ == if old(proc).eprocessPhysAddr + EPROCESS_PROTECTION_OFFSET <= u64::MAX {
                old(self).mem@.write_stores(
                    (old(proc).eprocessPhysAddr + EPROCESS_PROTECTION_OFFSET) as u64,
                    1,
                )
            } else {
                Seq::empty()
            },
            final(proc).eprocess.Protection.byte() == Self::protection_with(
                old(proc).eprocess.Protection.byte(),
                typ,
                signer,
            ),
            final(proc).name == old(proc).name,
            final(proc).eprocessVirtAddr == old(proc).eprocessVirtAddr,
            final(proc).eprocessPhysAddr == old(proc).eprocessPhysAddr,
            final(proc).eprocess == (EPROCESS {
                Protection: final(proc).eprocess.Protection,
                ..old(proc).eprocess
            }),
            final(self).same_metadata(*old(self)),
            final(self).mem@ == if old(proc).eprocessPhysAddr + EPROCESS_PROTECTION_OFFSET
                <= u64::MAX {
                old(self).mem@.after_write(
                    (old(proc).eprocessPhysAddr + EPROCESS_PROTECTION_OFFSET) as u64,
                    seq![final(proc).eprocess.Protection.byte()],
                )
            } else {
                old(self).mem@
            },
    {
        let mut current: PsProtection = proc.eprocess.Protection;
        if current.SignerEnum() != signer {
            current.set_Signer(signer.to_u8());
        }
        if current.TypeEnum() != typ {
            current.set_Type(typ.to_u8());
        }
        proc.eprocess.Protection = current;
        match proc.eprocessPhysAddr.checked_add(EPROCESS_PROTECTION_OFFSET) {
            Some(addr) => {
                assert(current.value@ =~= seq![current.byte()]);
                let stores = self.mem.write_stores(addr, 1);
                self.write(addr, current.value.as_slice());
                stores
            },
            None => Vec::new(),
        }
    }

    /// The index of the first of `modules` from index `from` on whose image
    /// holds the address `addr`, the address behind its last byte counted in.
    pub open spec fn index_of_module(modules: Seq<WinModule>, addr: u64, from: int) -> Option<int>
        decreases modules.len() - from,
    {
        if from < 0 || from >= modules.len() {
            None
        } else if modules[from].base_address <= addr && addr <= modules[from].base_address
            + modules[from].size_of_module {
            Some(from)
        } else {
            Self::index_of_module(modules, addr, from + 1)
        }
    }

    /// Finds the module that the address `addr` falls into: the index of the
    /// first of `modules` whose image holds it.
    pub fn find_module_from_addr(modules: &Vec<WinModule>, addr: u64) -> (r: Option<usize>)
        ensures
            match r {
                Some(i) => Self::index_of_module(modules@, addr, 0) == Some(i as int),
                None => Self::index_of_module(modules@, addr, 0) is None,
            },
    {
        let mut i: usize = 0;
        while i < modules.len()
            invariant
                i <= modules.len(),
                Self::index_of_module(modules@, addr, 0) == Self::index_of_module(
                    modules@,
                    addr,
                    i as int,
                ),
            decreases modules.len() - i,
        {
            let begin = modules[i].base_address;
            let size = modules[i].size_of_module;
            if addr >= begin && addr - begin <= size {
                return Some(i);
            }
            i = i + 1;
        }
        None
    }

    /// `module`, a module of a process, under the name `name`, as a caller
    /// sees it.
    pub fn describe_module(name: &str, module: &LdrModule) -> (r: WinModule)
        ensures
            r.base_address == module.BaseAddress,
            r.entry_point == module.EntryPoint,
            r.size_of_module == module.SizeOfImage,
            r.name@ == name@,
            r.load_count == module.LoadCount as u16,
    {
        WinModule {
            base_address: module.BaseAddress,
            entry_point: module.EntryPoint,
            size_of_module: module.SizeOfImage as u64,
            name: String::from_str(name),
            load_count: #[verifier::truncate]
            (module.LoadCount as u16),
        }
    }
}

} // verus!
