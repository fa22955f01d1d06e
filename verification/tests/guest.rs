use libvirtdma::vm::binding_core::{MemoryWindow, WriteStore};
use libvirtdma::vm::nativebinding::ExportError;
use libvirtdma::vm::{ProcessData, VMBinding};
use libvirtdma::win::eprocess::{PsProtectedSigner, PsProtectedType};
use libvirtdma::win::pe::NtHeaders;

// ---------------------------------------------------------------------------
// A small guest, built byte by byte.
// ---------------------------------------------------------------------------

const PRESENT: u64 = 1;
const LOW_STUB: u64 = 0x1000;
const PML4: u64 = 0x2000;
const KERNEL_ENTRY: u64 = 0xffff_f800_1034_5678;
const KERNEL_BASE: u64 = 0xffff_f800_3020_0000;
const APL: u64 = 0x2f0;

const SYSTEM_VA: u64 = 0xffff_f800_4000_1000;
const EXPLORER_VA: u64 = 0xffff_f800_4000_3000;
const GHOST_VA: u64 = 0xffff_f800_4000_5000;
const STACKLESS_VA: u64 = 0xffff_f800_4000_7000;
const DEAD_VA: u64 = 0xffff_f800_4000_9000;

const THREAD_1: u64 = 0xffff_f800_5000_0000;
const THREAD_2: u64 = 0xffff_f800_5000_1000;
const KMOD_1: u64 = 0xffff_f800_6000_0000;
const KMOD_2: u64 = 0xffff_f800_6000_0100;
const KMOD_NAMES: u64 = 0xffff_f800_6000_0800;

const IMAGE_BASE: u64 = 0x0000_7ff6_0000_0000;
const NTDLL_BASE: u64 = 0x0000_7ffa_1000_0000;
const KERNEL32_BASE: u64 = 0x0000_7ffa_2000_0000;
const PEB_VA: u64 = 0x0000_00aa_0000_1000;
const LDR_VA: u64 = 0x0000_00aa_0000_2000;
const MODULE_1: u64 = 0x0000_00aa_0000_3000;
const MODULE_2: u64 = 0x0000_00aa_0000_3100;
const MODULE_3: u64 = 0x0000_00aa_0000_3200;
const NAMES_VA: u64 = 0x0000_00aa_0000_4000;
const TEB_1: u64 = 0x0000_00aa_0001_0000;
const TEB_2: u64 = 0x0000_00aa_0001_2000;

struct Guest {
    mem: Vec<u8>,
    next: u64,
}

impl Guest {
    fn new() -> Guest {
        let mut g = Guest { mem: vec![0u8; 0x20_0000], next: 0x3000 };
        g.put_u64(LOW_STUB, 0x0000_0001_0006_00E9);
        g.put_u64(LOW_STUB + 0x70, KERNEL_ENTRY);
        g.put_u64(LOW_STUB + 0xa0, PML4);
        g
    }

    fn fresh_page(&mut self) -> u64 {
        let pa = self.next;
        self.next += 0x1000;
        assert!((self.next as usize) <= self.mem.len());
        pa
    }

    fn put(&mut self, pa: u64, bytes: &[u8]) {
        let at = pa as usize;
        self.mem[at..at + bytes.len()].copy_from_slice(bytes);
    }

    fn put_u64(&mut self, pa: u64, v: u64) {
        self.put(pa, &v.to_le_bytes());
    }

    fn get_u64(&self, pa: u64) -> u64 {
        let at = pa as usize;
        u64::from_le_bytes(self.mem[at..at + 8].try_into().unwrap())
    }

    fn next_level(&mut self, table: u64, index: u64) -> u64 {
        let at = table + 8 * index;
        let entry = self.get_u64(at);
        if entry & PRESENT != 0 {
            entry & 0xf_ffff_f000
        } else {
            let pa = self.fresh_page();
            self.put_u64(at, pa | PRESENT);
            pa
        }
    }

    /// The physical address of `va` in the address space rooted at `root`;
    /// the page is mapped to fresh memory if it is not mapped yet.
    fn map(&mut self, root: u64, va: u64) -> u64 {
        let pdpt = self.next_level(root, (va >> 39) & 0x1ff);
        let pd = self.next_level(pdpt, (va >> 30) & 0x1ff);
        let pt = self.next_level(pd, (va >> 21) & 0x1ff);
        let page = self.next_level(pt, (va >> 12) & 0x1ff);
        page + (va & 0xfff)
    }

    /// Makes the page of `va` in the address space rooted at `root` the page
    /// that it is in the address space rooted at `from`.
    fn share(&mut self, root: u64, from: u64, va: u64) {
        let page = self.map(from, va) & !0xfff;
        let pdpt = self.next_level(root, (va >> 39) & 0x1ff);
        let pd = self.next_level(pdpt, (va >> 30) & 0x1ff);
        let pt = self.next_level(pd, (va >> 21) & 0x1ff);
        self.put_u64(pt + 8 * ((va >> 12) & 0x1ff), page | PRESENT);
    }

    fn poke(&mut self, root: u64, va: u64, bytes: &[u8]) {
        for (i, b) in bytes.iter().enumerate() {
            let pa = self.map(root, va + i as u64);
            self.mem[pa as usize] = *b;
        }
    }

    fn poke_u16(&mut self, root: u64, va: u64, v: u16) {
        self.poke(root, va, &v.to_le_bytes());
    }

    fn poke_u32(&mut self, root: u64, va: u64, v: u32) {
        self.poke(root, va, &v.to_le_bytes());
    }

    fn poke_u64(&mut self, root: u64, va: u64, v: u64) {
        self.poke(root, va, &v.to_le_bytes());
    }

    /// A counted string at `va` whose text lies at `buffer`.
    fn poke_unicode_string(&mut self, root: u64, va: u64, buffer: u64, text: &str) {
        let units: Vec<u16> = text.encode_utf16().collect();
        for (i, u) in units.iter().enumerate() {
            self.poke_u16(root, buffer + 2 * i as u64, *u);
        }
        self.poke_u16(root, va, (2 * units.len()) as u16);
        self.poke_u16(root, va + 2, (2 * units.len() + 2) as u16);
        self.poke_u64(root, va + 8, buffer);
    }

    /// The headers of an image at `base`, with two sections and an export
    /// directory at 0x1000 that names `exports`.
    fn poke_image(&mut self, root: u64, base: u64, exports: &[(&str, u32)]) {
        self.poke(root, base, b"MZ");
        self.poke_u32(root, base + 0x3c, 0x80);
        let nt = base + 0x80;
        self.poke(root, nt, b"PE\0\0");
        self.poke_u16(root, nt + 4, 0x8664);
        self.poke_u16(root, nt + 6, 2);
        self.poke_u16(root, nt + 0x18, 0x20b);
        self.poke_u32(root, nt + 0x88, 0x1000);
        self.poke_u32(root, nt + 0x8c, 0x200);
        let sections = nt + 0x108;
        self.poke(root, sections, b".text\0\0\0");
        self.poke_u32(root, sections + 0xc, 0x2000);
        self.poke(root, sections + 0x28, b".rdata\0\0");
        self.poke_u32(root, sections + 0x28 + 0xc, 0x1000);
        let dir = base + 0x1000;
        self.poke_u32(root, dir + 0x14, exports.len() as u32);
        self.poke_u32(root, dir + 0x18, exports.len() as u32);
        self.poke_u32(root, dir + 0x1c, 0x1100);
        self.poke_u32(root, dir + 0x20, 0x1200);
        self.poke_u32(root, dir + 0x24, 0x1300);
        for (i, (name, rva)) in exports.iter().enumerate() {
            let i = i as u64;
            // The ordinals run against the names, to tell the two apart.
            let ordinal = exports.len() as u64 - 1 - i;
            self.poke_u32(root, base + 0x1100 + 4 * ordinal, *rva);
            self.poke_u32(root, base + 0x1200 + 4 * i, 0x1400 + 0x20 * i as u32);
            self.poke_u16(root, base + 0x1300 + 2 * i, ordinal as u16);
            self.poke(root, base + 0x1400 + 0x20 * i, name.as_bytes());
        }
    }

    fn poke_kernel(&mut self, base: u64, version_code: &[u8]) {
        self.poke_image(
            PML4,
            base,
            &[
                ("PsInitialSystemProcess", 0x2000),
                ("RtlGetVersion", 0x2100),
                ("PsLoadedModuleList", 0x2200),
            ],
        );
        self.poke(PML4, base + 0x300, b"INITKDBG");
        self.poke(PML4, base + 0x311, b"POOLCODE");
        self.poke_u64(PML4, base + 0x2000, SYSTEM_VA);
        self.poke(PML4, base + 0x2100, version_code);
        // The routine is read as 256 bytes, which reach into the list head.
        self.poke_u64(PML4, base + 0x2200, KMOD_1);
        self.poke_u64(PML4, base + 0x2208, KMOD_2);
    }

    /// A process record at `va`, linked to the record at `next`.
    fn poke_process(&mut self, va: u64, next: u64, pid: u64, root: u64, stacks: u32, file: &str) {
        self.poke_u64(PML4, va + 0x28, root);
        self.poke_u32(PML4, va + 0x23c, stacks);
        self.poke_u64(PML4, va + 0x2e0, pid);
        self.poke_u64(PML4, va + APL, next + APL);
        self.poke_u64(PML4, va + APL + 8, 0);
        self.poke_u64(PML4, va + 0x3f8, PEB_VA);
        self.poke(PML4, va + 0x450, file.as_bytes());
        self.poke(PML4, va + 0x6ca, &[0x00]);
    }

    /// An environment block, loader data and three modules in the address
    /// space rooted at `root`.
    fn poke_user_space(&mut self, root: u64, names: [&str; 3]) {
        self.poke_u64(root, PEB_VA + 0x10, IMAGE_BASE);
        self.poke_u64(root, PEB_VA + 0x18, LDR_VA);
        self.poke(root, PEB_VA + 3, &[0b0000_0110]);
        self.poke_u32(root, LDR_VA, 0x58);
        self.poke_u32(root, LDR_VA + 4, 1);
        let modules = [MODULE_1, MODULE_2, MODULE_3];
        let bases = [IMAGE_BASE, NTDLL_BASE, KERNEL32_BASE];
        for list in 0..3u64 {
            let off = 0x10 * list;
            let head = LDR_VA + 0x10 + off;
            self.poke_u64(root, head, modules[0] + off);
            self.poke_u64(root, head + 8, modules[2] + off);
            for i in 0..3 {
                let next = if i == 2 { head } else { modules[i + 1] + off };
                let prev = if i == 0 { head } else { modules[i - 1] + off };
                self.poke_u64(root, modules[i] + off, next);
                self.poke_u64(root, modules[i] + off + 8, prev);
            }
        }
        for i in 0..3 {
            let m = modules[i];
            self.poke_u64(root, m + 0x30, bases[i]);
            self.poke_u64(root, m + 0x38, bases[i] + 0x1234);
            self.poke_u32(root, m + 0x40, 0x3000);
            self.poke_unicode_string(root, m + 0x58, NAMES_VA + 0x100 * i as u64, names[i]);
            self.poke_image(root, bases[i], &[("MessageBoxA", 0x2040)]);
        }
    }

    fn poke_threads(&mut self, root: u64, process: u64) {
        let head = process + 0x30;
        self.poke_u64(PML4, head, THREAD_1 + 0x2f8);
        self.poke_u32(PML4, process + 0x498, 2);
        for (i, (thread, teb)) in [(THREAD_1, TEB_1), (THREAD_2, TEB_2)].iter().enumerate() {
            let next = if i == 0 { THREAD_2 + 0x2f8 } else { head };
            self.poke_u64(root, thread + 0x2f8, next);
            self.poke_u64(root, thread + 0xf0, *teb);
            self.poke_u64(root, thread + 0x638, 1234);
            self.poke_u64(root, thread + 0x640, 100 + i as u64);
            self.poke_u64(root, teb + 0x40, 1234);
            self.poke_u64(root, teb + 0x48, 100 + i as u64);
            self.poke_u64(root, teb + 0x60, PEB_VA);
        }
    }

    fn poke_kernel_modules(&mut self) {
        let head = KERNEL_BASE + 0x2200;
        let mods = [(KMOD_1, KMOD_2, "ntoskrnl.exe", KERNEL_BASE), (KMOD_2, head, "hal.dll", 0xffff_f800_7000_0000)];
        for (i, (m, next, name, base)) in mods.iter().enumerate() {
            self.poke_u64(PML4, *m, *next);
            self.poke_u64(PML4, m + 0x30, *base);
            self.poke_u32(PML4, m + 0x40, 0x2000);
            self.poke_unicode_string(PML4, m + 0x58, KMOD_NAMES + 0x100 * i as u64, name);
        }
    }
}

/// The code of a version routine that stores version 10.0 and `build`.
fn version_code(build: u32) -> Vec<u8> {
    let mut code = vec![0x48, 0xc7, 0x41, 0x04, 0x0a, 0x00, 0x00, 0x00];
    code.extend_from_slice(&[0xc7, 0x41, 0x0c]);
    code.extend_from_slice(&build.to_le_bytes());
    code.push(0xc3);
    code
}

/// A guest that runs Windows 10 build 19041 with five process records, of
/// which two are processes that live.
fn windows_10() -> Guest {
    let mut g = Guest::new();
    g.poke_kernel(KERNEL_BASE, &version_code(19041));
    let explorer_root = g.fresh_page();
    let dead_root = g.fresh_page();
    g.poke_process(SYSTEM_VA, EXPLORER_VA, 4, PML4, 3, "System");
    g.poke_process(EXPLORER_VA, GHOST_VA, 1234, explorer_root, 2, "explorer.exe");
    g.poke_process(GHOST_VA, STACKLESS_VA, 0x8000_0000, PML4, 1, "ghost");
    g.poke_process(STACKLESS_VA, DEAD_VA, 99, PML4, 0, "stackless");
    g.poke_process(DEAD_VA, SYSTEM_VA, 777, dead_root, 1, "dead.exe");
    g.poke_user_space(PML4, ["System", "ntdll.dll", "kernel32.dll"]);
    g.poke_user_space(explorer_root, ["explorer.exe", "ntdll.dll", "KERNEL32.DLL"]);
    g.poke_threads(explorer_root, EXPLORER_VA);
    g.poke_kernel_modules();
    g
}

fn bind(g: Guest) -> Option<VMBinding> {
    let size = g.mem.len() as u64;
    VMBinding::new(
        ProcessData { maps_start: 0x7f00_0000_0000, maps_size: size, pid: 4321 },
        MemoryWindow::new(g.mem),
    )
}

// ---------------------------------------------------------------------------
// Bootstrap.
// ---------------------------------------------------------------------------

#[test]
fn bootstrap_finds_the_kernel() {
    let mut g = windows_10();
    let system_pa = g.map(PML4, SYSTEM_VA);
    let vm = bind(g).expect("the guest is bootable");
    assert_eq!(vm.nt_version, 1000);
    assert_eq!(vm.nt_build, 19041);
    assert_eq!(vm.nt_kernel_entry, KERNEL_ENTRY);
    assert_eq!(vm.nt_kernel_modulebase, KERNEL_BASE);
    assert_eq!(vm.initial_process.dirbase, PML4);
    assert_eq!(vm.initial_process.eprocess_va, SYSTEM_VA);
    assert_eq!(vm.initial_process.eprocess_addr, system_pa);
    assert_eq!(vm.process.pid, 4321);
    let offsets = vm.offsets.expect("the version is known");
    assert_eq!(offsets.apl, 0x2f0);
    assert_eq!(offsets.peb, 0x3f8);
    let export = vm.find_kernel_export("PsInitialSystemProcess");
    assert_eq!(export, Some(KERNEL_BASE + 0x2000));
    assert_ne!(export, Some(0));
    assert_eq!(vm.find_kernel_export("RtlGetVersion"), Some(KERNEL_BASE + 0x2100));
    assert_eq!(vm.find_kernel_export("NoSuchExport"), None);
    assert_eq!(vm.cached_nt_exports.len(), 3);
    assert_eq!(vm.get_nt_version(), 1000);
    assert_eq!(vm.get_nt_build(), 19041);
}

#[test]
fn bootstrap_reads_the_low_stub() {
    let g = windows_10();
    let vm = bind(g).unwrap();
    assert_eq!(vm.find_initial_process(), Some((PML4, KERNEL_ENTRY)));
}

#[test]
fn bootstrap_takes_the_first_low_stub() {
    let mut g = windows_10();
    assert!(g.next <= 0x9_0000);
    // A second stub further up.
    g.put_u64(0x9_0000, 0x0000_0001_0006_00E9);
    g.put_u64(0x9_0070, KERNEL_ENTRY + 1);
    g.put_u64(0x9_00a0, 0x5000);
    let vm = bind(g).unwrap();
    assert_eq!(vm.find_initial_process(), Some((PML4, KERNEL_ENTRY)));
}

#[test]
fn bootstrap_skips_pages_that_match_in_part() {
    let mut g = windows_10();
    assert!(g.next <= 0x9_0000);
    let stub = g.mem[0x1000..0x2000].to_vec();
    for b in &mut g.mem[0x1000..0x2000] {
        *b = 0;
    }
    // The jump alone, the jump with an entry point outside kernel space, and
    // the jump with a page table that is not aligned.
    g.put_u64(0x1000, 0x0000_0001_0006_00E9);
    g.put_u64(0x9_1000, 0x0000_0001_0006_00E9);
    g.put_u64(0x9_1070, 0x0000_7800_1034_5678);
    g.put_u64(0x9_10a0, PML4);
    g.put_u64(0x9_2000, 0x0000_0001_0006_00E9);
    g.put_u64(0x9_2070, KERNEL_ENTRY);
    g.put_u64(0x9_20a0, PML4 + 8);
    // And the jump with a page table that does not lie in low memory.
    g.put_u64(0x9_3000, 0x0000_0001_0006_00E9);
    g.put_u64(0x9_3070, KERNEL_ENTRY);
    g.put_u64(0x9_30a0, 0x0100_0000);
    g.put(0x9_f000, &stub);
    // The second byte of the jump is free.
    g.mem[0x9_f001] = 0x7f;
    let vm = bind(g).unwrap();
    assert_eq!(vm.find_initial_process(), Some((PML4, KERNEL_ENTRY)));
}

#[test]
fn bootstrap_fails_without_a_low_stub() {
    let mut g = windows_10();
    g.put_u64(LOW_STUB, 0);
    assert!(bind(g).is_none());
    // A stub above the first ten windows is not looked for.
    let mut g = windows_10();
    let stub = g.mem[0x1000..0x2000].to_vec();
    g.put_u64(LOW_STUB, 0);
    g.put(0xa_0000, &stub);
    assert!(bind(g).is_none());
}

#[test]
fn bootstrap_fails_without_a_tag_in_the_kernel_image() {
    let mut g = windows_10();
    g.poke(PML4, KERNEL_BASE + 0x300, b"INITKDBX");
    assert!(bind(g).is_none());
}

#[test]
fn bootstrap_fails_without_a_signature_on_the_kernel_image() {
    let mut g = windows_10();
    g.poke(PML4, KERNEL_BASE, b"ZM");
    assert!(bind(g).is_none());
}

#[test]
fn bootstrap_fails_without_exports_of_the_kernel_image() {
    let mut g = windows_10();
    g.poke_u32(PML4, KERNEL_BASE + 0x80 + 0x8c, 0x10);
    assert!(bind(g).is_none());
}

#[test]
fn bootstrap_fails_without_the_initial_process() {
    let mut g = Guest::new();
    g.poke_image(PML4, KERNEL_BASE, &[("RtlGetVersion", 0x2100)]);
    g.poke(PML4, KERNEL_BASE + 0x300, b"INITKDBG");
    g.poke(PML4, KERNEL_BASE + 0x311, b"POOLCODE");
    g.poke(PML4, KERNEL_BASE + 0x2100, &version_code(19041));
    assert!(bind(g).is_none());
}

#[test]
fn bootstrap_fails_for_an_unknown_version() {
    let mut g = windows_10();
    // Version 11.0.
    g.poke(PML4, KERNEL_BASE + 0x2104, &[0x0b]);
    assert!(bind(g).is_none());
    // No version at all.
    let mut g = windows_10();
    g.poke(PML4, KERNEL_BASE + 0x2100, &[0u8; 16]);
    assert!(bind(g).is_none());
}

#[test]
fn bootstrap_finds_the_kernel_in_a_lower_block() {
    let mut g = Guest::new();
    let base = KERNEL_BASE - 2 * 0x20_0000 + 0x5000;
    g.poke_kernel(base, &version_code(18362));
    g.poke_process(SYSTEM_VA, SYSTEM_VA, 4, PML4, 1, "System");
    let vm = bind(g).expect("the guest is bootable");
    assert_eq!(vm.nt_kernel_modulebase, base);
    assert_eq!(vm.nt_build, 18362);
    assert_eq!(vm.offsets.unwrap().thread_list_entry, 0x6b8);
}

#[test]
fn bootstrap_reads_versions_from_separate_stores() {
    // Windows 7 with its service pack stores major and minor version apart.
    let mut code = vec![0xc7, 0x41, 0x04, 0x06, 0x00, 0x00, 0x00];
    code.extend_from_slice(&[0xc7, 0x41, 0x08, 0x01, 0x00, 0x00, 0x00]);
    code.extend_from_slice(&[0xc7, 0x41, 0x0c, 0xb1, 0x1d, 0x00, 0x00]);
    let mut g = Guest::new();
    g.poke_kernel(KERNEL_BASE, &code);
    g.poke_process(SYSTEM_VA, SYSTEM_VA, 4, PML4, 1, "System");
    let vm = bind(g).expect("the guest is bootable");
    assert_eq!(vm.nt_version, 601);
    assert_eq!(vm.nt_build, 7601);
    assert_eq!(vm.offsets.unwrap().image_file_name, 0x2d8);
}

// ---------------------------------------------------------------------------
// Images.
// ---------------------------------------------------------------------------

#[test]
fn exports_are_read_in_the_order_of_the_names() {
    let vm = bind(windows_10()).unwrap();
    let exports = vm.get_module_exports(PML4, KERNEL_BASE).unwrap();
    let listed: Vec<(String, u64)> = exports.iter().map(|e| (e.name.clone(), e.address)).collect();
    assert_eq!(
        listed,
        vec![
            ("PsInitialSystemProcess".to_string(), KERNEL_BASE + 0x2000),
            ("RtlGetVersion".to_string(), KERNEL_BASE + 0x2100),
            ("PsLoadedModuleList".to_string(), KERNEL_BASE + 0x2200),
        ]
    );
    assert_eq!(VMBinding::find_export(&exports, "RtlGetVersion"), Some(KERNEL_BASE + 0x2100));
}

#[test]
fn exports_of_what_is_no_image_are_an_error() {
    let mut g = windows_10();
    g.poke(PML4, 0xffff_f800_7100_0000, b"MZ");
    g.poke_image(PML4, 0xffff_f800_7200_0000, &[]);
    g.poke_u32(PML4, 0xffff_f800_7200_0000 + 0x80 + 0x8c, 0x80_0000);
    g.poke_image(PML4, 0xffff_f800_7300_0000, &[]);
    g.poke_u32(PML4, 0xffff_f800_7300_0000 + 0x80 + 0x8c, 0x27);
    g.poke_image(PML4, 0x1000, &[]);
    g.poke_image(PML4, 0xffff_f800_7400_0000, &[]);
    g.poke_u16(PML4, 0xffff_f800_7400_0000 + 0x80 + 0x18, 0x30b);
    let vm = bind(g).unwrap();
    assert_eq!(vm.get_module_exports(PML4, 0xffff_f800_7000_0000).err(), Some(ExportError::NoNtHeader));
    assert_eq!(vm.get_module_exports(PML4, 0xffff_f800_7100_0000).err(), Some(ExportError::NoNtHeader));
    assert_eq!(vm.get_module_exports(PML4, 0xffff_f800_7400_0000).err(), Some(ExportError::NoNtHeader));
    assert_eq!(vm.get_module_exports(PML4, 0xffff_f800_7200_0000).err(), Some(ExportError::TableTooLarge));
    assert_eq!(vm.get_module_exports(PML4, 0xffff_f800_7300_0000).err(), Some(ExportError::TableTooSmall));
    assert_eq!(vm.get_module_exports(PML4, 0x1000).err(), Some(ExportError::TableAtModuleBase));
}

#[test]
fn image_without_names_has_no_exports() {
    let mut g = windows_10();
    g.poke_image(PML4, 0xffff_f800_7200_0000, &[]);
    let vm = bind(g).unwrap();
    assert_eq!(vm.get_module_exports(PML4, 0xffff_f800_7200_0000).map(|e| e.len()), Ok(0));
}

#[test]
fn nt_header_is_read_by_its_width() {
    let mut g = windows_10();
    g.poke_image(PML4, 0xffff_f800_7200_0000, &[]);
    g.poke_u16(PML4, 0xffff_f800_7200_0000 + 0x80 + 0x18, 0x10b);
    let vm = bind(g).unwrap();
    match vm.get_nt_header(PML4, KERNEL_BASE) {
        Some((NtHeaders::Bit64(h), at)) => {
            assert_eq!(at, KERNEL_BASE + 0x80);
            assert_eq!(h.Signature, 0x4550);
            assert_eq!(h.FileHeader.Machine, 0x8664);
            assert_eq!(h.FileHeader.NumberOfSections, 2);
            assert_eq!(h.OptionalHeader.Magic, 0x20b);
            assert_eq!(h.OptionalHeader.DataDirectory[0].VirtualAddress, 0x1000);
            assert_eq!(h.OptionalHeader.DataDirectory[0].Size, 0x200);
        },
        _ => panic!("the kernel is a 64-bit image"),
    }
    match vm.get_nt_header(PML4, 0xffff_f800_7200_0000) {
        Some((NtHeaders::Bit32(h), at)) => {
            assert_eq!(at, 0xffff_f800_7200_0000 + 0x80);
            assert_eq!(h.OptionalHeader.Magic, 0x10b);
        },
        _ => panic!("the image is a 32-bit image"),
    }
    assert!(vm.get_nt_header(PML4, KERNEL_BASE + 0x1000).is_none());
}

// ---------------------------------------------------------------------------
// Processes, modules and threads.
// ---------------------------------------------------------------------------

#[test]
fn process_list_holds_the_living() {
    let vm = bind(windows_10()).unwrap();
    let procs = vm.walk_processes(true);
    let listed: Vec<(u64, &str)> = procs.iter().map(|p| (p.eprocess.UniqueProcessId, p.name.as_str())).collect();
    assert_eq!(listed, vec![(4, "System"), (1234, "explorer.exe")]);
    let systems = procs.iter().filter(|p| p.name == "System").count();
    assert_eq!(systems, 1);
    assert_eq!(procs[0].eprocessVirtAddr, SYSTEM_VA);
    assert_eq!(procs[0].eprocessPhysAddr, vm.initial_process.eprocess_addr);
    assert_eq!(procs[1].eprocessVirtAddr, EXPLORER_VA);
    assert_eq!(procs[1].eprocessPhysAddr, vm.native_translate(PML4, EXPLORER_VA));
    assert_eq!(procs[1].eprocess.Pcb.StackCount, 2);
    assert_eq!(&procs[1].eprocess.ImageFileName[..12], b"explorer.exe");
}

#[test]
fn process_list_holds_the_dead_if_asked_to() {
    let vm = bind(windows_10()).unwrap();
    let procs = vm.walk_processes(false);
    let listed: Vec<(u64, String)> = procs.iter().map(|p| (p.eprocess.UniqueProcessId, p.name.clone())).collect();
    // A process without loader data goes by the file name in its record.
    assert_eq!(
        listed,
        vec![
            (4, "System".to_string()),
            (1234, "explorer.exe".to_string()),
            (777, "dead.exe".to_string()),
        ]
    );
}

#[test]
fn process_walk_ends_at_a_process_id_of_zero() {
    let mut g = windows_10();
    g.poke_u64(PML4, GHOST_VA + 0x2e0, 0);
    let vm = bind(g).unwrap();
    let pids: Vec<u64> = vm.walk_processes(false).iter().map(|p| p.eprocess.UniqueProcessId).collect();
    assert_eq!(pids, vec![4, 1234]);
}

#[test]
fn process_walk_ends_where_a_link_leads_nowhere() {
    let mut g = windows_10();
    g.poke_u64(PML4, EXPLORER_VA + APL, APL);
    let vm = bind(g).unwrap();
    assert_eq!(vm.walk_processes(false).len(), 2);
    let mut g = windows_10();
    g.poke_u64(PML4, EXPLORER_VA + APL, 0xffff_f800_7777_0000 + APL);
    let vm = bind(g).unwrap();
    assert_eq!(vm.walk_processes(false).len(), 2);
}

#[test]
fn process_walk_ends_in_a_list_that_does_not_return() {
    let mut g = windows_10();
    // The last record leads back to the second, not to the first.
    g.poke_u64(PML4, DEAD_VA + APL, EXPLORER_VA + APL);
    let vm = bind(g).unwrap();
    let pids: Vec<u64> = vm.walk_processes(false).iter().map(|p| p.eprocess.UniqueProcessId).collect();
    assert_eq!(pids, vec![4, 1234, 777]);
}

#[test]
fn process_is_found_by_id_and_by_name() {
    let vm = bind(windows_10()).unwrap();
    let p = vm.find_process_by_pid(1234, true).expect("explorer runs");
    assert_eq!(p.name, "explorer.exe");
    assert_eq!(p.eprocessVirtAddr, EXPLORER_VA);
    let p = vm.find_process_by_name("System", true).expect("the system runs");
    assert_eq!(p.eprocess.UniqueProcessId, 4);
    assert!(vm.find_process_by_pid(777, true).is_none());
    assert!(vm.find_process_by_pid(777, false).is_some());
    assert!(vm.find_process_by_pid(99, false).is_none());
    assert!(vm.find_process_by_name("notepad.exe", false).is_none());
}

#[test]
fn environment_block_and_loader_are_read_in_the_address_space_of_the_process() {
    let vm = bind(windows_10()).unwrap();
    let explorer = vm.find_process_by_pid(1234, true).unwrap();
    let dtb = explorer.eprocess.Pcb.DirectoryTableBase;
    let peb = vm.get_full_peb(dtb, explorer.eprocessPhysAddr);
    assert_eq!(peb.ImageBaseAddress, IMAGE_BASE);
    assert_eq!(peb.Ldr, LDR_VA);
    let flags = peb.BitField.interpret().unwrap();
    assert!(flags.IsProtectedProcess && flags.IsLegacyProcess);
    assert!(!flags.ImageUsesLargePages && !flags.IsImageDynamicallyRelocated);
    assert!(!flags.SkipPatchingUser32Forwarders && !flags.SpareBit0 && !flags.SpareBit2);
    assert_eq!(peb.BitField.as_bitstr(), "01100000");
    let ldr = peb.read_loader_with_dirbase(&vm, dtb);
    assert!(!ldr.likely_invalid());
    assert_eq!(ldr.Length, 0x58);
    assert_eq!(ldr.InLoadOrderModuleList.flink, MODULE_1);
    assert_eq!(ldr.InMemoryOrderModuleList.flink, MODULE_1 + 0x10);
    assert_eq!(ldr.InInitializationOrderModuleList.flink, MODULE_1 + 0x20);
    let first = ldr.get_first_in_initialization_order_module_list_with_dirbase(&vm, dtb).unwrap();
    assert_eq!(first.BaseAddress, IMAGE_BASE);
    let second = first.get_next_in_memory_order_module_list_with_dirbase(&vm, Some(dtb)).unwrap();
    assert_eq!(second.BaseAddress, NTDLL_BASE);
    let third = second.get_next_in_load_order_module_list_with_dirbase(&vm, Some(dtb)).unwrap();
    assert_eq!(third.BaseAddress, KERNEL32_BASE);
    assert_eq!(
        third.BaseDllName.resolve(&vm, Some(dtb), Some(255)),
        Some("KERNEL32.DLL".to_string())
    );
    assert_eq!(third.BaseDllName.resolve(&vm, Some(dtb), Some(9)), Some("KERN".to_string()));
    // In another address space the same address holds another name.
    assert_eq!(
        third.BaseDllName.resolve(&vm, Some(PML4), None),
        Some("kernel32.dll".to_string())
    );
}

#[test]
fn loader_walk_names_the_image_first() {
    let vm = bind(windows_10()).unwrap();
    let explorer = vm.find_process_by_name("explorer.exe", true).unwrap();
    let dtb = explorer.eprocess.Pcb.DirectoryTableBase;
    let modules = vm.get_process_modules(&explorer);
    let bases: Vec<u64> = modules.iter().map(|m| m.BaseAddress).collect();
    assert_eq!(bases, vec![IMAGE_BASE, NTDLL_BASE, KERNEL32_BASE]);
    let named = vm.get_process_modules_map(&explorer);
    let names: Vec<&str> = named.iter().map(|m| m.name.as_str()).collect();
    assert_eq!(names, vec!["explorer.exe", "ntdll.dll", "KERNEL32.DLL"]);
    let peb = vm.get_full_peb(dtb, explorer.eprocessPhysAddr);
    assert_eq!(named[0].module.BaseAddress, peb.ImageBaseAddress);
    assert_eq!(named[0].module.EntryPoint, IMAGE_BASE + 0x1234);
    assert_eq!(named[0].module.SizeOfImage, 0x3000);
    for m in &modules {
        assert_eq!(vm.vread::<u16>(dtb, m.BaseAddress), 0x5A4D);
    }
}

#[test]
fn loader_walk_of_a_process_without_loader_data_is_empty() {
    let vm = bind(windows_10()).unwrap();
    let dead = vm.find_process_by_pid(777, false).unwrap();
    assert!(vm.get_process_modules(&dead).is_empty());
    assert!(vm.get_process_modules_map(&dead).is_empty());
}

#[test]
fn module_exports_sections_and_memory() {
    let vm = bind(windows_10()).unwrap();
    let explorer = vm.find_process_by_pid(1234, true).unwrap();
    let dtb = explorer.eprocess.Pcb.DirectoryTableBase;
    let modules = vm.get_process_modules(&explorer);
    let exports = vm.get_module_exports(dtb, modules[1].BaseAddress).unwrap();
    assert_eq!(exports.len(), 1);
    assert_eq!(exports[0].name, "MessageBoxA");
    assert_eq!(exports[0].address, NTDLL_BASE + 0x2040);
    let sections = vm.get_module_sections(&explorer, &modules[0]);
    assert_eq!(sections.len(), 2);
    assert_eq!(sections[0].get_name(), ".text\0\0\0");
    assert_eq!(sections[0].VirtualAddress, 0x2000);
    assert_eq!(sections[1].get_name(), ".rdata\0\0");
    assert_eq!(sections[1].VirtualAddress, 0x1000);
    let image = vm.dump_module_vmem(dtb, &modules[0]);
    assert_eq!(image.len(), 0x3000);
    assert_eq!(&image[..2], b"MZ");
    assert_eq!(&image[0x80..0x84], b"PE\0\0");
    assert_eq!(&image[0x1400..0x140b], b"MessageBoxA");
    assert_eq!(VMBinding::memmem(&image, b"MessageBoxA"), Some(0x1400));
}

#[test]
fn protection_is_set_in_the_record_and_in_memory() {
    let mut vm = bind(windows_10()).unwrap();
    let mut explorer = vm.find_process_by_pid(1234, true).unwrap();
    assert_eq!(explorer.eprocess.Protection.TypeEnum(), PsProtectedType::Unprotected);
    assert_eq!(explorer.eprocess.Protection.SignerEnum(), PsProtectedSigner::Unsigned);
    let stores =
        vm.set_process_security(&mut explorer, PsProtectedType::Protected, PsProtectedSigner::WinTcb);
    assert_eq!(
        stores,
        vec![WriteStore {
            window_offset: explorer.eprocessPhysAddr + 0x6ca,
            payload_offset: 0,
            len: 1
        }]
    );
    assert_eq!(explorer.eprocess.Protection.Type(), 2);
    assert_eq!(explorer.eprocess.Protection.Signer(), 6);
    assert!(!explorer.eprocess.Protection.Audit());
    assert_eq!(vm.read::<u8>(explorer.eprocessPhysAddr + 0x6ca), 0x62);
    let again = vm.find_process_by_pid(1234, true).unwrap();
    assert_eq!(again.eprocess.Protection.Type(), 2);
    assert_eq!(again.eprocess.Protection.Signer(), 6);
    assert_eq!(again.eprocess.Protection.TypeEnum(), PsProtectedType::Protected);
    assert_eq!(again.eprocess.Protection.SignerEnum(), PsProtectedSigner::WinTcb);
    // The neighbours of the byte stay as they were.
    assert_eq!(vm.read::<u8>(explorer.eprocessPhysAddr + 0x6c9), 0);
    assert_eq!(vm.read::<u8>(explorer.eprocessPhysAddr + 0x6cb), 0);
    // And back.
    vm.set_process_security(&mut explorer, PsProtectedType::Unprotected, PsProtectedSigner::Unsigned);
    assert_eq!(vm.read::<u8>(explorer.eprocessPhysAddr + 0x6ca), 0);
}

#[test]
fn threads_are_walked_from_the_process() {
    let vm = bind(windows_10()).unwrap();
    let explorer = vm.find_process_by_pid(1234, true).unwrap();
    let dtb = explorer.eprocess.Pcb.DirectoryTableBase;
    assert_eq!(explorer.eprocess.ActiveThreads, 2);
    let threads = vm.threads_from_eprocess(&explorer);
    let ids: Vec<(u64, u64)> = threads.iter().map(|t| (t.CidUniqueProcess, t.CidUniqueThread)).collect();
    assert_eq!(ids, vec![(1234, 100), (1234, 101)]);
    assert_eq!(threads[0].Tcb.Teb, TEB_1);
    let teb = vm.get_thread_teb(dtb, &threads[1]).expect("the block is mapped");
    assert_eq!(teb.ClientId.UniqueThread, 101);
    assert_eq!(teb.ProcessEnvironmentBlock, PEB_VA);
    // In the address space of the kernel the block is not mapped.
    assert!(vm.get_thread_teb(0x1f_0000, &threads[1]).is_none());
    let system = vm.find_process_by_pid(4, true).unwrap();
    assert!(vm.threads_from_eprocess(&system).is_empty());
}

#[test]
fn thread_walk_stops_at_the_count_of_the_process() {
    let mut g = windows_10();
    g.poke_u32(PML4, EXPLORER_VA + 0x498, 1);
    let vm = bind(g).unwrap();
    let explorer = vm.find_process_by_pid(1234, true).unwrap();
    assert_eq!(vm.threads_from_eprocess(&explorer).len(), 1);
}

#[test]
fn kernel_modules_are_walked_from_the_export() {
    let vm = bind(windows_10()).unwrap();
    let mods = vm.get_kmods().unwrap();
    let listed: Vec<(&str, u64)> = mods.iter().map(|m| (m.name.as_str(), m.entry.DllBase)).collect();
    assert_eq!(listed, vec![("ntoskrnl.exe", KERNEL_BASE), ("hal.dll", 0xffff_f800_7000_0000)]);
    let hal = vm.find_kmod("hal.dll").expect("the module is loaded");
    assert_eq!(hal.DllBase, 0xffff_f800_7000_0000);
    assert_eq!(hal.SizeOfImage, 0x2000);
    assert!(vm.find_kmod("win32k.sys").is_none());
    let kernel = vm.find_kmod("ntoskrnl.exe").unwrap();
    let image = vm.dump_kmod_vmem(&kernel);
    assert_eq!(image.len(), 0x2000);
    assert_eq!(&image[0x300..0x308], b"INITKDBG");
}

#[test]
fn kernel_modules_need_the_export() {
    let mut g = windows_10();
    g.poke(PML4, KERNEL_BASE + 0x1440, b"PsLoadedModuleLisp");
    let vm = bind(g).unwrap();
    assert_eq!(vm.get_kmods().err(), Some("Failed to find the 'PsLoadedModuleList' kernel export"));
    assert!(vm.find_kmod("hal.dll").is_none());
}

#[test]
fn low_stub_names_a_page_table_in_low_memory() {
    let mut g = windows_10();
    g.put_u64(LOW_STUB + 0xa0, 0x00ff_f000);
    let vm = bind(g);
    // The stub is taken, though nothing can be found through such a table.
    assert!(vm.is_none());
    let mut g = windows_10();
    let stub = g.mem[0x1000..0x2000].to_vec();
    g.put_u64(LOW_STUB + 0xa0, 0x0100_0000);
    g.put(0x9_f000, &stub);
    let vm = bind(g).expect("the second stub is found");
    assert_eq!(vm.find_initial_process(), Some((PML4, KERNEL_ENTRY)));
}

#[test]
fn processes_are_kept_by_their_id() {
    let vm = bind(windows_10()).unwrap();
    let procs = vm.get_processes(true);
    let mut pids: Vec<u64> = procs.keys().copied().collect();
    pids.sort();
    assert_eq!(pids, vec![4, 1234]);
    assert_eq!(procs[&4].name, "System");
    assert_eq!(procs[&1234].name, "explorer.exe");
    assert_eq!(procs[&1234].eprocessVirtAddr, EXPLORER_VA);
    assert_eq!(vm.get_processes(false).len(), 3);
}

#[test]
fn of_two_records_with_one_id_the_later_is_kept() {
    let mut g = windows_10();
    g.poke_u64(PML4, DEAD_VA + 0x2e0, 1234);
    let vm = bind(g).unwrap();
    let listed: Vec<(u64, String)> =
        vm.walk_processes(false).iter().map(|p| (p.eprocess.UniqueProcessId, p.name.clone())).collect();
    assert_eq!(
        listed,
        vec![
            (4, "System".to_string()),
            (1234, "explorer.exe".to_string()),
            (1234, "dead.exe".to_string()),
        ]
    );
    let procs = vm.get_processes(false);
    assert_eq!(procs.len(), 2);
    assert_eq!(procs[&1234].name, "dead.exe");
    assert_eq!(procs[&1234].eprocessVirtAddr, DEAD_VA);
    assert_eq!(vm.find_process_by_pid(1234, false).unwrap().name, "dead.exe");
    assert_eq!(vm.find_process_by_name("explorer.exe", false).unwrap().eprocessVirtAddr, EXPLORER_VA);
}

#[test]
fn system_process_without_an_environment_block_is_named_by_its_record() {
    let mut g = Guest::new();
    g.poke_kernel(KERNEL_BASE, &version_code(19041));
    g.poke_process(SYSTEM_VA, SYSTEM_VA, 4, PML4, 3, "System");
    g.poke_u64(PML4, SYSTEM_VA + 0x3f8, 0);
    let vm = bind(g).unwrap();
    let procs = vm.walk_processes(false);
    assert_eq!(procs.len(), 1);
    assert_eq!(procs[0].name, "System");
    assert_eq!(procs[0].eprocess.UniqueProcessId, 4);
    let named = procs.iter().filter(|p| p.name == "System").count();
    assert_eq!(named, 1);
}

#[test]
fn process_name_that_fills_its_field_is_kept_whole() {
    let mut g = Guest::new();
    g.poke_kernel(KERNEL_BASE, &version_code(19041));
    g.poke_process(SYSTEM_VA, SYSTEM_VA, 4, PML4, 3, "fifteen_letters");
    g.poke_u64(PML4, SYSTEM_VA + 0x3f8, 0);
    let vm = bind(g).unwrap();
    assert_eq!(vm.walk_processes(false)[0].name, "fifteen_letters");
}
