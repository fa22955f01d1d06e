use libvirtdma::vm::binding_core::{kfix2, MemoryWindow, WriteStore};
use libvirtdma::vm::{ProcessData, VMBinding, WinProc, KFIXC, KFIXO};

fn bind(bytes: Vec<u8>) -> VMBinding {
    bind_window(MemoryWindow::new(bytes))
}

fn bind_window(mem: MemoryWindow) -> VMBinding {
    VMBinding {
        nt_kernel_entry: 0,
        nt_version: 0,
        nt_build: 0,
        nt_kernel_modulebase: 0,
        initial_process: WinProc {
            eprocess_va: 0,
            eprocess_addr: 0,
            dirbase: 0,
            pid: 0,
            name: String::new(),
        },
        cached_nt_exports: Vec::new(),
        process: ProcessData { maps_start: 0, maps_size: 0, pid: 0 },
        offsets: None,
        mem,
    }
}

fn pattern(len: usize) -> Vec<u8> {
    (0..len).map(|i| (i * 7 + 3) as u8).collect()
}

fn put_u64(mem: &mut Vec<u8>, at: usize, value: u64) {
    mem[at..at + 8].copy_from_slice(&value.to_le_bytes());
}

const PRESENT: u64 = 1;
const LARGE: u64 = 0x80;

/// Page tables that map the page at `va` to the page at `pa`: the root at
/// 0x1000, the lower levels at 0x2000, 0x3000 and 0x4000.
fn map_one_page(mem: &mut Vec<u8>, va: u64, pa: u64) {
    let pml4i = ((va >> 39) & 0x1ff) as usize;
    let pdpti = ((va >> 30) & 0x1ff) as usize;
    let pdi = ((va >> 21) & 0x1ff) as usize;
    let pti = ((va >> 12) & 0x1ff) as usize;
    put_u64(mem, 0x1000 + 8 * pml4i, 0x2000 | PRESENT);
    put_u64(mem, 0x2000 + 8 * pdpti, 0x3000 | PRESENT);
    put_u64(mem, 0x3000 + 8 * pdi, 0x4000 | PRESENT);
    put_u64(mem, 0x4000 + 8 * pti, pa | PRESENT);
}

#[test]
fn kfix2_shifts_high_addresses_down() {
    assert_eq!(kfix2(0), 0);
    assert_eq!(kfix2(KFIXC - 1), KFIXC - 1);
    assert_eq!(kfix2(KFIXC), KFIXC - KFIXO);
    assert_eq!(kfix2(0x8000_1234), 0x1234);
    assert_eq!(kfix2(u64::MAX), u64::MAX - 0x8000_0000);
}

#[test]
fn window_fixup_is_what_it_was_made_with() {
    let w = MemoryWindow::new(vec![0; 16]);
    assert_eq!(w.maps_size(), 16);
    assert_eq!(w.fixup(5), 5);
    assert_eq!(w.fixup(0x8000_0005), 5);
    let w = MemoryWindow::with_fixup(vec![0; 16], 0x100, 0x40).unwrap();
    assert_eq!(w.fixup(0xff), 0xff);
    assert_eq!(w.fixup(0x100), 0xc0);
    let w = MemoryWindow::with_fixup(vec![0; 16], u64::MAX, 0).unwrap();
    assert_eq!(w.fixup(u64::MAX), u64::MAX);
    assert!(MemoryWindow::with_fixup(vec![0; 16], 0x40, 0x41).is_none());
}

#[test]
fn read_bytes_copies_out_of_the_window() {
    let bytes = pattern(0x3000);
    let w = MemoryWindow::new(bytes.clone());
    assert_eq!(w.read_bytes(0, 0), Some(vec![]));
    assert_eq!(w.read_bytes(0x10, 4), Some(bytes[0x10..0x14].to_vec()));
    assert_eq!(w.read_bytes(0xffe, 4), Some(bytes[0xffe..0x1002].to_vec()));
    assert_eq!(w.read_bytes(0x800, 0x2000), Some(bytes[0x800..0x2800].to_vec()));
    assert_eq!(w.read_bytes(0, 0x3000), Some(bytes.clone()));
}

#[test]
fn read_bytes_fails_past_the_end_of_the_window() {
    let w = MemoryWindow::new(pattern(0x3000));
    assert_eq!(w.read_bytes(0x2fff, 1).map(|v| v.len()), Some(1));
    assert_eq!(w.read_bytes(0x3000, 0), Some(vec![]));
    assert_eq!(w.read_bytes(0x3000, 1), None);
    assert_eq!(w.read_bytes(0x3001, 0), None);
    assert_eq!(w.read_bytes(0, 0x3001), None);
    assert_eq!(w.read_bytes(0x2000, 0x1001), None);
    assert_eq!(w.read_bytes(u64::MAX, 2), None);
    assert_eq!(w.read_bytes(u64::MAX - 0x1000, 0x2000), None);
}

#[test]
fn read_bytes_fixes_up_every_sub_copy() {
    let bytes = pattern(0x3000);
    let w = MemoryWindow::new(bytes.clone());
    // Addresses from the threshold up alias the bottom of the window.
    assert_eq!(w.read_bytes(KFIXC + 0x20, 8), Some(bytes[0x20..0x28].to_vec()));
    // A transfer that starts below the threshold keeps the offset of its
    // start for its first sub-copy only.
    let w = MemoryWindow::with_fixup(bytes.clone(), 0x1800, 0x1800).unwrap();
    let mut expected = bytes[0x1000..0x2000].to_vec();
    expected.extend_from_slice(&bytes[0x800..0x1800]);
    assert_eq!(w.read_bytes(0x1000, 0x2000), Some(expected));
}

#[test]
fn write_bytes_then_read_bytes_gives_the_bytes_back() {
    let mut w = MemoryWindow::new(vec![0; 0x4000]);
    for (gpa, len) in [(0u64, 0usize), (0, 1), (0x123, 0x10), (0xff8, 0x10), (0x800, 0x2345), (0, 0x4000), (0x3fff, 1)] {
        let data = pattern(len);
        assert!(w.write_bytes(gpa, &data), "write at {:#x} of {:#x}", gpa, len);
        assert_eq!(w.read_bytes(gpa, len as u64), Some(data));
    }
}

#[test]
fn write_bytes_changes_nothing_else() {
    let before = pattern(0x3000);
    let mut w = MemoryWindow::new(before.clone());
    assert!(w.write_bytes(0xffc, &[0xaa; 8]));
    let mut expected = before.clone();
    for b in &mut expected[0xffc..0x1004] {
        *b = 0xaa;
    }
    assert_eq!(w.read_bytes(0, 0x3000), Some(expected));
}

#[test]
fn write_bytes_that_fails_changes_nothing() {
    let before = pattern(0x2800);
    let mut w = MemoryWindow::new(before.clone());
    assert!(!w.write_bytes(0x2800, &[1]));
    assert!(!w.write_bytes(0x27ff, &[1, 2]));
    assert_eq!(w.read_bytes(0, 0x2800), Some(before.clone()));
    // Two sub-copies would fit, the third does not: none is made.
    assert!(!w.write_bytes(0x800, &vec![0x55; 0x2001]));
    assert_eq!(w.read_bytes(0, 0x2800), Some(before.clone()));
    let before = pattern(0x2000);
    let mut w = MemoryWindow::new(before.clone());
    assert!(!w.write_bytes(0x1000, &vec![0xaa; 0x2000]));
    assert_eq!(w.read_bytes(0, 0x2000), Some(before.clone()));
    let mut vm = bind(before.clone());
    assert!(!vm.write(0x1000, &vec![0xaa; 0x2000]));
    assert_eq!(vm.readvec(0, 0x2000), before);
    assert!(vm.write(0x1000, &vec![0xaa; 0x1000]));
    assert_eq!(vm.readvec(0xfff, 2), vec![before[0xfff], 0xaa]);
}

#[test]
fn fits_says_whether_a_transfer_lies_in_the_window() {
    let w = MemoryWindow::new(vec![0; 0x3000]);
    assert!(w.fits(0, 0));
    assert!(w.fits(0, 0x3000));
    assert!(w.fits(0x2fff, 1));
    assert!(w.fits(0x3000, 0));
    assert!(!w.fits(0x3000, 1));
    assert!(!w.fits(0x3001, 0));
    assert!(!w.fits(0x800, 0x2801));
    assert!(w.fits(KFIXC + 0x800, 0x2800));
    assert!(!w.fits(u64::MAX, 2));
}

#[test]
fn write_stores_are_the_sub_copies_of_a_write() {
    let w = MemoryWindow::new(vec![0; 0x3000]);
    assert_eq!(
        w.write_stores(0x800, 0x1801),
        vec![
            WriteStore { window_offset: 0x800, payload_offset: 0, len: 0x1000 },
            WriteStore { window_offset: 0x1800, payload_offset: 0x1000, len: 0x801 },
        ]
    );
    assert_eq!(
        w.write_stores(KFIXC + 0x10, 4),
        vec![WriteStore { window_offset: 0x10, payload_offset: 0, len: 4 }]
    );
    assert_eq!(
        w.write_stores(0x10, 0),
        vec![WriteStore { window_offset: 0x10, payload_offset: 0, len: 0 }]
    );
    assert_eq!(w.write_stores(0x2fff, 2), vec![]);
    assert_eq!(w.write_stores(0x800, 0x2801), vec![]);
}

#[test]
fn write_bytes_that_land_on_each_other_keep_the_later_byte() {
    let mut w = MemoryWindow::with_fixup(vec![0; 0x2000], 0x1000, 0x1000).unwrap();
    let data: Vec<u8> = (0..0x2000).map(|i| if i < 0x1000 { 1 } else { 2 }).collect();
    assert!(w.write_bytes(0, &data));
    // Both sub-copies went to offset 0, so the first is lost.
    assert_eq!(w.read_bytes(0, 0x2000), Some(vec![2; 0x2000]));
}

#[test]
fn physical_reads_out_of_range_are_zeros() {
    let vm = bind(pattern(0x2000));
    assert_eq!(vm.readvec(0x1ffe, 2), vec![(0x1ffe * 7 + 3) as u8, (0x1fff * 7 + 3) as u8]);
    assert_eq!(vm.readvec(0x1fff, 2), vec![0, 0]);
    assert_eq!(vm.read::<u64>(0x1ffc), 0);
    assert_eq!(vm.read::<u8>(0x2000), 0);
    assert_eq!(vm.readvec(0x5000, 3), vec![0, 0, 0]);
}

#[test]
fn typed_reads_are_little_endian() {
    let mut mem = vec![0u8; 0x100];
    mem[0x10..0x18].copy_from_slice(&[0x08, 0x07, 0x06, 0x05, 0x04, 0x03, 0x02, 0x01]);
    let vm = bind(mem);
    assert_eq!(vm.read::<u8>(0x10), 0x08);
    assert_eq!(vm.read::<u16>(0x10), 0x0708);
    assert_eq!(vm.read::<u32>(0x10), 0x0506_0708);
    assert_eq!(vm.read::<u64>(0x10), 0x0102_0304_0506_0708);
    assert_eq!(vm.read::<u32>(0x14), 0x0102_0304);
}

#[test]
fn write_reports_range_and_changes_memory() {
    let mut vm = bind(vec![0; 0x100]);
    assert!(vm.write(0x20, &[1, 2, 3]));
    assert_eq!(vm.readvec(0x1f, 5), vec![0, 1, 2, 3, 0]);
    assert!(!vm.write(0xfe, &[1, 2, 3]));
    assert_eq!(vm.readvec(0xfe, 2), vec![0, 0]);
}

#[test]
fn translate_walks_four_levels() {
    let mut mem = vec![0u8; 0x8000];
    map_one_page(&mut mem, 0x0000_7ff6_1234_5000, 0x6000);
    let vm = bind(mem);
    assert_eq!(vm.native_translate(0x1000, 0x0000_7ff6_1234_5000), 0x6000);
    assert_eq!(vm.native_translate(0x1000, 0x0000_7ff6_1234_5abc), 0x6abc);
    // The low four bits of the root are ignored.
    assert_eq!(vm.native_translate(0x100f, 0x0000_7ff6_1234_5abc), 0x6abc);
    // The neighbouring page is not mapped.
    assert_eq!(vm.native_translate(0x1000, 0x0000_7ff6_1234_6000), 0);
    assert_eq!(vm.native_translate(0x1000, 0), 0);
    // Another root, another address space.
    assert_eq!(vm.native_translate(0x5000, 0x0000_7ff6_1234_5000), 0);
}

#[test]
fn translate_stops_at_an_entry_that_is_not_present() {
    let va = 0xffff_f801_2345_6000u64;
    for level in 0..4 {
        let mut mem = vec![0u8; 0x8000];
        map_one_page(&mut mem, va, 0x6000);
        let pml4i = ((va >> 39) & 0x1ff) as usize;
        let pdpti = ((va >> 30) & 0x1ff) as usize;
        let pdi = ((va >> 21) & 0x1ff) as usize;
        let pti = ((va >> 12) & 0x1ff) as usize;
        let at = [0x1000 + 8 * pml4i, 0x2000 + 8 * pdpti, 0x3000 + 8 * pdi, 0x4000 + 8 * pti][level];
        let entry = u64::from_le_bytes(mem[at..at + 8].try_into().unwrap());
        put_u64(&mut mem, at, entry & !PRESENT);
        let vm = bind(mem);
        if level < 3 {
            assert_eq!(vm.native_translate(0x1000, va), 0, "level {}", level);
        } else {
            // The last level is taken for its address alone.
            assert_eq!(vm.native_translate(0x1000, va), 0x6000);
        }
    }
}

#[test]
fn translate_of_a_last_entry_without_an_address_is_zero() {
    let mut mem = vec![0u8; 0x8000];
    map_one_page(&mut mem, 0x5000, 0);
    let vm = bind(mem);
    assert_eq!(vm.native_translate(0x1000, 0x5123), 0);
}

#[test]
fn translate_handles_large_pages() {
    let va = 0x0000_0001_4020_3456u64;
    let pml4i = ((va >> 39) & 0x1ff) as usize;
    let pdpti = ((va >> 30) & 0x1ff) as usize;
    let pdi = ((va >> 21) & 0x1ff) as usize;
    // A page of 2 MiB.
    let mut mem = vec![0u8; 0x8000];
    put_u64(&mut mem, 0x1000 + 8 * pml4i, 0x2000 | PRESENT);
    put_u64(&mut mem, 0x2000 + 8 * pdpti, 0x3000 | PRESENT);
    put_u64(&mut mem, 0x3000 + 8 * pdi, 0x0060_0000 | PRESENT | LARGE);
    let vm = bind(mem);
    assert_eq!(vm.native_translate(0x1000, va), 0x0060_0000 + (va & 0x1f_ffff));
    // A page of 1 GiB.
    let mut mem = vec![0u8; 0x8000];
    put_u64(&mut mem, 0x1000 + 8 * pml4i, 0x2000 | PRESENT);
    put_u64(&mut mem, 0x2000 + 8 * pdpti, 0x0001_8000_0000 | PRESENT | LARGE);
    let vm = bind(mem);
    assert_eq!(vm.native_translate(0x1000, va), 0x0001_8000_0000 + (va & 0x3fff_ffff));
}

#[test]
fn virtual_read_in_one_page_is_one_translation() {
    let mut mem = pattern(0x8000);
    for b in &mut mem[0x1000..0x5000] {
        *b = 0;
    }
    map_one_page(&mut mem, 0x40_0000, 0x6000);
    let expected = mem[0x6010..0x6020].to_vec();
    let whole = mem[0x6000..0x7000].to_vec();
    let vm = bind(mem);
    assert_eq!(vm.vreadvec(0x1000, 0x40_0010, 0x10), expected);
    assert_eq!(vm.vreadvec(0x1000, 0x40_0000, 0x1000), whole);
    assert_eq!(vm.vreadvec(0x1000, 0x40_0000, 0), Vec::<u8>::new());
}

#[test]
fn virtual_read_is_cut_at_every_page_boundary() {
    let mut mem = pattern(0x9000);
    for b in &mut mem[0x1000..0x5000] {
        *b = 0;
    }
    // Three pages that follow each other in the address space and lie
    // scattered in memory.
    map_one_page(&mut mem, 0x40_0000, 0x7000);
    map_one_page(&mut mem, 0x40_1000, 0x5000);
    map_one_page(&mut mem, 0x40_2000, 0x8000);
    let mut expected = mem[0x7800..0x8000].to_vec();
    expected.extend_from_slice(&mem[0x5000..0x6000]);
    expected.extend_from_slice(&mem[0x8000..0x8123]);
    let vm = bind(mem);
    let got = vm.vreadvec(0x1000, 0x40_0800, 0x800 + 0x1000 + 0x123);
    assert_eq!(got.len(), 0x800 + 0x1000 + 0x123);
    assert_eq!(got, expected);
}

#[test]
fn virtual_read_of_unmapped_pages_is_zeros() {
    let mut mem = pattern(0x9000);
    for b in &mut mem[0x1000..0x5000] {
        *b = 0;
    }
    map_one_page(&mut mem, 0x40_0000, 0x7000);
    map_one_page(&mut mem, 0x40_2000, 0x8000);
    let mut expected = mem[0x7ff0..0x8000].to_vec();
    expected.extend_from_slice(&[0u8; 0x1000]);
    expected.extend_from_slice(&mem[0x8000..0x8010]);
    let vm = bind(mem);
    assert_eq!(vm.vreadvec(0x1000, 0x40_0ff0, 0x1020), expected);
    assert_eq!(vm.vreadvec(0x1000, 0x9999_0000, 0x20), vec![0u8; 0x20]);
    assert_eq!(vm.vread::<u64>(0x1000, 0x9999_0000), 0);
}

#[test]
fn virtual_read_past_the_end_of_the_address_space_is_zeros() {
    let mut mem = pattern(0x9000);
    for b in &mut mem[0x1000..0x5000] {
        *b = 0;
    }
    map_one_page(&mut mem, 0xffff_ffff_ffff_f000, 0x7000);
    let mut expected = mem[0x7ff0..0x8000].to_vec();
    expected.extend_from_slice(&[0u8; 0x10]);
    let vm = bind(mem);
    assert_eq!(vm.vreadvec(0x1000, 0xffff_ffff_ffff_fff0, 0x20), expected);
}

#[test]
fn virtual_typed_read_across_pages() {
    let mut mem = vec![0u8; 0x9000];
    map_one_page(&mut mem, 0x40_0000, 0x7000);
    map_one_page(&mut mem, 0x40_1000, 0x5000);
    mem[0x7ffc..0x8000].copy_from_slice(&[0x11, 0x22, 0x33, 0x44]);
    mem[0x5000..0x5004].copy_from_slice(&[0x55, 0x66, 0x77, 0x88]);
    let vm = bind(mem);
    assert_eq!(vm.vread::<u64>(0x1000, 0x40_0ffc), 0x8877_6655_4433_2211);
    assert_eq!(vm.vread::<u16>(0x1000, 0x40_0fff), 0x5544);
}

#[test]
fn virtual_write_is_cut_at_every_page_boundary() {
    let mut mem = vec![0u8; 0x9000];
    map_one_page(&mut mem, 0x40_0000, 0x7000);
    map_one_page(&mut mem, 0x40_1000, 0x5000);
    let mut vm = bind(mem);
    let data = pattern(0x20);
    let stores = vm.vwrite(0x1000, 0x40_0ff0, &data);
    assert_eq!(
        stores,
        vec![
            WriteStore { window_offset: 0x7ff0, payload_offset: 0, len: 0x10 },
            WriteStore { window_offset: 0x5000, payload_offset: 0x10, len: 0x10 },
        ]
    );
    assert_eq!(vm.vreadvec(0x1000, 0x40_0ff0, 0x20), data);
    assert_eq!(vm.readvec(0x7ff0, 0x10), data[..0x10].to_vec());
    assert_eq!(vm.readvec(0x5000, 0x10), data[0x10..].to_vec());
    assert_eq!(vm.readvec(0x8000, 0x10), vec![0u8; 0x10]);
}

#[test]
fn virtual_write_to_unmapped_pages_is_dropped() {
    let mut mem = vec![0u8; 0x9000];
    map_one_page(&mut mem, 0x40_1000, 0x5000);
    let before = mem.clone();
    let mut vm = bind(mem);
    let stores = vm.vwrite(0x1000, 0x40_0ff0, &[0xaa; 0x20]);
    assert_eq!(stores, vec![WriteStore { window_offset: 0x5000, payload_offset: 0x10, len: 0x10 }]);
    let mut expected = before.clone();
    for b in &mut expected[0x5000..0x5010] {
        *b = 0xaa;
    }
    assert_eq!(vm.readvec(0, 0x9000), expected);
    assert_eq!(vm.write_shellcode(0x1000, 0x7000_0000, &[0xbb; 4]), vec![]);
    assert_eq!(vm.readvec(0, 0x9000), expected);
    assert_eq!(
        vm.write_shellcode(0x1000, 0x40_1800, &[0x90, 0xc3]),
        vec![WriteStore { window_offset: 0x5800, payload_offset: 0, len: 2 }]
    );
    assert_eq!(vm.readvec(0x5800, 2), vec![0x90, 0xc3]);
    assert_eq!(vm.vwrite(0x1000, 0x40_1800, &[]), vec![]);
}

#[test]
fn cstring_ends_at_a_zero_byte_or_at_the_limit() {
    let mut mem = vec![0u8; 0x100];
    mem[0x10..0x16].copy_from_slice(b"System");
    mem[0xfd..0x100].copy_from_slice(b"end");
    let vm = bind(mem);
    assert_eq!(vm.read_cstring_from_physical_mem(0x10, None), "System");
    assert_eq!(vm.read_cstring_from_physical_mem(0x10, Some(128)), "System");
    assert_eq!(vm.read_cstring_from_physical_mem(0x10, Some(6)), "System");
    assert_eq!(vm.read_cstring_from_physical_mem(0x10, Some(3)), "Sys");
    assert_eq!(vm.read_cstring_from_physical_mem(0x10, Some(1)), "S");
    assert_eq!(vm.read_cstring_from_physical_mem(0x10, Some(0)), "");
    assert_eq!(vm.read_cstring_from_physical_mem(0x10, Some(7)), "System");
    assert_eq!(vm.read_cstring_from_physical_mem(0x16, None), "");
    // The end of the window reads as zero.
    assert_eq!(vm.read_cstring_from_physical_mem(0xfd, None), "end");
    assert_eq!(vm.read_cstring_from_physical_mem(0x1000, None), "");
}

#[test]
fn cstring_bytes_are_code_points() {
    let mut mem = vec![0u8; 0x10];
    mem[0..3].copy_from_slice(&[0x41, 0xe9, 0xff]);
    let vm = bind(mem);
    assert_eq!(vm.read_cstring_from_physical_mem(0, None), "A\u{e9}\u{ff}");
}

#[test]
fn virtual_write_to_a_page_outside_the_window_is_dropped() {
    let mut mem = vec![0u8; 0x9000];
    map_one_page(&mut mem, 0x40_0000, 0x7000);
    map_one_page(&mut mem, 0x40_1000, 0x20_0000);
    let before = mem.clone();
    let mut vm = bind(mem);
    let stores = vm.vwrite(0x1000, 0x40_0ffc, &[1, 2, 3, 4, 5, 6, 7, 8]);
    assert_eq!(stores, vec![WriteStore { window_offset: 0x7ffc, payload_offset: 0, len: 4 }]);
    let mut expected = before.clone();
    expected[0x7ffc..0x8000].copy_from_slice(&[1, 2, 3, 4]);
    assert_eq!(vm.readvec(0, 0x9000), expected);
}

fn make_again(mem: &mut [u8], stores: &[WriteStore], payload: &[u8]) {
    for s in stores {
        let from = s.payload_offset as usize;
        let to = s.window_offset as usize;
        let n = s.len as usize;
        mem[to..to + n].copy_from_slice(&payload[from..from + n]);
    }
}

#[test]
fn stores_of_a_virtual_write_made_again_give_the_memory_after_it() {
    let mut mem = pattern(0x9000);
    for b in &mut mem[0x1000..0x5000] {
        *b = 0;
    }
    map_one_page(&mut mem, 0x40_0000, 0x7000);
    map_one_page(&mut mem, 0x40_2000, 0x5000);
    map_one_page(&mut mem, 0x40_3000, 0x20_0000);
    let mut twin = mem.clone();
    let mut vm = bind(mem);
    let payload: Vec<u8> = (0..0x3010u32).map(|i| (i * 7 + 3) as u8).collect();
    let stores = vm.vwrite(0x1000, 0x40_0ff8, &payload);
    assert_eq!(
        stores,
        vec![
            WriteStore { window_offset: 0x7ff8, payload_offset: 0, len: 8 },
            WriteStore { window_offset: 0x5000, payload_offset: 0x1008, len: 0x1000 },
        ]
    );
    make_again(&mut twin, &stores, &payload);
    assert_eq!(vm.readvec(0, 0x9000), twin);
}

#[test]
fn stores_of_a_write_made_again_give_the_memory_after_it() {
    let mut twin = pattern(0x4000);
    let mut w = MemoryWindow::new(twin.clone());
    let payload: Vec<u8> = (0..0x2345u32).map(|i| (i * 5 + 1) as u8).collect();
    let stores = w.write_stores(0x0ffe, payload.len() as u64);
    assert_eq!(stores.len(), 3);
    assert!(w.write_bytes(0x0ffe, &payload));
    make_again(&mut twin, &stores, &payload);
    assert_eq!(w.read_bytes(0, 0x4000), Some(twin.clone()));
    // A write that fails has no stores and leaves the window as it was.
    let stores = w.write_stores(0x3000, payload.len() as u64);
    assert!(stores.is_empty());
    assert!(!w.write_bytes(0x3000, &payload));
    assert_eq!(w.read_bytes(0, 0x4000), Some(twin));
}

#[test]
fn write_leaves_the_other_bytes_as_they_were() {
    let before = pattern(0x3000);
    let mut w = MemoryWindow::new(before.clone());
    assert!(w.write_bytes(0x1ffe, &[0xa1, 0xa2, 0xa3, 0xa4]));
    let after = w.read_bytes(0, 0x3000).unwrap();
    assert_eq!(&after[..0x1ffe], &before[..0x1ffe]);
    assert_eq!(&after[0x1ffe..0x2002], &[0xa1, 0xa2, 0xa3, 0xa4]);
    assert_eq!(&after[0x2002..], &before[0x2002..]);
}

#[test]
fn virtual_read_yields_the_byte_at_the_translation_of_each_address() {
    let mut mem = pattern(0x9000);
    for b in &mut mem[0x1000..0x5000] {
        *b = 0;
    }
    map_one_page(&mut mem, 0x40_0000, 0x7000);
    map_one_page(&mut mem, 0x40_1000, 0x5000);
    let vm = bind(mem);
    let got = vm.vreadvec(0x1000, 0x40_0f80, 0x100);
    for i in 0..0x100u64 {
        let gpa = vm.native_translate(0x1000, 0x40_0f80 + i);
        assert_ne!(gpa, 0);
        assert_eq!(got[i as usize], vm.read::<u8>(gpa));
    }
    assert_eq!(vm.native_translate(0x1000, 0x40_0f80), 0x7f80);
    assert_eq!(vm.native_translate(0x1000, 0x40_0fff), 0x7fff);
    assert_eq!(vm.native_translate(0x1000, 0x40_1000), 0x5000);
}
