use libvirtdma::bytes::Pod;
use libvirtdma::proc_kernelinfo::ProcKernelInfo;
use libvirtdma::text::{latin1_string, padded_string};
use libvirtdma::vm::binding_core::{MemoryWindow, WriteStore};
use libvirtdma::vm::{ProcessData, VMBinding, WinModule, WinProc};
use libvirtdma::win::eprocess::{PsProtectedSigner, PsProtectedType, PsProtection, EPROCESS, KPROCESS};
use libvirtdma::win::ethread::{KldrDataTableEntry, ETHREAD, KTHREAD};
use libvirtdma::win::heap_entry::{HEAP, HEAP_ENTRY};
use libvirtdma::win::list_entry::{ListEntry, SingleListEntry};
use libvirtdma::win::misc::GroupAffinity;
use libvirtdma::win::pe::{
    ImageBaseRelocation, ImageDataDirectory, ImageDosHeader, ImageExportDirectory,
    ImageFileHeader, ImageNtHeaders32, ImageNtHeaders64, ImageOptionalHeader64,
    ImageSectionHeader, TypeOffset,
};
use libvirtdma::win::peb::FullPEB;
use libvirtdma::win::peb_bitfield::PEBBitfield;
use libvirtdma::win::peb_ldr_data::{LdrModule, PebLdrData};
use libvirtdma::win::proc_heap_entry::{HeapBlock, HeapEntryKind, HeapProperty, HeapRegion, ProcessHeapEntry};
use libvirtdma::win::teb::{ClientID, TebFlagsBitfield, GUID, TEB};
use libvirtdma::win::unicode_string::UnicodeString;

fn bind(bytes: Vec<u8>) -> VMBinding {
    VMBinding {
        nt_kernel_entry: 0,
        nt_version: 0,
        nt_build: 0,
        nt_kernel_modulebase: 0,
        initial_process: WinProc {
            eprocess_va: 0,
            eprocess_addr: 0,
            dirbase: 0,
            pid: 0,
            name: String::new(),
        },
        cached_nt_exports: Vec::new(),
        process: ProcessData { maps_start: 0, maps_size: 0, pid: 0 },
        offsets: None,
        mem: MemoryWindow::new(bytes),
    }
}

fn put_u64(mem: &mut [u8], at: usize, v: u64) {
    mem[at..at + 8].copy_from_slice(&v.to_le_bytes());
}

fn put_u32(mem: &mut [u8], at: usize, v: u32) {
    mem[at..at + 4].copy_from_slice(&v.to_le_bytes());
}

fn put_u16(mem: &mut [u8], at: usize, v: u16) {
    mem[at..at + 2].copy_from_slice(&v.to_le_bytes());
}

#[test]
fn records_have_their_sizes() {
    assert_eq!(<KPROCESS as Pod>::size(), 0x2d8);
    assert_eq!(<EPROCESS as Pod>::size(), 0x850);
    assert_eq!(<KTHREAD as Pod>::size(), 0x5f0);
    assert_eq!(<ETHREAD as Pod>::size(), 0x810);
    assert_eq!(<HEAP as Pod>::size(), 0x2c0);
    assert_eq!(<TEB as Pod>::size(), 0x1838);
    assert_eq!(<KldrDataTableEntry as Pod>::size(), 0xa0);
    assert_eq!(<FullPEB as Pod>::size(), 0x7b0);
    assert_eq!(<PebLdrData as Pod>::size(), 0x58);
    assert_eq!(<LdrModule as Pod>::size(), 0x88);
    assert_eq!(<GroupAffinity as Pod>::size(), 0x10);
    assert_eq!(<GUID as Pod>::size(), 0x10);
    assert_eq!(<ClientID as Pod>::size(), 0x10);
    assert_eq!(<HEAP_ENTRY as Pod>::size(), 0x10);
    assert_eq!(<ListEntry as Pod>::size(), 0x10);
    assert_eq!(<SingleListEntry as Pod>::size(), 8);
    assert_eq!(<UnicodeString as Pod>::size(), 0x10);
    assert_eq!(<ImageDosHeader as Pod>::size(), 0x40);
    assert_eq!(<ImageFileHeader as Pod>::size(), 0x14);
    assert_eq!(<ImageDataDirectory as Pod>::size(), 8);
    assert_eq!(<ImageOptionalHeader64 as Pod>::size(), 0xf0);
    assert_eq!(<ImageNtHeaders64 as Pod>::size(), 0x108);
    assert_eq!(<ImageNtHeaders32 as Pod>::size(), 0xf8);
    assert_eq!(<ImageSectionHeader as Pod>::size(), 0x28);
    assert_eq!(<ImageExportDirectory as Pod>::size(), 0x28);
    assert_eq!(<ImageBaseRelocation as Pod>::size(), 8);
    assert_eq!(<ProcessHeapEntry as Pod>::size(), 40);
    assert_eq!(<HeapBlock as Pod>::size(), 0x10);
    assert_eq!(<HeapRegion as Pod>::size(), 0x18);
    assert_eq!(<u8 as Pod>::size(), 1);
    assert_eq!(<u16 as Pod>::size(), 2);
    assert_eq!(<u32 as Pod>::size(), 4);
    assert_eq!(<u64 as Pod>::size(), 8);
}

#[test]
fn process_record_is_read_field_by_field() {
    let mut b = vec![0u8; 0x850];
    put_u64(&mut b, 0x28, 0x1ab000);
    put_u64(&mut b, 0x30, 0xffff_8000_0000_1000);
    put_u64(&mut b, 0x38, 0xffff_8000_0000_2000);
    put_u32(&mut b, 0x23c, 7);
    put_u64(&mut b, 0x2e0, 4321);
    put_u64(&mut b, 0x2e8, 0x1111);
    put_u64(&mut b, 0x2f0, 0x2222);
    put_u64(&mut b, 0x3f8, 0x7ff7_0000_1000);
    b[0x450..0x45c].copy_from_slice(b"explorer.exe");
    b[0x45f] = 8;
    put_u32(&mut b, 0x498, 12);
    b[0x6ca] = 0x61;
    put_u64(&mut b, 0x848, 0xdead_beef);
    let e = EPROCESS::from_bytes(&b);
    assert_eq!(e.Pcb.DirectoryTableBase, 0x1ab000);
    assert_eq!(e.Pcb.ThreadListHead.flink, 0xffff_8000_0000_1000);
    assert_eq!(e.Pcb.ThreadListHead.blink, 0xffff_8000_0000_2000);
    assert_eq!(e.Pcb.StackCount, 7);
    assert_eq!(e.UniqueProcessId, 4321);
    assert_eq!(e.ActiveProcessLinks.flink, 0x1111);
    assert_eq!(e.ActiveProcessLinks.blink, 0x2222);
    assert_eq!(e.Peb, 0x7ff7_0000_1000);
    assert_eq!(&e.ImageFileName, b"explorer.exe\0\0\0");
    assert_eq!(e.PriorityClass, 8);
    assert_eq!(e.ActiveThreads, 12);
    assert_eq!(e.Protection.value, [0x61]);
    assert_eq!(e.MmHotPatchContext, 0xdead_beef);
    assert_eq!(e.Flags, 0);
    // A longer run of bytes gives the same record.
    b.extend_from_slice(&[0xff; 16]);
    assert_eq!(EPROCESS::from_bytes(&b).UniqueProcessId, 4321);
}

#[test]
fn thread_record_is_read_field_by_field() {
    let mut b = vec![0u8; 0x810];
    put_u64(&mut b, 0xf0, 0x7ff7_0000_5000);
    put_u32(&mut b, 0x74, 0xffff_fffe);
    put_u64(&mut b, 0xc8, 0xffff_ffff_ffff_fff0);
    put_u64(&mut b, 0x2f8, 0xaaaa);
    put_u64(&mut b, 0x300, 0xbbbb);
    put_u16(&mut b, 0x230, 3);
    put_u64(&mut b, 0x638, 1234);
    put_u64(&mut b, 0x640, 5678);
    put_u32(&mut b, 0x700, 0x8000_0000);
    let t = ETHREAD::from_bytes(&b);
    assert_eq!(t.Tcb.Teb, 0x7ff7_0000_5000);
    assert_eq!(t.Tcb.MiscFlags, -2);
    assert_eq!(t.Tcb.WaitStatus, -16);
    assert_eq!(t.Tcb.ThreadListEntry.flink, 0xaaaa);
    assert_eq!(t.Tcb.ThreadListEntry.blink, 0xbbbb);
    assert_eq!(t.Tcb.UserAffinity.Group, 3);
    assert_eq!(t.CidUniqueProcess, 1234);
    assert_eq!(t.CidUniqueThread, 5678);
    assert_eq!(t.ExitStatus, i32::MIN);
}

#[test]
fn small_records_are_read_field_by_field() {
    let b: Vec<u8> = (0u8..0x58).collect();
    let l = ListEntry::from_bytes(&b);
    assert_eq!(l.flink, 0x0706_0504_0302_0100);
    assert_eq!(l.blink, 0x0f0e_0d0c_0b0a_0908);
    assert_eq!(SingleListEntry::from_bytes(&b[8..]).next, 0x0f0e_0d0c_0b0a_0908);
    let u = UnicodeString::from_bytes(&b);
    assert_eq!(u.length, 0x0100);
    assert_eq!(u.maximum_length, 0x0302);
    assert_eq!(u.buffer, 0x0f0e_0d0c_0b0a_0908);
    let g = GroupAffinity::from_bytes(&b);
    assert_eq!(g.Mask, 0x0706_0504_0302_0100);
    assert_eq!(g.Group, 0x0908);
    assert_eq!(g.Reserved, [0x0b0a, 0x0d0c, 0x0f0e]);
    let guid = GUID::from_bytes(&b);
    assert_eq!(guid.Data1, 0x0302_0100);
    assert_eq!(guid.Data2, 0x0504);
    assert_eq!(guid.Data3, 0x0706);
    assert_eq!(guid.Data4, [8, 9, 10, 11, 12, 13, 14, 15]);
    let ldr = PebLdrData::from_bytes(&b);
    assert_eq!(ldr.Length, 0x0302_0100);
    assert_eq!(ldr.InMemoryOrderModuleList.flink, 0x2726_2524_2322_2120);
    assert_eq!(ldr.ShutdownThreadId, 0x5756_5554_5352_5150);
    assert!(!ldr.likely_invalid());
    assert!(PebLdrData::from_bytes(&[0u8; 0x58]).likely_invalid());
    let mut one = [0u8; 0x58];
    one[0x50] = 1;
    assert!(!PebLdrData::from_bytes(&one).likely_invalid());
}

#[test]
fn image_records_are_read_field_by_field() {
    let mut b = vec![0u8; 0x108];
    b[0..4].copy_from_slice(b"PE\0\0");
    put_u16(&mut b, 4, 0x8664);
    put_u16(&mut b, 6, 5);
    put_u16(&mut b, 0x14, 0xf0);
    put_u16(&mut b, 0x18, 0x20b);
    put_u32(&mut b, 0x28, 0x1450);
    put_u64(&mut b, 0x30, 0x1_4000_0000);
    put_u32(&mut b, 0x84, 16);
    for i in 0..16 {
        put_u32(&mut b, 0x88 + 8 * i, 0x1000 * (i as u32 + 1));
        put_u32(&mut b, 0x8c + 8 * i, 0x10 * (i as u32 + 1));
    }
    let h = ImageNtHeaders64::from_bytes(&b);
    assert_eq!(h.Signature, 0x4550);
    assert_eq!(h.FileHeader.Machine, 0x8664);
    assert_eq!(h.FileHeader.NumberOfSections, 5);
    assert_eq!(h.FileHeader.SizeOfOptionalHeader, 0xf0);
    assert_eq!(h.OptionalHeader.Magic, 0x20b);
    assert_eq!(h.OptionalHeader.AddressOfEntryPoint, 0x1450);
    assert_eq!(h.OptionalHeader.ImageBase, 0x1_4000_0000);
    assert_eq!(h.OptionalHeader.NumberOfRvaAndSizes, 16);
    for i in 0..16 {
        assert_eq!(h.OptionalHeader.DataDirectory[i].VirtualAddress, 0x1000 * (i as u32 + 1));
        assert_eq!(h.OptionalHeader.DataDirectory[i].Size, 0x10 * (i as u32 + 1));
    }
    let mut d = vec![0u8; 0x40];
    d[0..2].copy_from_slice(b"MZ");
    put_u32(&mut d, 0x3c, 0xe8);
    let dos = ImageDosHeader::from_bytes(&d);
    assert_eq!(dos.e_magic, 0x5A4D);
    assert_eq!(dos.e_lfanew, 0xe8);
    let mut s = vec![0u8; 0x28];
    s[0..6].copy_from_slice(b".reloc");
    put_u32(&mut s, 8, 0x1234);
    put_u32(&mut s, 0x24, 0x4200_0040);
    let section = ImageSectionHeader::from_bytes(&s);
    assert_eq!(section.get_name(), ".reloc\0\0");
    assert_eq!(section.PhysicalAddressOrVirtualSize, 0x1234);
    assert_eq!(section.Characteristics, 0x4200_0040);
}

#[test]
fn type_offset_holds_a_kind_and_an_offset() {
    let t = TypeOffset::from_bytes(&[0x3a, 0xa1]);
    assert_eq!(t.Type(), 0xa);
    assert_eq!(t.Offset(), 0xa13);
    let t = TypeOffset { value: [0xff, 0x00] };
    assert_eq!((t.Type(), t.Offset()), (0xf, 0x00f));
    let t = TypeOffset { value: [0x00, 0xff] };
    assert_eq!((t.Type(), t.Offset()), (0, 0xff0));
}

#[test]
fn relocations_follow_their_header() {
    let mut mem = vec![0u8; 0x8000];
    // One page at 0x40_0000, mapped to 0x6000.
    put_u64(&mut mem, 0x1000, 0x2000 | 1);
    put_u64(&mut mem, 0x2000, 0x3000 | 1);
    put_u64(&mut mem, 0x3000 + 8 * 2, 0x4000 | 1);
    put_u64(&mut mem, 0x4000, 0x6000 | 1);
    put_u32(&mut mem, 0x6100, 0x5000);
    put_u32(&mut mem, 0x6104, 8 + 3 * 2);
    mem[0x6108..0x610e].copy_from_slice(&[0x10, 0xa0, 0x28, 0xa0, 0x00, 0x00]);
    let vm = bind(mem);
    let block: ImageBaseRelocation = vm.vread(0x1000, 0x40_0100);
    assert_eq!(block.VirtualAddress, 0x5000);
    assert_eq!(block.SizeOfBlock, 14);
    let entries = block.get_type_offsets(&vm, 0x1000, 0x40_0100);
    let read: Vec<(u16, u16)> = entries.iter().map(|t| (t.Type(), t.Offset())).collect();
    assert_eq!(read, vec![(0, 0xa01), (8, 0xa02), (0, 0)]);
    let short = ImageBaseRelocation { VirtualAddress: 0, SizeOfBlock: 7 };
    assert!(short.get_type_offsets(&vm, 0x1000, 0x40_0100).is_empty());
    let odd = ImageBaseRelocation { VirtualAddress: 0, SizeOfBlock: 11 };
    assert_eq!(odd.get_type_offsets(&vm, 0x1000, 0x40_0100).len(), 1);
}

#[test]
fn protection_byte_has_three_fields() {
    let p = PsProtection { value: [0x72] };
    assert_eq!(p.Type(), 2);
    assert!(!p.Audit());
    assert_eq!(p.Signer(), 7);
    assert_eq!(p.TypeEnum(), PsProtectedType::Protected);
    assert_eq!(p.SignerEnum(), PsProtectedSigner::WinSystem);
    let p = PsProtection { value: [0xff] };
    assert_eq!(p.Type(), 7);
    assert!(p.Audit());
    assert_eq!(p.Signer(), 15);
    assert_eq!(p.TypeEnum(), PsProtectedType::Unknown);
    assert_eq!(p.SignerEnum(), PsProtectedSigner::Unknown);
}

#[test]
fn protection_fields_are_set_one_by_one() {
    let mut p = PsProtection { value: [0xff] };
    p.set_Type(2);
    assert_eq!(p.value, [0xfa]);
    p.set_Signer(6);
    assert_eq!(p.value, [0x6a]);
    p.set_Audit(false);
    assert_eq!(p.value, [0x62]);
    p.set_Audit(true);
    assert_eq!(p.value, [0x6a]);
    // What does not fit in a field is cut off.
    p.set_Type(0xf8 | 1);
    assert_eq!(p.value, [0x69]);
    p.set_Signer(0xf0);
    assert_eq!(p.value, [0x09]);
}

#[test]
fn protection_types_and_signers_have_numbers() {
    let types = [
        (0u8, PsProtectedType::Unprotected),
        (1, PsProtectedType::ProtectedLight),
        (2, PsProtectedType::Protected),
    ];
    for (n, t) in types {
        assert_eq!(PsProtectedType::from_u8(n), t);
        assert_eq!(t.to_u8(), n);
    }
    assert_eq!(PsProtectedType::from_u8(3), PsProtectedType::Unknown);
    assert_eq!(PsProtectedType::from_u8(0xf0), PsProtectedType::Unknown);
    assert_eq!(PsProtectedType::Unknown.to_u8(), 0xf0);
    let signers = [
        (0u8, PsProtectedSigner::Unsigned),
        (1, PsProtectedSigner::Authenticode),
        (2, PsProtectedSigner::CodeGen),
        (3, PsProtectedSigner::Antimalware),
        (4, PsProtectedSigner::Lsa),
        (5, PsProtectedSigner::Windows),
        (6, PsProtectedSigner::WinTcb),
        (7, PsProtectedSigner::WinSystem),
        (8, PsProtectedSigner::App),
    ];
    for (n, s) in signers {
        assert_eq!(PsProtectedSigner::from_u8(n), s);
        assert_eq!(s.to_u8(), n);
    }
    assert_eq!(PsProtectedSigner::from_u8(9), PsProtectedSigner::Unknown);
    assert_eq!(PsProtectedSigner::Unknown.to_u8(), 0xf0);
}

#[test]
fn protection_of_an_unknown_kind_clears_the_field() {
    let mut vm = bind(vec![0xffu8; 0x1000]);
    let mut record = vec![0u8; 0x850];
    record[0x6ca] = 0x62;
    let mut proc = ProcKernelInfo::new("p", EPROCESS::from_bytes(&record), 0xffff_8000_0000_0000, 0x100);
    let stores = vm.set_process_security(&mut proc, PsProtectedType::Unknown, PsProtectedSigner::Unknown);
    assert_eq!(stores, vec![WriteStore { window_offset: 0x7ca, payload_offset: 0, len: 1 }]);
    assert_eq!(proc.eprocess.Protection.value, [0x00]);
    assert_eq!(vm.readvec(0x100 + 0x6c9, 3), vec![0xff, 0x00, 0xff]);
    // What is as asked for is left alone.
    let mut proc = ProcKernelInfo::new("p", EPROCESS::from_bytes(&record), 0, 0x100);
    vm.set_process_security(&mut proc, PsProtectedType::Protected, PsProtectedSigner::WinTcb);
    assert_eq!(proc.eprocess.Protection.value, [0x62]);
    assert_eq!(vm.read::<u8>(0x100 + 0x6ca), 0x62);
    // Outside the window nothing is written, but the record is changed.
    let mut proc = ProcKernelInfo::new("p", EPROCESS::from_bytes(&record), 0, 0x1000);
    let stores = vm.set_process_security(&mut proc, PsProtectedType::ProtectedLight, PsProtectedSigner::Lsa);
    assert_eq!(stores, vec![]);
    assert_eq!(proc.eprocess.Protection.value, [0x41]);
    let mut proc = ProcKernelInfo::new("p", EPROCESS::from_bytes(&record), 0, u64::MAX);
    let stores = vm.set_process_security(&mut proc, PsProtectedType::ProtectedLight, PsProtectedSigner::Lsa);
    assert_eq!(stores, vec![]);
    assert_eq!(proc.eprocess.Protection.value, [0x41]);
    assert_eq!(proc.name, "p");
    assert_eq!(proc.eprocessPhysAddr, u64::MAX);
}

#[test]
fn environment_flags_are_read_bit_by_bit() {
    let f = PEBBitfield(0b1000_0101);
    assert_eq!(f.as_bitstr(), "10100001");
    let r = f.interpret().unwrap();
    assert!(r.ImageUsesLargePages);
    assert!(!r.IsProtectedProcess);
    assert!(r.IsLegacyProcess);
    assert!(!r.IsImageDynamicallyRelocated);
    assert!(!r.SkipPatchingUser32Forwarders);
    assert!(!r.SpareBit0);
    assert!(!r.SpareBit1);
    assert!(r.SpareBit2);
    assert_eq!(PEBBitfield(0).as_bitstr(), "00000000");
    assert_eq!(PEBBitfield(0xff).as_bitstr(), "11111111");
    assert_eq!(PEBBitfield(1).as_bitstr(), "10000000");
}

#[test]
fn thread_flags_are_read_bit_by_bit() {
    let f = TebFlagsBitfield { value: [0b0000_0101, 0b1000_0010] };
    assert_eq!(f.SafeThunkCall(), 1);
    assert_eq!(f.InDebugPrint(), 0);
    assert_eq!(f.HasFiberData(), 1);
    assert_eq!(f.SkipThreadAttach(), 0);
    assert_eq!(f.WerInShipAssertCode(), 0);
    assert_eq!(f.RanProcessInit(), 0);
    assert_eq!(f.ClonedThread(), 0);
    assert_eq!(f.SuppressDebugMsg(), 0);
    assert_eq!(f.DisableUserStackWalk(), 0);
    assert_eq!(f.RtlExceptionAttached(), 1);
    assert_eq!(f.InitialThread(), 0);
    assert_eq!(f.SessionAware(), 0);
    assert_eq!(f.LoadOwner(), 0);
    assert_eq!(f.LoaderWorker(), 0);
    assert_eq!(f.SkipLoaderInit(), 0);
    assert_eq!(f.SpareSameTebBits(), 1);
}

#[test]
fn heap_entry_is_read_in_two_ways() {
    let b: Vec<u8> = (0x10u8..0x20).collect();
    let e = HEAP_ENTRY::from_bytes(&b);
    assert_eq!(e.PreviousBlockPrivateData, 0x1716_1514_1312_1110);
    assert_eq!(e.CompactHeader, 0x1f1e_1d1c_1b1a_1918);
    let u = e.unpacked();
    assert_eq!(u.PreviousBlockPrivateData, 0x1716_1514_1312_1110);
    assert_eq!(u.Size, 0x1918);
    assert_eq!(u.Flags, 0x1a);
    assert_eq!(u.SmallTagIndex, 0x1b);
    assert_eq!(u.SubSegmentCode, 0x1b1a_1918);
    assert_eq!(u.PreviousSize, 0x1d1c);
    assert_eq!(u.SegmentOffset, 0x1e);
    assert_eq!(u.UnusedBytes, 0x1f);
    assert_eq!(u.CompactHeader, 0x1f1e_1d1c_1b1a_1918);
    let x = e.extended();
    assert_eq!(x.Reserved, 0x1716_1514_1312_1110);
    assert_eq!(x.FunctionIndex, 0x1918);
    assert_eq!(x.ContextValue, 0x1b1a);
    assert_eq!(x.InterceptorValue, 0x1b1a_1918);
    assert_eq!(x.UnusedBytesLength, 0x1d1c);
    assert_eq!(x.EntryOffset, 0x1e);
    assert_eq!(x.ExtendedBlockSignature, 0x1f);
    let p = e.into_proc_heap_entry();
    assert_eq!((p.lpData, p.cbData, p.cbOverhead, p.iRegionIndex, p.wFlags), (0, 0, 0, 0, 0));
    assert_eq!((p.Block.hMem, p.Block.dwReserved), (0, [0, 0, 0]));
    assert_eq!(p.Region.lpFirstBlock, 0);
}

#[test]
fn heap_walk_entry_is_a_block_or_a_region() {
    let mut b = vec![0u8; 40];
    put_u64(&mut b, 0, 0x1000);
    put_u32(&mut b, 8, 0x20);
    b[12] = 0x10;
    b[13] = 0xff;
    put_u16(&mut b, 14, 0x0004 | 0x0010);
    put_u32(&mut b, 16, 0xabcd);
    put_u32(&mut b, 20, 0x1234);
    put_u64(&mut b, 24, 0x5000);
    put_u64(&mut b, 32, 0x6000);
    let e = ProcessHeapEntry::from_bytes(&b);
    assert_eq!((e.lpData, e.cbData, e.cbOverhead, e.iRegionIndex, e.wFlags), (0x1000, 0x20, 0x10, -1, 0x14));
    assert_eq!(e.Block.hMem, 0xabcd);
    assert_eq!(e.Block.dwReserved, [0x1234, 0x5000, 0]);
    assert_eq!(e.Region.dwCommittedSize, 0xabcd);
    assert_eq!(e.Region.dwUnCommittedSize, 0x1234);
    assert_eq!(e.Region.lpFirstBlock, 0x5000);
    assert_eq!(e.Region.lpLastBlock, 0x6000);
    assert!(e.has(HeapProperty::ProcessHeapEntryBusy));
    assert!(e.has(HeapProperty::ProcessHeapEntryMoveable));
    assert!(!e.has(HeapProperty::ProcessHeapEntryDdeshare));
    assert_eq!(e.kind(), HeapEntryKind::AllocatedBlock);
    for (flags, kind) in [
        (0x0001u16, HeapEntryKind::Region),
        (0x0002, HeapEntryKind::UncommittedRange),
        (0x0003, HeapEntryKind::Region),
        (0x0005, HeapEntryKind::AllocatedBlock),
        (0x0000, HeapEntryKind::Block),
        (0x0030, HeapEntryKind::Block),
    ] {
        put_u16(&mut b, 14, flags);
        assert_eq!(ProcessHeapEntry::from_bytes(&b).kind(), kind);
    }
    assert_eq!(HeapProperty::ProcessHeapEntryBusy.mask(), 0x0004);
    assert_eq!(HeapProperty::ProcessHeapEntryDdeshare.mask(), 0x0020);
    assert_eq!(HeapProperty::ProcessHeapEntryMoveable.mask(), 0x0010);
    assert_eq!(HeapProperty::ProcessHeapRegion.mask(), 0x0001);
    assert_eq!(HeapProperty::ProcessHeapUncommittedRange.mask(), 0x0002);
}

#[test]
fn unicode_string_is_resolved_from_memory() {
    let mut mem = vec![0u8; 0x200];
    let text: Vec<u16> = "Naïve \u{1F600}".encode_utf16().collect();
    for (i, u) in text.iter().enumerate() {
        put_u16(&mut mem, 0x100 + 2 * i, *u);
    }
    // A surrogate without its partner.
    put_u16(&mut mem, 0x180, 0xd800);
    put_u16(&mut mem, 0x182, 0x41);
    let vm = bind(mem);
    let s = UnicodeString { length: 2 * text.len() as u16, maximum_length: 0x40, buffer: 0x100 };
    assert!(!s.looks_invalid());
    assert_eq!(s.resolve(&vm, None, None), Some("Naïve \u{1F600}".to_string()));
    assert_eq!(s.resolve(&vm, None, Some(255)), Some("Naïve \u{1F600}".to_string()));
    assert_eq!(s.resolve(&vm, None, Some(4)), Some("Na".to_string()));
    assert_eq!(s.resolve(&vm, None, Some(5)), Some("Na".to_string()));
    assert_eq!(s.resolve(&vm, None, Some(0)), Some(String::new()));
    let broken = UnicodeString { length: 4, maximum_length: 4, buffer: 0x180 };
    assert_eq!(broken.resolve(&vm, None, None), Some("\u{fffd}A".to_string()));
    // What is not in the window reads as zeros.
    let outside = UnicodeString { length: 4, maximum_length: 4, buffer: 0x1ff };
    assert_eq!(outside.resolve(&vm, None, None), Some("\0\0".to_string()));
    // Without page tables nothing is mapped.
    assert_eq!(s.resolve(&vm, Some(0x1000), Some(4)), Some("\0\0".to_string()));
}

#[test]
fn unicode_string_that_looks_invalid_is_not_read() {
    let vm = bind(vec![0x41u8; 0x100]);
    let s = UnicodeString { length: 0xffff, maximum_length: 0, buffer: u64::MAX };
    assert!(s.looks_invalid());
    assert_eq!(s.resolve(&vm, None, None), Some("<UNABLE_TO_READ_LOOKS_INVALID>".to_string()));
    assert_eq!(s.resolve(&vm, Some(0), Some(2)), Some("<UNABLE_TO_READ_LOOKS_INVALID>".to_string()));
    assert!(!UnicodeString { length: 0xffff, maximum_length: 0, buffer: 0x10 }.looks_invalid());
    assert!(!UnicodeString { length: 0xfffe, maximum_length: 0, buffer: u64::MAX }.looks_invalid());
}

#[test]
fn list_entries_lead_to_the_record_around_the_link() {
    let mut mem = vec![0u8; 0x400];
    put_u64(&mut mem, 0x110, 0xaaaa);
    put_u64(&mut mem, 0x118, 0xbbbb);
    put_u64(&mut mem, 0x210, 0xcccc);
    let vm = bind(mem);
    let link = ListEntry { flink: 0x120, blink: 0x220 };
    let next: Option<ListEntry> = link.get_next_with_dirbase(&vm, None, 0x10);
    assert_eq!(next.map(|l| (l.flink, l.blink)), Some((0xaaaa, 0xbbbb)));
    let prev: Option<ListEntry> = link.get_previous_with_dirbase(&vm, None, 0x10);
    assert_eq!(prev.map(|l| l.flink), Some(0xcccc));
    let next: Option<u64> = link.get_next_with_dirbase(&vm, None, 8);
    assert_eq!(next, Some(0xbbbb));
    // Without page tables the record is read at the miss, physical address 0.
    let next: Option<u64> = link.get_next_with_dirbase(&vm, Some(0x300), 0x10);
    assert_eq!(next, Some(0));
    let next: Option<u64> = link.get_next_from_kernel_initial_process(&vm, 0x10);
    assert_eq!(next, Some(0));
    let end = ListEntry { flink: 0, blink: 0 };
    assert_eq!(end.get_next_with_dirbase::<u64>(&vm, None, 0), None);
    assert_eq!(end.get_previous_with_dirbase::<u64>(&vm, None, 0), None);
    assert_eq!(end.get_previous_from_kernel_initial_process::<u64>(&vm, 0), None);
    let single = SingleListEntry { next: 0x118 };
    assert_eq!(single.get_next_with_dirbase::<u64>(&vm, None, 8), Some(0xaaaa));
    assert_eq!(single.get_next_with_dirbase::<u64>(&vm, Some(0x300), 8), Some(0));
    assert_eq!(single.get_next_from_kernel_initial_process::<u64>(&vm, 8), Some(0));
    assert_eq!(SingleListEntry { next: 0 }.get_next_with_dirbase::<u64>(&vm, None, 8), None);
    // The start of the record wraps around the address space.
    let low = ListEntry { flink: 0x8, blink: 0 };
    assert_eq!(low.get_next_with_dirbase::<u64>(&vm, None, 0x10), Some(0));
}

#[test]
fn process_info_keeps_what_it_is_given() {
    let mut record = vec![0u8; 0x850];
    put_u64(&mut record, 0x2e0, 42);
    let info = ProcKernelInfo::new("svchost.exe", EPROCESS::from_bytes(&record), 0xffff_8000_1234_0000, 0x1234_0000);
    assert_eq!(info.name, "svchost.exe");
    assert_eq!(info.eprocess.UniqueProcessId, 42);
    assert_eq!(info.eprocessVirtAddr, 0xffff_8000_1234_0000);
    assert_eq!(info.eprocessPhysAddr, 0x1234_0000);
}

#[test]
fn module_is_found_by_an_address_in_it() {
    let module = |base: u64, size: u64, name: &str| WinModule {
        base_address: base,
        entry_point: base + 0x10,
        size_of_module: size,
        name: name.to_string(),
        load_count: 1,
    };
    let modules = vec![
        module(0x1000, 0x1000, "a.dll"),
        module(0x4000, 0x2000, "b.dll"),
        module(0x4800, 0x100, "c.dll"),
        module(u64::MAX - 0x10, 0x100, "d.dll"),
    ];
    assert_eq!(VMBinding::find_module_from_addr(&modules, 0x1000), Some(0));
    assert_eq!(VMBinding::find_module_from_addr(&modules, 0x1fff), Some(0));
    // The address behind the last byte counts as in the module.
    assert_eq!(VMBinding::find_module_from_addr(&modules, 0x2000), Some(0));
    assert_eq!(VMBinding::find_module_from_addr(&modules, 0x2001), None);
    assert_eq!(VMBinding::find_module_from_addr(&modules, 0xfff), None);
    // Of two modules that hold the address the first is found.
    assert_eq!(VMBinding::find_module_from_addr(&modules, 0x4850), Some(1));
    assert_eq!(VMBinding::find_module_from_addr(&modules, u64::MAX), Some(3));
    assert_eq!(VMBinding::find_module_from_addr(&Vec::new(), 0), None);
}

#[test]
fn module_is_described_by_its_loader_record() {
    let mut b = vec![0u8; 0x88];
    put_u64(&mut b, 0x30, 0x7ff6_0000_0000);
    put_u64(&mut b, 0x38, 0x7ff6_0000_1234);
    put_u32(&mut b, 0x40, 0x5000);
    put_u16(&mut b, 0x6c, 0xffff);
    let ldr = LdrModule::from_bytes(&b);
    assert_eq!(ldr.LoadCount, -1);
    let m = VMBinding::describe_module("explorer.exe", &ldr);
    assert_eq!(m.base_address, 0x7ff6_0000_0000);
    assert_eq!(m.entry_point, 0x7ff6_0000_1234);
    assert_eq!(m.size_of_module, 0x5000);
    assert_eq!(m.name, "explorer.exe");
    assert_eq!(m.load_count, 0xffff);
}

#[test]
fn protection_of_a_known_kind_keeps_the_audit_flag_alone() {
    let types = [PsProtectedType::Unprotected, PsProtectedType::ProtectedLight, PsProtectedType::Protected];
    let signers = [
        PsProtectedSigner::Unsigned,
        PsProtectedSigner::Authenticode,
        PsProtectedSigner::CodeGen,
        PsProtectedSigner::Antimalware,
        PsProtectedSigner::Lsa,
        PsProtectedSigner::Windows,
        PsProtectedSigner::WinTcb,
        PsProtectedSigner::WinSystem,
        PsProtectedSigner::App,
    ];
    let mut vm = bind(vec![0u8; 0x1000]);
    for before in [0x00u8, 0x08, 0x62, 0x6a, 0xff, 0xf7, 0x93, 0x9b] {
        for t in types {
            for s in signers {
                let mut record = vec![0u8; 0x850];
                record[0x6ca] = before;
                let mut proc = ProcKernelInfo::new("p", EPROCESS::from_bytes(&record), 0, 0x100);
                vm.set_process_security(&mut proc, t, s);
                let expected = (before & 0x08) | t.to_u8() | (s.to_u8() << 4);
                assert_eq!(proc.eprocess.Protection.value, [expected]);
                assert_eq!(vm.read::<u8>(0x100 + 0x6ca), expected);
            }
        }
    }
}

#[test]
fn text_of_a_padded_field_ends_before_its_first_zero_byte() {
    assert_eq!(padded_string(b"System\0\0\0\0\0\0\0\0\0"), "System");
    assert_eq!(padded_string(b"fifteen_letters"), "fifteen_letters");
    assert_eq!(padded_string(b"a\0b\0"), "a");
    assert_eq!(padded_string(b"\0abc"), "");
    assert_eq!(padded_string(b""), "");
    assert_eq!(padded_string(&[0xe9, 0x41, 0x00, 0x42]), "\u{e9}A");
    assert_eq!(latin1_string(&[0x41, 0x00, 0xff]), "A\0\u{ff}");
}
