//! The headers and tables of a portable executable image.

use crate::bytes::{
    decoded, get_u16, get_u16s, get_u32, get_u64, get_u8, get_u8s, u16_at, u16s_at, u32_at,
    u64_at, Pod,
};
use crate::text::{latin1, latin1_string};
use crate::vm::VMBinding;
use vstd::prelude::*;
use vstd::slice::slice_subrange;

verus! {

/// The first two bytes of every image: "MZ".
pub const IMAGE_DOS_SIGNATURE: u16 = 0x5A4D;

/// The first four bytes of the image headers: "PE" and two zero bytes.
pub const IMAGE_NT_HEADERS_SIGNATURE: u32 = 0x0000_4550;

/// The magic number of the optional header of a 64-bit image.
pub const IMAGE_NT_OPTIONAL_HDR64_MAGIC: u16 = 0x20B;

/// The magic number of the optional header of a 32-bit image.
pub const IMAGE_NT_OPTIONAL_HDR32_MAGIC: u16 = 0x10B;

/// One base relocation: two bytes that hold the kind of the relocation in
/// bits 0 to 3 and its offset in the page in bits 4 to 15.
#[derive(Copy, Clone, Debug)]
pub struct TypeOffset {
    pub value: [u8; 2],
}

impl TypeOffset {
    /// The kind of the relocation.
    pub open spec fn spec_type(&self) -> u16 {
        (self.value@[0] & 0x0F) as u16
    }

    /// The offset of the relocation in its page.
    pub open spec fn spec_offset(&self) -> u16 {
        ((self.value@[0] >> 4) as u16) | ((self.value@[1] as u16) << 4)
    }

    /// The kind of the relocation.
    #[allow(non_snake_case)]
    pub fn Type(&self) -> (r: u16)
        ensures
            r == self.spec_type(),
    {
        (self.value[0] & 0x0F) as u16
    }

    /// The offset of the relocation in its page.
    #[allow(non_snake_case)]
    pub fn Offset(&self) -> (r: u16)
        ensures
            r == self.spec_offset(),
    {
        ((self.value[0] >> 4) as u16) | ((self.value[1] as u16) << 4)
    }
}

impl Pod for TypeOffset {
    open spec fn size_of() -> nat {
        2
    }

    open spec fn decodes(b: Seq<u8>, v: Self) -> bool {
        v.value@ == b.subrange(0, 2)
    }

    proof fn lemma_decodes_unique(b: Seq<u8>, v: Self, w: Self) {
        assert(v.value =~= w.value);
    }

    fn size() -> (n: usize) {
        2
    }

    fn from_bytes(b: &[u8]) -> (v: Self) {
        let v = TypeOffset { value: [get_u8(b, 0), get_u8(b, 1)] };
        assert(v.value@ =~= b@.subrange(0, 2));
        v
    }
}

/// The header that every image starts with.
#[derive(Clone, Copy, Debug)]
pub struct ImageDosHeader {
    /// Offset 0.
    pub e_magic: u16,
    /// Offset 2.
    pub e_cblp: u16,
    /// Offset 4.
    pub e_cp: u16,
    /// Offset 6.
    pub e_crlc: u16,
    /// Offset 8.
    pub e_cparhdr: u16,
    /// Offset 0xa.
    pub e_minalloc: u16,
    /// Offset 0xc.
    pub e_maxalloc: u16,
    /// Offset 0xe.
    pub e_ss: u16,
    /// Offset 0x10.
    pub e_sp: u16,
    /// Offset 0x12.
    pub e_csum: u16,
    /// Offset 0x14.
    pub e_ip: u16,
    /// Offset 0x16.
    pub e_cs: u16,
    /// Offset 0x18.
    pub e_lfarlc: u16,
    /// Offset 0x1a.
    pub e_ovno: u16,
    /// Offset 0x1c.
    pub e_res: [u16; 4],
    /// Offset 0x24.
    pub e_oemid: u16,
    /// Offset 0x26.
    pub e_oeminfo: u16,
    /// Offset 0x28.
    pub e_res2: [u16; 10],
    /// Offset 0x3c.
    pub e_lfanew: u32,
}

impl Pod for ImageDosHeader {
    open spec fn size_of() -> nat {
        0x40
    }

    open spec fn decodes(b: Seq<u8>, v: Self) -> bool {
        &&& v.e_magic == u16_at(b, 0)
        &&& v.e_cblp == u16_at(b, 2)
        &&& v.e_cp == u16_at(b, 4)
        &&& v.e_crlc == u16_at(b, 6)
        &&& v.e_cparhdr == u16_at(b, 8)
        &&& v.e_minalloc == u16_at(b, 0xa)
        &&& v.e_maxalloc == u16_at(b, 0xc)
        &&& v.e_ss == u16_at(b, 0xe)
        &&& v.e_sp == u16_at(b, 0x10)
        &&& v.e_csum == u16_at(b, 0x12)
        &&& v.e_ip == u16_at(b, 0x14)
        &&& v.e_cs == u16_at(b, 0x16)
        &&& v.e_lfarlc == u16_at(b, 0x18)
        &&& v.e_ovno == u16_at(b, 0x1a)
        &&& v.e_res@ == u16s_at(b, 0x1c, 4)
        &&& v.e_oemid == u16_at(b, 0x24)
        &&& v.e_oeminfo == u16_at(b, 0x26)
        &&& v.e_res2@ == u16s_at(b, 0x28, 10)
        &&& v.e_lfanew == u32_at(b, 0x3c)
    }

    proof fn lemma_decodes_unique(b: Seq<u8>, v: Self, w: Self) {
        assert(v.e_res =~= w.e_res);
        assert(v.e_res2 =~= w.e_res2);
    }

    fn size() -> (n: usize) {
        0x40
    }

    fn from_bytes(b: &[u8]) -> (v: Self) {
        ImageDosHeader {
            e_magic: get_u16(b, 0),
            e_cblp: get_u16(b, 2),
            e_cp: get_u16(b, 4),
            e_crlc: get_u16(b, 6),
            e_cparhdr: get_u16(b, 8),
            e_minalloc: get_u16(b, 0xa),
            e_maxalloc: get_u16(b, 0xc),
            e_ss: get_u16(b, 0xe),
            e_sp: get_u16(b, 0x10),
            e_csum: get_u16(b, 0x12),
            e_ip: get_u16(b, 0x14),
            e_cs: get_u16(b, 0x16),
            e_lfarlc: get_u16(b, 0x18),
            e_ovno: get_u16(b, 0x1a),
            e_res: get_u16s(b, 0x1c),
            e_oemid: get_u16(b, 0x24),
            e_oeminfo: get_u16(b, 0x26),
            e_res2: get_u16s(b, 0x28),
            e_lfanew: get_u32(b, 0x3c),
        }
    }
}

/// The file header of an image.
#[allow(non_snake_case)]
#[derive(Clone, Copy, Debug)]
pub struct ImageFileHeader {
    /// Offset 0.
    pub Machine: u16,
    /// Offset 2.
    pub NumberOfSections: u16,
    /// Offset 4.
    pub TimeDateStamp: u32,
    /// Offset 8.
    pub PointerToSymbolTable: u32,
    /// Offset 0xc.
    pub NumberOfSymbols: u32,
    /// Offset 0x10.
    pub SizeOfOptionalHeader: u16,
    /// Offset 0x12.
    pub Characteristics: u16,
}

impl Pod for ImageFileHeader {
    open spec fn size_of() -> nat {
        0x14
    }

    open spec fn decodes(b: Seq<u8>, v: Self) -> bool {
        &&& v.Machine == u16_at(b, 0)
        &&& v.NumberOfSections == u16_at(b, 2)
        &&& v.TimeDateStamp == u32_at(b, 4)
        &&& v.PointerToSymbolTable == u32_at(b, 8)
        &&& v.NumberOfSymbols == u32_at(b, 0xc)
        &&& v.SizeOfOptionalHeader == u16_at(b, 0x10)
        &&& v.Characteristics == u16_at(b, 0x12)
    }

    proof fn lemma_decodes_unique(b: Seq<u8>, v: Self, w: Self) {
    }

    fn size() -> (n: usize) {
        0x14
    }

    fn from_bytes(b: &[u8]) -> (v: Self) {
        ImageFileHeader {
            Machine: get_u16(b, 0),
            NumberOfSections: get_u16(b, 2),
            TimeDateStamp: get_u32(b, 4),
            PointerToSymbolTable: get_u32(b, 8),
            NumberOfSymbols: get_u32(b, 0xc),
            SizeOfOptionalHeader: get_u16(b, 0x10),
            Characteristics: get_u16(b, 0x12),
        }
    }
}

/// Where one of the tables of an image lies, relative to the image base.
#[allow(non_snake_case)]
#[derive(Clone, Copy, Debug)]
pub struct ImageDataDirectory {
    /// Offset 0.
    pub VirtualAddress: u32,
    /// Offset 4.
    pub Size: u32,
}

impl Pod for ImageDataDirectory {
    open spec fn size_of() -> nat {
        8
    }

    open spec fn decodes(b: Seq<u8>, v: Self) -> bool {
        &&& v.VirtualAddress == u32_at(b, 0)
        &&& v.Size == u32_at(b, 4)
    }

    proof fn lemma_decodes_unique(b: Seq<u8>, v: Self, w: Self) {
    }

    fn size() -> (n: usize) {
        8
    }

    fn from_bytes(b: &[u8]) -> (v: Self) {
        ImageDataDirectory {
            VirtualAddress: get_u32(b, 0),
            Size: get_u32(b, 4),
        }
    }
}

/// The optional header of a 64-bit image.
#[allow(non_snake_case)]
#[derive(Clone, Copy, Debug)]
pub struct ImageOptionalHeader64 {
    /// Offset 0.
    pub Magic: u16,
    /// Offset 2.
    pub MajorLinkerVersion: u8,
    /// Offset 3.
    pub MinorLinkerVersion: u8,
    /// Offset 4.
    pub SizeOfCode: u32,
    /// Offset 8.
    pub SizeOfInitializedData: u32,
    /// Offset 0xc.
    pub SizeOfUninitializedData: u32,
    /// Offset 0x10.
    pub AddressOfEntryPoint: u32,
    /// Offset 0x14.
    pub BaseOfCode: u32,
    /// Offset 0x18.
    pub ImageBase: u64,
    /// Offset 0x20.
    pub SectionAlignment: u32,
    /// Offset 0x24.
    pub FileAlignment: u32,
    /// Offset 0x28.
    pub MajorOperatingSystemVersion: u16,
    /// Offset 0x2a.
    pub MinorOperatingSystemVersion: u16,
    /// Offset 0x2c.
    pub MajorImageVersion: u16,
    /// Offset 0x2e.
    pub MinorImageVersion: u16,
    /// Offset 0x30.
    pub MajorSubsystemVersion: u16,
    /// Offset 0x32.
    pub MinorSubsystemVersion: u16,
    /// Offset 0x34.
    pub Win32VersionValue: u32,
    /// Offset 0x38.
    pub SizeOfImage: u32,
    /// Offset 0x3c.
    pub SizeOfHeaders: u32,
    /// Offset 0x40.
    pub CheckSum: u32,
    /// Offset 0x44.
    pub Subsystem: u16,
    /// Offset 0x46.
    pub DllCharacteristics: u16,
    /// Offset 0x48.
    pub SizeOfStackReserve: u64,
    /// Offset 0x50.
    pub SizeOfStackCommit: u64,
    /// Offset 0x58.
    pub SizeOfHeapReserve: u64,
    /// Offset 0x60.
    pub SizeOfHeapCommit: u64,
    /// Offset 0x68.
    pub LoaderFlags: u32,
    /// Offset 0x6c.
    pub NumberOfRvaAndSizes: u32,
    /// Offset 0x70.
    pub DataDirectory: [ImageDataDirectory; 16],
}

impl Pod for ImageOptionalHeader64 {
    open spec fn size_of() -> nat {
        0xf0
    }

    open spec fn decodes(b: Seq<u8>, v: Self) -> bool {
        &&& v.Magic == u16_at(b, 0)
        &&& v.MajorLinkerVersion == b[2]
        &&& v.MinorLinkerVersion == b[3]
        &&& v.SizeOfCode == u32_at(b, 4)
        &&& v.SizeOfInitializedData == u32_at(b, 8)
        &&& v.SizeOfUninitializedData == u32_at(b, 0xc)
        &&& v.AddressOfEntryPoint == u32_at(b, 0x10)
        &&& v.BaseOfCode == u32_at(b, 0x14)
        &&& v.ImageBase == u64_at(b, 0x18)
        &&& v.SectionAlignment == u32_at(b, 0x20)
        &&& v.FileAlignment == u32_at(b, 0x24)
        &&& v.MajorOperatingSystemVersion == u16_at(b, 0x28)
        &&& v.MinorOperatingSystemVersion == u16_at(b, 0x2a)
        &&& v.MajorImageVersion == u16_at(b, 0x2c)
        &&& v.MinorImageVersion == u16_at(b, 0x2e)
        &&& v.MajorSubsystemVersion == u16_at(b, 0x30)
        &&& v.MinorSubsystemVersion == u16_at(b, 0x32)
        &&& v.Win32VersionValue == u32_at(b, 0x34)
        &&& v.SizeOfImage == u32_at(b, 0x38)
        &&& v.SizeOfHeaders == u32_at(b, 0x3c)
        &&& v.CheckSum == u32_at(b, 0x40)
        &&& v.Subsystem == u16_at(b, 0x44)
        &&& v.DllCharacteristics == u16_at(b, 0x46)
        &&& v.SizeOfStackReserve == u64_at(b, 0x48)
        &&& v.SizeOfStackCommit == u64_at(b, 0x50)
        &&& v.SizeOfHeapReserve == u64_at(b, 0x58)
        &&& v.SizeOfHeapCommit == u64_at(b, 0x60)
        &&& v.LoaderFlags == u32_at(b, 0x68)
        &&& v.NumberOfRvaAndSizes == u32_at(b, 0x6c)
        &&& ImageDataDirectory::decodes(b.skip(0x70), v.DataDirectory@[0])
        &&& ImageDataDirectory::decodes(b.skip(0x78), v.DataDirectory@[1])
        &&& ImageDataDirectory::decodes(b.skip(0x80), v.DataDirectory@[2])
        &&& ImageDataDirectory::decodes(b.skip(0x88), v.DataDirectory@[3])
        &&& ImageDataDirectory::decodes(b.skip(0x90), v.DataDirectory@[4])
        &&& ImageDataDirectory::decodes(b.skip(0x98), v.DataDirectory@[5])
        &&& ImageDataDirectory::decodes(b.skip(0xa0), v.DataDirectory@[6])
        &&& ImageDataDirectory::decodes(b.skip(0xa8), v.DataDirectory@[7])
        &&& ImageDataDirectory::decodes(b.skip(0xb0), v.DataDirectory@[8])
        &&& ImageDataDirectory::decodes(b.skip(0xb8), v.DataDirectory@[9])
        &&& ImageDataDirectory::decodes(b.skip(0xc0), v.DataDirectory@[10])
        &&& ImageDataDirectory::decodes(b.skip(0xc8), v.DataDirectory@[11])
        &&& ImageDataDirectory::decodes(b.skip(0xd0), v.DataDirectory@[12])
        &&& ImageDataDirectory::decodes(b.skip(0xd8), v.DataDirectory@[13])
        &&& ImageDataDirectory::decodes(b.skip(0xe0), v.DataDirectory@[14])
        &&& ImageDataDirectory::decodes(b.skip(0xe8), v.DataDirectory@[15])
    }

    proof fn lemma_decodes_unique(b: Seq<u8>, v: Self, w: Self) {
        ImageDataDirectory::lemma_decodes_unique(b.skip(0x70), v.DataDirectory@[0], w.DataDirectory@[0]);
        ImageDataDirectory::lemma_decodes_unique(b.skip(0x78), v.DataDirectory@[1], w.DataDirectory@[1]);
        ImageDataDirectory::lemma_decodes_unique(b.skip(0x80), v.DataDirectory@[2], w.DataDirectory@[2]);
        ImageDataDirectory::lemma_decodes_unique(b.skip(0x88), v.DataDirectory@[3], w.DataDirectory@[3]);
        ImageDataDirectory::lemma_decodes_unique(b.skip(0x90), v.DataDirectory@[4], w.DataDirectory@[4]);
        ImageDataDirectory::lemma_decodes_unique(b.skip(0x98), v.DataDirectory@[5], w.DataDirectory@[5]);
        ImageDataDirectory::lemma_decodes_unique(b.skip(0xa0), v.DataDirectory@[6], w.DataDirectory@[6]);
        ImageDataDirectory::lemma_decodes_unique(b.skip(0xa8), v.DataDirectory@[7], w.DataDirectory@[7]);
        ImageDataDirectory::lemma_decodes_unique(b.skip(0xb0), v.DataDirectory@[8], w.DataDirectory@[8]);
        ImageDataDirectory::lemma_decodes_unique(b.skip(0xb8), v.DataDirectory@[9], w.DataDirectory@[9]);
        ImageDataDirectory::lemma_decodes_unique(b.skip(0xc0), v.DataDirectory@[10], w.DataDirectory@[10]);
        ImageDataDirectory::lemma_decodes_unique(b.skip(0xc8), v.DataDirectory@[11], w.DataDirectory@[11]);
        ImageDataDirectory::lemma_decodes_unique(b.skip(0xd0), v.DataDirectory@[12], w.DataDirectory@[12]);
        ImageDataDirectory::lemma_decodes_unique(b.skip(0xd8), v.DataDirectory@[13], w.DataDirectory@[13]);
        ImageDataDirectory::lemma_decodes_unique(b.skip(0xe0), v.DataDirectory@[14], w.DataDirectory@[14]);
        ImageDataDirectory::lemma_decodes_unique(b.skip(0xe8), v.DataDirectory@[15], w.DataDirectory@[15]);
        assert(v.DataDirectory =~= w.DataDirectory);
    }

    fn size() -> (n: usize) {
        0xf0
    }

    fn from_bytes(b: &[u8]) -> (v: Self) {
        ImageOptionalHeader64 {
            Magic: get_u16(b, 0),
            MajorLinkerVersion: get_u8(b, 2),
            MinorLinkerVersion: get_u8(b, 3),
            SizeOfCode: get_u32(b, 4),
            SizeOfInitializedData: get_u32(b, 8),
            SizeOfUninitializedData: get_u32(b, 0xc),
            AddressOfEntryPoint: get_u32(b, 0x10),
            BaseOfCode: get_u32(b, 0x14),
            ImageBase: get_u64(b, 0x18),
            SectionAlignment: get_u32(b, 0x20),
            FileAlignment: get_u32(b, 0x24),
            MajorOperatingSystemVersion: get_u16(b, 0x28),
            MinorOperatingSystemVersion: get_u16(b, 0x2a),
            MajorImageVersion: get_u16(b, 0x2c),
            MinorImageVersion: get_u16(b, 0x2e),
            MajorSubsystemVersion: get_u16(b, 0x30),
            MinorSubsystemVersion: get_u16(b, 0x32),
            Win32VersionValue: get_u32(b, 0x34),
            SizeOfImage: get_u32(b, 0x38),
            SizeOfHeaders: get_u32(b, 0x3c),
            CheckSum: get_u32(b, 0x40),
            Subsystem: get_u16(b, 0x44),
            DllCharacteristics: get_u16(b, 0x46),
            SizeOfStackReserve: get_u64(b, 0x48),
            SizeOfStackCommit: get_u64(b, 0x50),
            SizeOfHeapReserve: get_u64(b, 0x58),
            SizeOfHeapCommit: get_u64(b, 0x60),
            LoaderFlags: get_u32(b, 0x68),
            NumberOfRvaAndSizes: get_u32(b, 0x6c),
            DataDirectory: [
                ImageDataDirectory::from_bytes(slice_subrange(b, 0x70, b.len())),
                ImageDataDirectory::from_bytes(slice_subrange(b, 0x78, b.len())),
                ImageDataDirectory::from_bytes(slice_subrange(b, 0x80, b.len())),
                ImageDataDirectory::from_bytes(slice_subrange(b, 0x88, b.len())),
                ImageDataDirectory::from_bytes(slice_subrange(b, 0x90, b.len())),
                ImageDataDirectory::from_bytes(slice_subrange(b, 0x98, b.len())),
                ImageDataDirectory::from_bytes(slice_subrange(b, 0xa0, b.len())),
                ImageDataDirectory::from_bytes(slice_subrange(b, 0xa8, b.len())),
                ImageDataDirectory::from_bytes(slice_subrange(b, 0xb0, b.len())),
                ImageDataDirectory::from_bytes(slice_subrange(b, 0xb8, b.len())),
                ImageDataDirectory::from_bytes(slice_subrange(b, 0xc0, b.len())),
                ImageDataDirectory::from_bytes(slice_subrange(b, 0xc8, b.len())),
                ImageDataDirectory::from_bytes(slice_subrange(b, 0xd0, b.len())),
                ImageDataDirectory::from_bytes(slice_subrange(b, 0xd8, b.len())),
                ImageDataDirectory::from_bytes(slice_subrange(b, 0xe0, b.len())),
                ImageDataDirectory::from_bytes(slice_subrange(b, 0xe8, b.len())),
            ],
        }
    }
}

/// The optional header of a 32-bit image.
#[allow(non_snake_case)]
#[derive(Clone, Copy, Debug)]
pub struct ImageOptionalHeader32 {
    /// Offset 0.
    pub Magic: u16,
    /// Offset 2.
    pub MajorLinkerVersion: u8,
    /// Offset 3.
    pub MinorLinkerVersion: u8,
    /// Offset 4.
    pub SizeOfCode: u32,
    /// Offset 8.
    pub SizeOfInitializedData: u32,
    /// Offset 0xc.
    pub SizeOfUninitializedData: u32,
    /// Offset 0x10.
    pub AddressOfEntryPoint: u32,
    /// Offset 0x14.
    pub BaseOfCode: u32,
    /// Offset 0x18.
    pub BaseOfData: u32,
    /// Offset 0x1c.
    pub ImageBase: u32,
    /// Offset 0x20.
    pub SectionAlignment: u32,
    /// Offset 0x24.
    pub FileAlignment: u32,
    /// Offset 0x28.
    pub MajorOperatingSystemVersion: u16,
    /// Offset 0x2a.
    pub MinorOperatingSystemVersion: u16,
    /// Offset 0x2c.
    pub MajorImageVersion: u16,
    /// Offset 0x2e.
    pub MinorImageVersion: u16,
    /// Offset 0x30.
    pub MajorSubsystemVersion: u16,
    /// Offset 0x32.
    pub MinorSubsystemVersion: u16,
    /// Offset 0x34.
    pub Win32VersionValue: u32,
    /// Offset 0x38.
    pub SizeOfImage: u32,
    /// Offset 0x3c.
    pub SizeOfHeaders: u32,
    /// Offset 0x40.
    pub CheckSum: u32,
    /// Offset 0x44.
    pub Subsystem: u16,
    /// Offset 0x46.
    pub DllCharacteristics: u16,
    /// Offset 0x48.
    pub SizeOfStackReserve: u32,
    /// Offset 0x4c.
    pub SizeOfStackCommit: u32,
    /// Offset 0x50.
    pub SizeOfHeapReserve: u32,
    /// Offset 0x54.
    pub SizeOfHeapCommit: u32,
    /// Offset 0x58.
    pub LoaderFlags: u32,
    /// Offset 0x5c.
    pub NumberOfRvaAndSizes: u32,
    /// Offset 0x60.
    pub DataDirectory: [ImageDataDirectory; 16],
}

impl Pod for ImageOptionalHeader32 {
    open spec fn size_of() -> nat {
        0xe0
    }

    open spec fn decodes(b: Seq<u8>, v: Self) -> bool {
        &&& v.Magic == u16_at(b, 0)
        &&& v.MajorLinkerVersion == b[2]
        &&& v.MinorLinkerVersion == b[3]
        &&& v.SizeOfCode == u32_at(b, 4)
        &&& v.SizeOfInitializedData == u32_at(b, 8)
        &&& v.SizeOfUninitializedData == u32_at(b, 0xc)
        &&& v.AddressOfEntryPoint == u32_at(b, 0x10)
        &&& v.BaseOfCode == u32_at(b, 0x14)
        &&& v.BaseOfData == u32_at(b, 0x18)
        &&& v.ImageBase == u32_at(b, 0x1c)
        &&& v.SectionAlignment == u32_at(b, 0x20)
        &&& v.FileAlignment == u32_at(b, 0x24)
        &&& v.MajorOperatingSystemVersion == u16_at(b, 0x28)
        &&& v.MinorOperatingSystemVersion == u16_at(b, 0x2a)
        &&& v.MajorImageVersion == u16_at(b, 0x2c)
        &&& v.MinorImageVersion == u16_at(b, 0x2e)
        &&& v.MajorSubsystemVersion == u16_at(b, 0x30)
        &&& v.MinorSubsystemVersion == u16_at(b, 0x32)
        &&& v.Win32VersionValue == u32_at(b, 0x34)
        &&& v.SizeOfImage == u32_at(b, 0x38)
        &&& v.SizeOfHeaders == u32_at(b, 0x3c)
        &&& v.CheckSum == u32_at(b, 0x40)
        &&& v.Subsystem == u16_at(b, 0x44)
        &&& v.DllCharacteristics == u16_at(b, 0x46)
        &&& v.SizeOfStackReserve == u32_at(b, 0x48)
        &&& v.SizeOfStackCommit == u32_at(b, 0x4c)
        &&& v.SizeOfHeapReserve == u32_at(b, 0x50)
        &&& v.SizeOfHeapCommit == u32_at(b, 0x54)
        &&& v.LoaderFlags == u32_at(b, 0x58)
        &&& v.NumberOfRvaAndSizes == u32_at(b, 0x5c)
        &&& ImageDataDirectory::decodes(b.skip(0x60), v.DataDirectory@[0])
        &&& ImageDataDirectory::decodes(b.skip(0x68), v.DataDirectory@[1])
        &&& ImageDataDirectory::decodes(b.skip(0x70), v.DataDirectory@[2])
        &&& ImageDataDirectory::decodes(b.skip(0x78), v.DataDirectory@[3])
        &&& ImageDataDirectory::decodes(b.skip(0x80), v.DataDirectory@[4])
        &&& ImageDataDirectory::decodes(b.skip(0x88), v.DataDirectory@[5])
        &&& ImageDataDirectory::decodes(b.skip(0x90), v.DataDirectory@[6])
        &&& ImageDataDirectory::decodes(b.skip(0x98), v.DataDirectory@[7])
        &&& ImageDataDirectory::decodes(b.skip(0xa0), v.DataDirectory@[8])
        &&& ImageDataDirectory::decodes(b.skip(0xa8), v.DataDirectory@[9])
        &&& ImageDataDirectory::decodes(b.skip(0xb0), v.DataDirectory@[10])
        &&& ImageDataDirectory::decodes(b.skip(0xb8), v.DataDirectory@[11])
        &&& ImageDataDirectory::decodes(b.skip(0xc0), v.DataDirectory@[12])
        &&& ImageDataDirectory::decodes(b.skip(0xc8), v.DataDirectory@[13])
        &&& ImageDataDirectory::decodes(b.skip(0xd0), v.DataDirectory@[14])
        &&& ImageDataDirectory::decodes(b.skip(0xd8), v.DataDirectory@[15])
    }

    proof fn lemma_decodes_unique(b: Seq<u8>, v: Self, w: Self) {
        ImageDataDirectory::lemma_decodes_unique(b.skip(0x60), v.DataDirectory@[0], w.DataDirectory@[0]);
        ImageDataDirectory::lemma_decodes_unique(b.skip(0x68), v.DataDirectory@[1], w.DataDirectory@[1]);
        ImageDataDirectory::lemma_decodes_unique(b.skip(0x70), v.DataDirectory@[2], w.DataDirectory@[2]);
        ImageDataDirectory::lemma_decodes_unique(b.skip(0x78), v.DataDirectory@[3], w.DataDirectory@[3]);
        ImageDataDirectory::lemma_decodes_unique(b.skip(0x80), v.DataDirectory@[4], w.DataDirectory@[4]);
        ImageDataDirectory::lemma_decodes_unique(b.skip(0x88), v.DataDirectory@[5], w.DataDirectory@[5]);
        ImageDataDirectory::lemma_decodes_unique(b.skip(0x90), v.DataDirectory@[6], w.DataDirectory@[6]);
        ImageDataDirectory::lemma_decodes_unique(b.skip(0x98), v.DataDirectory@[7], w.DataDirectory@[7]);
        ImageDataDirectory::lemma_decodes_unique(b.skip(0xa0), v.DataDirectory@[8], w.DataDirectory@[8]);
        ImageDataDirectory::lemma_decodes_unique(b.skip(0xa8), v.DataDirectory@[9], w.DataDirectory@[9]);
        ImageDataDirectory::lemma_decodes_unique(b.skip(0xb0), v.DataDirectory@[10], w.DataDirectory@[10]);
        ImageDataDirectory::lemma_decodes_unique(b.skip(0xb8), v.DataDirectory@[11], w.DataDirectory@[11]);
        ImageDataDirectory::lemma_decodes_unique(b.skip(0xc0), v.DataDirectory@[12], w.DataDirectory@[12]);
        ImageDataDirectory::lemma_decodes_unique(b.skip(0xc8), v.DataDirectory@[13], w.DataDirectory@[13]);
        ImageDataDirectory::lemma_decodes_unique(b.skip(0xd0), v.DataDirectory@[14], w.DataDirectory@[14]);
        ImageDataDirectory::lemma_decodes_unique(b.skip(0xd8), v.DataDirectory@[15], w.DataDirectory@[15]);
        assert(v.DataDirectory =~= w.DataDirectory);
    }

    fn size() -> (n: usize) {
        0xe0
    }

    fn from_bytes(b: &[u8]) -> (v: Self) {
        ImageOptionalHeader32 {
            Magic: get_u16(b, 0),
            MajorLinkerVersion: get_u8(b, 2),
            MinorLinkerVersion: get_u8(b, 3),
            SizeOfCode: get_u32(b, 4),
            SizeOfInitializedData: get_u32(b, 8),
            SizeOfUninitializedData: get_u32(b, 0xc),
            AddressOfEntryPoint: get_u32(b, 0x10),
            BaseOfCode: get_u32(b, 0x14),
            BaseOfData: get_u32(b, 0x18),
            ImageBase: get_u32(b, 0x1c),
            SectionAlignment: get_u32(b, 0x20),
            FileAlignment: get_u32(b, 0x24),
            MajorOperatingSystemVersion: get_u16(b, 0x28),
            MinorOperatingSystemVersion: get_u16(b, 0x2a),
            MajorImageVersion: get_u16(b, 0x2c),
            MinorImageVersion: get_u16(b, 0x2e),
            MajorSubsystemVersion: get_u16(b, 0x30),
            MinorSubsystemVersion: get_u16(b, 0x32),
            Win32VersionValue: get_u32(b, 0x34),
            SizeOfImage: get_u32(b, 0x38),
            SizeOfHeaders: get_u32(b, 0x3c),
            CheckSum: get_u32(b, 0x40),
            Subsystem: get_u16(b, 0x44),
            DllCharacteristics: get_u16(b, 0x46),
            SizeOfStackReserve: get_u32(b, 0x48),
            SizeOfStackCommit: get_u32(b, 0x4c),
            SizeOfHeapReserve: get_u32(b, 0x50),
            SizeOfHeapCommit: get_u32(b, 0x54),
            LoaderFlags: get_u32(b, 0x58),
            NumberOfRvaAndSizes: get_u32(b, 0x5c),
            DataDirectory: [
                ImageDataDirectory::from_bytes(slice_subrange(b, 0x60, b.len())),
                ImageDataDirectory::from_bytes(slice_subrange(b, 0x68, b.len())),
                ImageDataDirectory::from_bytes(slice_subrange(b, 0x70, b.len())),
                ImageDataDirectory::from_bytes(slice_subrange(b, 0x78, b.len())),
                ImageDataDirectory::from_bytes(slice_subrange(b, 0x80, b.len())),
                ImageDataDirectory::from_bytes(slice_subrange(b, 0x88, b.len())),
                ImageDataDirectory::from_bytes(slice_subrange(b, 0x90, b.len())),
                ImageDataDirectory::from_bytes(slice_subrange(b, 0x98, b.len())),
                ImageDataDirectory::from_bytes(slice_subrange(b, 0xa0, b.len())),
                ImageDataDirectory::from_bytes(slice_subrange(b, 0xa8, b.len())),
                ImageDataDirectory::from_bytes(slice_subrange(b, 0xb0, b.len())),
                ImageDataDirectory::from_bytes(slice_subrange(b, 0xb8, b.len())),
                ImageDataDirectory::from_bytes(slice_subrange(b, 0xc0, b.len())),
                ImageDataDirectory::from_bytes(slice_subrange(b, 0xc8, b.len())),
                ImageDataDirectory::from_bytes(slice_subrange(b, 0xd0, b.len())),
                ImageDataDirectory::from_bytes(slice_subrange(b, 0xd8, b.len())),
            ],
        }
    }
}

/// The headers of a 64-bit image: 0x108 bytes.
#[allow(non_snake_case)]
#[derive(Clone, Copy, Debug)]
pub struct ImageNtHeaders64 {
    /// Offset 0.
    pub Signature: u32,
    /// Offset 4.
    pub FileHeader: ImageFileHeader,
    /// Offset 0x18.
    pub OptionalHeader: ImageOptionalHeader64,
}

impl Pod for ImageNtHeaders64 {
    open spec fn size_of() -> nat {
        0x108
    }

    open spec fn decodes(b: Seq<u8>, v: Self) -> bool {
        &&& v.Signature == u32_at(b, 0)
        &&& ImageFileHeader::decodes(b.skip(4), v.FileHeader)
        &&& ImageOptionalHeader64::decodes(b.skip(0x18), v.OptionalHeader)
    }

    proof fn lemma_decodes_unique(b: Seq<u8>, v: Self, w: Self) {
        ImageFileHeader::lemma_decodes_unique(b.skip(4), v.FileHeader, w.FileHeader);
        ImageOptionalHeader64::lemma_decodes_unique(b.skip(0x18), v.OptionalHeader, w.OptionalHeader);
    }

    fn size() -> (n: usize) {
        0x108
    }

    fn from_bytes(b: &[u8]) -> (v: Self) {
        ImageNtHeaders64 {
            Signature: get_u32(b, 0),
            FileHeader: ImageFileHeader::from_bytes(slice_subrange(b, 4, b.len())),
            OptionalHeader: ImageOptionalHeader64::from_bytes(slice_subrange(b, 0x18, b.len())),
        }
    }
}

/// The headers of a 32-bit image: 0xf8 bytes.
#[allow(non_snake_case)]
#[derive(Clone, Copy, Debug)]
pub struct ImageNtHeaders32 {
    /// Offset 0.
    pub Signature: u32,
    /// Offset 4.
    pub FileHeader: ImageFileHeader,
    /// Offset 0x18.
    pub OptionalHeader: ImageOptionalHeader32,
}

impl Pod for ImageNtHeaders32 {
    open spec fn size_of() -> nat {
        0xf8
    }

    open spec fn decodes(b: Seq<u8>, v: Self) -> bool {
        &&& v.Signature == u32_at(b, 0)
        &&& ImageFileHeader::decodes(b.skip(4), v.FileHeader)
        &&& ImageOptionalHeader32::decodes(b.skip(0x18), v.OptionalHeader)
    }

    proof fn lemma_decodes_unique(b: Seq<u8>, v: Self, w: Self) {
        ImageFileHeader::lemma_decodes_unique(b.skip(4), v.FileHeader, w.FileHeader);
        ImageOptionalHeader32::lemma_decodes_unique(b.skip(0x18), v.OptionalHeader, w.OptionalHeader);
    }

    fn size() -> (n: usize) {
        0xf8
    }

    fn from_bytes(b: &[u8]) -> (v: Self) {
        ImageNtHeaders32 {
            Signature: get_u32(b, 0),
            FileHeader: ImageFileHeader::from_bytes(slice_subrange(b, 4, b.len())),
            OptionalHeader: ImageOptionalHeader32::from_bytes(slice_subrange(b, 0x18, b.len())),
        }
    }
}

/// The header of one section of an image.
#[allow(non_snake_case)]
#[derive(Clone, Copy, Debug)]
pub struct ImageSectionHeader {
    /// Offset 0.
    pub Name: [u8; 8],
    /// Offset 8.
    pub PhysicalAddressOrVirtualSize: u32,
    /// Offset 0xc.
    pub VirtualAddress: u32,
    /// Offset 0x10.
    pub SizeOfRawData: u32,
    /// Offset 0x14.
    pub PointerToRawData: u32,
    /// Offset 0x18.
    pub PointerToRelocations: u32,
    /// Offset 0x1c.
    pub PointerToLinenumbers: u32,
    /// Offset 0x20.
    pub NumberOfRelocations: u16,
    /// Offset 0x22.
    pub NumberOfLinenumbers: u16,
    /// Offset 0x24.
    pub Characteristics: u32,
}

impl Pod for ImageSectionHeader {
    open spec fn size_of() -> nat {
        0x28
    }

    open spec fn decodes(b: Seq<u8>, v: Self) -> bool {
        &&& v.Name@ == b.subrange(0, 8)
        &&& v.PhysicalAddressOrVirtualSize == u32_at(b, 8)
        &&& v.VirtualAddress == u32_at(b, 0xc)
        &&& v.SizeOfRawData == u32_at(b, 0x10)
        &&& v.PointerToRawData == u32_at(b, 0x14)
        &&& v.PointerToRelocations == u32_at(b, 0x18)
        &&& v.PointerToLinenumbers == u32_at(b, 0x1c)
        &&& v.NumberOfRelocations == u16_at(b, 0x20)
        &&& v.NumberOfLinenumbers == u16_at(b, 0x22)
        &&& v.Characteristics == u32_at(b, 0x24)
    }

    proof fn lemma_decodes_unique(b: Seq<u8>, v: Self, w: Self) {
        assert(v.Name =~= w.Name);
    }

    fn size() -> (n: usize) {
        0x28
    }

    fn from_bytes(b: &[u8]) -> (v: Self) {
        ImageSectionHeader {
            Name: get_u8s(b, 0),
            PhysicalAddressOrVirtualSize: get_u32(b, 8),
            VirtualAddress: get_u32(b, 0xc),
            SizeOfRawData: get_u32(b, 0x10),
            PointerToRawData: get_u32(b, 0x14),
            PointerToRelocations: get_u32(b, 0x18),
            PointerToLinenumbers: get_u32(b, 0x1c),
            NumberOfRelocations: get_u16(b, 0x20),
            NumberOfLinenumbers: get_u16(b, 0x22),
            Characteristics: get_u32(b, 0x24),
        }
    }
}

/// The export directory of an image: three parallel tables of names, ordinals and functions.
#[allow(non_snake_case)]
#[derive(Clone, Copy, Debug)]
pub struct ImageExportDirectory {
    /// Offset 0.
    pub Characteristics: u32,
    /// Offset 4.
    pub TimeDateStamp: u32,
    /// Offset 8.
    pub MajorVersion: u16,
    /// Offset 0xa.
    pub MinorVersion: u16,
    /// Offset 0xc.
    pub Name: u32,
    /// Offset 0x10.
    pub Base: u32,
    /// Offset 0x14.
    pub NumberOfFunctions: u32,
    /// Offset 0x18.
    pub NumberOfNames: u32,
    /// Offset 0x1c.
    pub AddressOfFunctions: u32,
    /// Offset 0x20.
    pub AddressOfNames: u32,
    /// Offset 0x24.
    pub AddressOfNameOrdinals: u32,
}

impl Pod for ImageExportDirectory {
    open spec fn size_of() -> nat {
        0x28
    }

    open spec fn decodes(b: Seq<u8>, v: Self) -> bool {
        &&& v.Characteristics == u32_at(b, 0)
        &&& v.TimeDateStamp == u32_at(b, 4)
        &&& v.MajorVersion == u16_at(b, 8)
        &&& v.MinorVersion == u16_at(b, 0xa)
        &&& v.Name == u32_at(b, 0xc)
        &&& v.Base == u32_at(b, 0x10)
        &&& v.NumberOfFunctions == u32_at(b, 0x14)
        &&& v.NumberOfNames == u32_at(b, 0x18)
        &&& v.AddressOfFunctions == u32_at(b, 0x1c)
        &&& v.AddressOfNames == u32_at(b, 0x20)
        &&& v.AddressOfNameOrdinals == u32_at(b, 0x24)
    }

    proof fn lemma_decodes_unique(b: Seq<u8>, v: Self, w: Self) {
    }

    fn size() -> (n: usize) {
        0x28
    }

    fn from_bytes(b: &[u8]) -> (v: Self) {
        ImageExportDirectory {
            Characteristics: get_u32(b, 0),
            TimeDateStamp: get_u32(b, 4),
            MajorVersion: get_u16(b, 8),
            MinorVersion: get_u16(b, 0xa),
            Name: get_u32(b, 0xc),
            Base: get_u32(b, 0x10),
            NumberOfFunctions: get_u32(b, 0x14),
            NumberOfNames: get_u32(b, 0x18),
            AddressOfFunctions: get_u32(b, 0x1c),
            AddressOfNames: get_u32(b, 0x20),
            AddressOfNameOrdinals: get_u32(b, 0x24),
        }
    }
}

/// The header of one block of base relocations.
#[allow(non_snake_case)]
#[derive(Clone, Copy, Debug)]
pub struct ImageBaseRelocation {
    /// Offset 0.
    pub VirtualAddress: u32,
    /// Offset 4.
    pub SizeOfBlock: u32,
}

impl Pod for ImageBaseRelocation {
    open spec fn size_of() -> nat {
        8
    }

    open spec fn decodes(b: Seq<u8>, v: Self) -> bool {
        &&& v.VirtualAddress == u32_at(b, 0)
        &&& v.SizeOfBlock == u32_at(b, 4)
    }

    proof fn lemma_decodes_unique(b: Seq<u8>, v: Self, w: Self) {
    }

    fn size() -> (n: usize) {
        8
    }

    fn from_bytes(b: &[u8]) -> (v: Self) {
        ImageBaseRelocation {
            VirtualAddress: get_u32(b, 0),
            SizeOfBlock: get_u32(b, 4),
        }
    }
}

/// The headers of an image, by the width that its optional header declares.
pub enum NtHeaders {
    Bit64(ImageNtHeaders64),
    Bit32(ImageNtHeaders32),
}

impl ImageSectionHeader {
    /// The name of the section: the eight bytes of its name field, each taken
    /// as a code point. A name of less than eight bytes ends in zero bytes.
    pub fn get_name(&self) -> (s: String)
        ensures
            s@ == latin1(self.Name@),
    {
        latin1_string(self.Name.as_slice())
    }
}

impl ImageBaseRelocation {
    /// Number of relocations in the block: what is left of its size after the
    /// header, two bytes each. A block shorter than its header has none.
    pub open spec fn type_offset_count(&self) -> int {
        if self.SizeOfBlock < 8 {
            0
        } else {
            (self.SizeOfBlock - 8) / 2
        }
    }

    /// Address of relocation `i` of the block whose header is at `va_self`.
    pub open spec fn type_offset_address(va_self: u64, i: int) -> u64 {
        va_self.wrapping_add(8).wrapping_add((2 * i) as u64)
    }

    /// The relocations of the block whose header is at `va_self` in the
    /// address space rooted at `dtb`: they follow the header.
    pub fn get_type_offsets(&self, vm: &VMBinding, dtb: u64, va_self: u64) -> (r: Vec<TypeOffset>)
        ensures
            r@.len() == self.type_offset_count(),
            forall|i: int|
                0 <= i < r@.len() ==> #[trigger] r@[i] == decoded::<TypeOffset>(
                    vm.mem@.vbytes(dtb, Self::type_offset_address(va_self, i) as int, 2),
                ),
    {
        let count: u64 = if self.SizeOfBlock < 8 {
            0
        } else {
            ((self.SizeOfBlock - 8) / 2) as u64
        };
        let va_self_end = va_self.wrapping_add(8);
        let mut output: Vec<TypeOffset> = Vec::new();
        let mut i: u64 = 0;
        while i < count
            invariant
                i <= count,
                count == self.type_offset_count(),
                va_self_end == va_self.wrapping_add(8),
                output@.len() == i,
                forall|k: int|
                    0 <= k < i ==> #[trigger] output@[k] == decoded::<TypeOffset>(
                        vm.mem@.vbytes(dtb, Self::type_offset_address(va_self, k) as int, 2),
                    ),
            decreases count - i,
        {
            let typeoffset: TypeOffset = vm.vread(dtb, va_self_end.wrapping_add(2 * i));
            output.push(typeoffset);
            i = i + 1;
        }
        output
    }
}

} // verus!
