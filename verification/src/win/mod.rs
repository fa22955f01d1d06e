//! The records of a Windows guest as they lie in its memory, and where the
//! fields of a process record are from one version of the system to the next.

use vstd::prelude::*;

pub mod list_entry;
pub mod misc;
pub mod unicode_string;
pub mod eprocess;
pub mod ethread;
pub mod heap_entry;
pub mod pe;
pub mod peb;
pub mod peb_bitfield;
pub mod peb_ldr_data;
pub mod proc_heap_entry;
pub mod teb;

verus! {

/// Byte offsets of fields of a process record, for one version of the system.
#[derive(Clone, Copy, Debug)]
pub struct Offsets {
    /// The links of the list of active processes.
    pub apl: i64,
    /// The session of the process.
    pub session: i64,
    /// The number of stacks of the process.
    pub stack_count: i64,
    /// The file name of the image of the process.
    pub image_file_name: i64,
    /// The root of the page tables.
    pub dirbase: i64,
    /// The address of the process environment block.
    pub peb: i64,
    /// The address of the environment block of a 32-bit process.
    pub peb32: i64,
    /// The head of the list of the threads of the process.
    pub thread_list_head: i64,
    /// The links of that list, in a thread record.
    pub thread_list_entry: i64,
    /// The address of the environment block of a thread, in a thread record.
    pub teb: i64,
}

impl Offsets {
    /// Whether the table has a row for the version `nt_version`, which is one
    /// hundred times the major version plus the minor one.
    pub open spec fn known_version(nt_version: u16) -> bool {
        nt_version == 502 || nt_version == 601 || nt_version == 602 || nt_version == 603
            || nt_version == 1000
    }

    /// The row of the table for version `nt_version` and build `nt_build`.
    pub open spec fn row(nt_version: u16, nt_build: u32) -> Option<Offsets> {
        if nt_version == 502 {
            Some(
                Offsets {
                    apl: 0xe0,
                    session: 0x260,
                    stack_count: 0xa0,
                    image_file_name: 0x268,
                    dirbase: 0x28,
                    peb: 0x2c0,
                    peb32: 0x30,
                    thread_list_head: 0x290,
                    thread_list_entry: 0x3d0,
                    teb: 0xb0,
                },
            )
        } else if nt_version == 601 {
            Some(
                Offsets {
                    apl: 0x188,
                    session: 0x2d8,
                    stack_count: 0xdc,
                    image_file_name: if nt_build == 7601 {
                        0x2d8
                    } else {
                        0x2e0
                    },
                    dirbase: 0x28,
                    peb: 0x338,
                    peb32: 0x30,
                    thread_list_head: 0x300,
                    thread_list_entry: if nt_build == 7601 {
                        0x428
                    } else {
                        0x420
                    },
                    teb: 0xb8,
                },
            )
        } else if nt_version == 602 {
            Some(
                Offsets {
                    apl: 0x2e8,
                    session: 0x430,
                    stack_count: 0x234,
                    image_file_name: 0x438,
                    dirbase: 0x28,
                    peb: 0x338,
                    peb32: 0x30,
                    thread_list_head: 0x470,
                    thread_list_entry: 0x400,
                    teb: 0xf0,
                },
            )
        } else if nt_version == 603 {
            Some(
                Offsets {
                    apl: 0x2e8,
                    session: 0x430,
                    stack_count: 0x234,
                    image_file_name: 0x438,
                    dirbase: 0x28,
                    peb: 0x338,
                    peb32: 0x30,
                    thread_list_head: 0x470,
                    thread_list_entry: 0x688,
                    teb: 0xf0,
                },
            )
        } else if nt_version == 1000 {
            Some(
                Offsets {
                    apl: if nt_build >= 18362 {
                        0x2f0
                    } else {
                        0x2e8
                    },
                    session: 0x448,
                    stack_count: 0x23c,
                    image_file_name: 0x450,
                    dirbase: 0x28,
                    peb: 0x3f8,
                    peb32: 0x30,
                    thread_list_head: 0x488,
                    thread_list_entry: if nt_build >= 18362 {
                        0x6b8
                    } else {
                        0x6a8
                    },
                    teb: 0xf0,
                },
            )
        } else {
            None
        }
    }

    /// Whether every offset of the row is set.
    pub open spec fn populated(&self) -> bool {
        &&& self.apl > 0
        &&& self.session > 0
        &&& self.stack_count > 0
        &&& self.image_file_name > 0
        &&& self.dirbase > 0
        &&& self.peb > 0
        &&& self.peb32 > 0
        &&& self.thread_list_head > 0
        &&& self.thread_list_entry > 0
        &&& self.teb > 0
    }

    /// The table has a row for every version that it knows, whatever the
    /// build, and for no other; and every row that it has is populated.
    pub proof fn lemma_rows(nt_version: u16, nt_build: u32)
        ensures
            Self::row(nt_version, nt_build) is Some <==> Self::known_version(nt_version),
            Self::row(nt_version, nt_build) is Some ==> Self::row(
                nt_version,
                nt_build,
            ).unwrap().populated(),
    {
    }

    /// The offsets for version `nt_version` and build `nt_build`, or `None` for
    /// a version that the table does not know. The build tells Windows 7 with
    /// its first service pack from Windows 7 without, and Windows 10 from
    /// version 1903 on from the earlier ones.
    pub fn get_offsets(nt_version: u16, nt_build: u32) -> (r: Option<Offsets>)
        ensures
            r == Self::row(nt_version, nt_build),
            r is Some <==> Self::known_version(nt_version),
    {
        match nt_version {
            502 => {
                Some(
                    Offsets {
                        apl: 0xe0,
                        session: 0x260,
                        stack_count: 0xa0,
                        image_file_name: 0x268,
                        dirbase: 0x28,
                        peb: 0x2c0,
                        peb32: 0x30,
                        thread_list_head: 0x290,
                        thread_list_entry: 0x3d0,
                        teb: 0xb0,
                    },
                )
            },
            601 => {
                let mut ret = Offsets {
                    apl: 0x188,
                    session: 0x2d8,
                    stack_count: 0xdc,
                    image_file_name: 0x2e0,
                    dirbase: 0x28,
                    peb: 0x338,
                    peb32: 0x30,
                    thread_list_head: 0x300,
                    thread_list_entry: 0x420,
                    teb: 0xb8,
                };
                if nt_build == 7601 {
                    ret.image_file_name = 0x2d8;
                    ret.thread_list_entry = 0x428;
                }
                Some(ret)
            },
            602 => {
                Some(
                    Offsets {
                        apl: 0x2e8,
                        session: 0x430,
                        stack_count: 0x234,
                        image_file_name: 0x438,
                        dirbase: 0x28,
                        peb: 0x338,
                        peb32: 0x30,
                        thread_list_head: 0x470,
                        thread_list_entry: 0x400,
                        teb: 0xf0,
                    },
                )
            },
            603 => {
                Some(
                    Offsets {
                        apl: 0x2e8,
                        session: 0x430,
                        stack_count: 0x234,
                        image_file_name: 0x438,
                        dirbase: 0x28,
                        peb: 0x338,
                        peb32: 0x30,
                        thread_list_head: 0x470,
                        thread_list_entry: 0x688,
                        teb: 0xf0,
                    },
                )
            },
            1000 => {
                let mut ret = Offsets {
                    apl: 0x2e8,
                    session: 0x448,
                    stack_count: 0x23c,
                    image_file_name: 0x450,
                    dirbase: 0x28,
                    peb: 0x3f8,
                    peb32: 0x30,
                    thread_list_head: 0x488,
                    thread_list_entry: 0x6a8,
                    teb: 0xf0,
                };
                if nt_build >= 18362 {
                    ret.apl = 0x2f0;
                    ret.thread_list_entry = 0x6b8;
                }
                Some(ret)
            },
            _ => None,
        }
    }
}

} // verus!
