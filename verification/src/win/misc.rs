//! Small records that several others embed.

use crate::bytes::{get_u16, get_u16s, get_u64, u16_at, u16s_at, u64_at, Pod};
use vstd::prelude::*;

verus! {

/// A processor group and the processors of it that a thread may run on.
#[allow(non_snake_case)]
#[derive(Clone, Copy, Debug)]
pub struct GroupAffinity {
    /// Offset 0.
    pub Mask: u64,
    /// Offset 8.
    pub Group: u16,
    /// Offset 0xa.
    pub Reserved: [u16; 3],
}

impl Pod for GroupAffinity {
    open spec fn size_of() -> nat {
        0x10
    }

    open spec fn decodes(b: Seq<u8>, v: Self) -> bool {
        &&& v.Mask == u64_at(b, 0)
        &&& v.Group == u16_at(b, 8)
        &&& v.Reserved@ == u16s_at(b, 0xa, 3)
    }

    proof fn lemma_decodes_unique(b: Seq<u8>, v: Self, w: Self) {
        assert(v.Reserved =~= w.Reserved);
    }

    fn size() -> (n: usize) {
        0x10
    }

    fn from_bytes(b: &[u8]) -> (v: Self) {
        GroupAffinity {
            Mask: get_u64(b, 0),
            Group: get_u16(b, 8),
            Reserved: get_u16s(b, 0xa),
        }
    }
}

} // verus!
