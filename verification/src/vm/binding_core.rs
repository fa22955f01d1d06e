//! The window onto guest physical memory, and byte-range copies in and out of it.

use crate::vm::{KFIXC, KFIXO, STEP_SIZE};
use vstd::prelude::*;
use vstd::slice::slice_subrange;

verus! {

/// The address fixup with the default constants.
pub open spec fn kfix2_spec(x: u64) -> u64 {
    if x < KFIXC {
        x
    } else {
        (x - KFIXO) as u64
    }
}

/// Maps a guest physical address to its offset in the window, with the default
/// constants: addresses below `KFIXC` are kept, the others move down by `KFIXO`.
pub fn kfix2(x: u64) -> (r: u64)
    ensures
        r == kfix2_spec(x),
{
    if x < KFIXC {
        x
    } else {
        x - KFIXO
    }
}

/// `m` with the bytes of `data` laid over it from offset `off` on.
pub open spec fn overlay(m: Seq<u8>, off: int, data: Seq<u8>) -> Seq<u8> {
    Seq::new(
        m.len(),
        |j: int|
            if off <= j < off + data.len() {
                data[j - off]
            } else {
                m[j]
            },
    )
}

/// Lays `n` bytes of `src`, from index `from` on, over `dst` from offset `off` on.
fn copy_in(dst: &mut Vec<u8>, off: usize, src: &[u8], from: usize, n: usize)
    requires
        off + n <= old(dst).len(),
        from + n <= src.len(),
    ensures
        final(dst)@ == overlay(old(dst)@, off as int, src@.subrange(from as int, from + n)),
{
    let ghost start = dst@;
    let mut j: usize = 0;
    while j < n
        invariant
            j <= n,
            off + n <= dst.len(),
            from + n <= src.len(),
            dst@ == overlay(start, off as int, src@.subrange(from as int, from + j)),
        decreases n - j,
    {
        let b: u8 = src[from + j];
        dst.set(off + j, b);
        j = j + 1;
        assert(dst@ =~= overlay(start, off as int, src@.subrange(from as int, from + j)));
    }
}

/// Number of sub-copies that a transfer of `len` bytes is made of: one per
/// started 4 KiB of the request, and one for an empty request.
pub open spec fn chunk_count(len: int) -> int {
    if len <= 0 {
        1
    } else {
        (len + 0xfff) / 0x1000
    }
}

/// Length of the `k`-th sub-copy of a transfer of `len` bytes.
pub open spec fn chunk_len(len: int, k: int) -> int {
    if len - k * 0x1000 < 0x1000 {
        len - k * 0x1000
    } else {
        0x1000
    }
}

/// One copy that a write makes into the window: `len` bytes of the payload,
/// from `payload_offset` on, go to the window from `window_offset` on.
#[derive(Clone, Copy, Debug, PartialEq, Eq, Structural)]
pub struct WriteStore {
    /// Where in the window the bytes go.
    pub window_offset: u64,
    /// Where in the payload they come from.
    pub payload_offset: u64,
    /// How many bytes there are.
    pub len: u64,
}

/// `bytes` after the copies `stores` of `payload` were made, in their order.
pub open spec fn apply_stores(bytes: Seq<u8>, stores: Seq<WriteStore>, payload: Seq<u8>) -> Seq<u8>
    decreases stores.len(),
{
    if stores.len() == 0 {
        bytes
    } else {
        overlay(
            apply_stores(bytes, stores.drop_last(), payload),
            stores.last().window_offset as int,
            payload.subrange(
                stores.last().payload_offset as int,
                stores.last().payload_offset + stores.last().len,
            ),
        )
    }
}

/// Making two runs of copies one after the other is making the copies of both
/// in one run.
pub proof fn lemma_apply_stores_concat(
    bytes: Seq<u8>,
    first: Seq<WriteStore>,
    second: Seq<WriteStore>,
    payload: Seq<u8>,
)
    ensures
        apply_stores(bytes, first + second, payload) == apply_stores(
            apply_stores(bytes, first, payload),
            second,
            payload,
        ),
    decreases second.len(),
{
    if second.len() == 0 {
        assert(first + second =~= first);
    } else {
        lemma_apply_stores_concat(bytes, first, second.drop_last(), payload);
        assert((first + second).drop_last() =~= first + second.drop_last());
        assert((first + second).last() == second.last());
    }
}

/// Guest physical memory as a value: the bytes of the window and the address
/// fixup that leads into it.
pub struct PhysMem {
    /// The bytes, by offset in the window.
    pub bytes: Seq<u8>,
    /// Addresses from here up are shifted down.
    pub fix_from: int,
    /// The distance by which they are shifted.
    pub fix_by: int,
}

impl PhysMem {
    /// The fixup never moves an address below zero.
    pub open spec fn wf(self) -> bool {
        0 <= self.fix_by <= self.fix_from
    }

    /// Offset in the window of the guest physical address `x`.
    pub open spec fn offset_of(self, x: int) -> int {
        if x < self.fix_from {
            x
        } else {
            x - self.fix_by
        }
    }

    /// Whether the `k`-th sub-copy of a transfer of `len` bytes at `gpa` lies in
    /// the window. Each sub-copy has its own start fixed up.
    pub open spec fn chunk_fits(self, gpa: u64, len: int, k: int) -> bool {
        &&& gpa + k * 0x1000 <= u64::MAX
        &&& self.offset_of(gpa + k * 0x1000) + chunk_len(len, k) <= self.bytes.len()
    }

    /// Index of the first sub-copy from `k` on that does not lie in the window,
    /// or the number of sub-copies if all of them do.
    pub open spec fn first_unfit(self, gpa: u64, len: int, k: int) -> int
        decreases chunk_count(len) - k,
    {
        if k >= chunk_count(len) {
            chunk_count(len)
        } else if !self.chunk_fits(gpa, len, k) {
            k
        } else {
            self.first_unfit(gpa, len, k + 1)
        }
    }

    /// Whether a transfer of `len` bytes at `gpa` succeeds: every sub-copy lies
    /// in the window.
    pub open spec fn in_range(self, gpa: u64, len: int) -> bool {
        self.first_unfit(gpa, len, 0) == chunk_count(len)
    }

    /// Offset in the window of the `i`-th byte of a transfer that starts at `gpa`.
    pub open spec fn byte_offset(self, gpa: u64, i: int) -> int {
        self.offset_of(gpa + (i / 0x1000) * 0x1000) + i % 0x1000
    }

    /// What a successful read of `len` bytes at `gpa` yields.
    pub open spec fn bytes_at(self, gpa: u64, len: int) -> Seq<u8> {
        Seq::new(len as nat, |i: int| self.bytes[self.byte_offset(gpa, i)])
    }

    /// The bytes after the first `k` sub-copies of a write of `data` at `gpa`.
    pub open spec fn after_chunks(self, gpa: u64, data: Seq<u8>, k: int) -> Seq<u8>
        decreases k,
    {
        if k <= 0 {
            self.bytes
        } else {
            overlay(
                self.after_chunks(gpa, data, k - 1),
                self.offset_of(gpa + (k - 1) * 0x1000),
                data.subrange(
                    (k - 1) * 0x1000,
                    (k - 1) * 0x1000 + chunk_len(data.len() as int, k - 1),
                ),
            )
        }
    }

    /// The `k`-th sub-copy of a write of `len` bytes at `gpa`.
    pub open spec fn chunk_store(self, gpa: u64, len: int, k: int) -> WriteStore {
        WriteStore {
            window_offset: self.offset_of(gpa + k * 0x1000) as u64,
            payload_offset: (k * 0x1000) as u64,
            len: chunk_len(len, k) as u64,
        }
    }

    /// The copies that a write of `len` bytes at `gpa` makes into the window:
    /// its sub-copies in order, or none if the write is not in range.
    pub open spec fn write_stores(self, gpa: u64, len: int) -> Seq<WriteStore> {
        if self.in_range(gpa, len) {
            Seq::new(chunk_count(len) as nat, |k: int| self.chunk_store(gpa, len, k))
        } else {
            Seq::empty()
        }
    }

    /// The memory after a write of `data` at `gpa`. A write that is in range
    /// makes all its sub-copies, in order; a write that is not changes nothing.
    pub open spec fn after_write(self, gpa: u64, data: Seq<u8>) -> PhysMem {
        if self.in_range(gpa, data.len() as int) {
            PhysMem {
                bytes: self.after_chunks(gpa, data, chunk_count(data.len() as int)),
                ..self
            }
        } else {
            self
        }
    }
}

/// A contiguous range of host memory that aliases the guest's physical memory.
/// The window holds the bytes themselves; writing to it is what changes the guest.
///
/// The fixup is kept as the shift and the distance from the shift to the
/// threshold, so that no setting can move an address below zero.
pub struct MemoryWindow {
    bytes: Vec<u8>,
    shift: u64,
    gap: u64,
}

impl View for MemoryWindow {
    type V = PhysMem;

    closed spec fn view(&self) -> PhysMem {
        PhysMem { bytes: self.bytes@, fix_from: self.shift + self.gap, fix_by: self.shift as int }
    }
}

impl MemoryWindow {
    /// Every window is well formed.
    pub proof fn lemma_wf(&self)
        ensures
            self@.wf(),
    {
    }

    /// A window over `bytes` with the default fixup constants.
    pub fn new(bytes: Vec<u8>) -> (w: Self)
        ensures
            w@ == (PhysMem { bytes: bytes@, fix_from: KFIXC as int, fix_by: KFIXO as int }),
    {
        MemoryWindow { bytes, shift: KFIXO, gap: KFIXC - KFIXO }
    }

    /// A window over `bytes` whose fixup shifts addresses from `kfixc` up down by
    /// `kfixo`; `None` if that would move an address below zero.
    pub fn with_fixup(bytes: Vec<u8>, kfixc: u64, kfixo: u64) -> (w: Option<Self>)
        ensures
            w is Some <==> kfixo <= kfixc,
            w is Some ==> w.unwrap()@ == (PhysMem {
                bytes: bytes@,
                fix_from: kfixc as int,
                fix_by: kfixo as int,
            }),
    {
        if kfixo <= kfixc {
            Some(MemoryWindow { bytes, shift: kfixo, gap: kfixc - kfixo })
        } else {
            None
        }
    }

    /// Size of the window in bytes.
    pub fn maps_size(&self) -> (n: u64)
        ensures
            n == self@.bytes.len(),
    {
        self.bytes.len() as u64
    }

    /// Offset in the window of the guest physical address `x`.
    pub fn fixup(&self, x: u64) -> (r: u64)
        ensures
            r == self@.offset_of(x as int),
    {
        if x < self.shift || x - self.shift < self.gap {
            x
        } else {
            x - self.shift
        }
    }
}

impl MemoryWindow {
    /// Copies `len` bytes of guest physical memory at `gpa` out of the window.
    /// The copy is made in sub-copies of at most 4 KiB, each with its own start
    /// fixed up. `None` if one of them does not lie in the window.
    pub fn read_bytes(&self, gpa: u64, len: u64) -> (r: Option<Vec<u8>>)
        ensures
            r is Some <==> self@.in_range(gpa, len as int),
            r is Some ==> r.unwrap()@ == self@.bytes_at(gpa, len as int),
    {
        let size: u64 = self.bytes.len() as u64;
        let mut out: Vec<u8> = Vec::new();
        let mut cur: u64 = 0;
        let ghost mut k: int = 0;
        loop
            invariant
                size == self.bytes.len(),
                cur == k * 0x1000,
                0 <= k < chunk_count(len as int),
                cur <= len,
                self@.first_unfit(gpa, len as int, 0) == self@.first_unfit(gpa, len as int, k),
                out@ == self@.bytes_at(gpa, cur as int),
            decreases len - cur,
        {
            let n: u64 = if len - cur < STEP_SIZE {
                len - cur
            } else {
                STEP_SIZE
            };
            assert(n == chunk_len(len as int, k));
            let start: u64 = match gpa.checked_add(cur) {
                Some(s) => s,
                None => {
                    return None;
                },
            };
            let remote: u64 = self.fixup(start);
            if remote > size || n > size - remote {
                return None;
            }
            assert(self@.chunk_fits(gpa, len as int, k));
            let piece = slice_subrange(self.bytes.as_slice(), remote as usize, (remote + n) as usize);
            let ghost before = out@;
            out.extend_from_slice(piece);
            proof {
                let next = (cur + n) as int;
                assert forall|i: int| 0 <= i < next implies out@[i] == self@.bytes[self@.byte_offset(
                    gpa,
                    i,
                )] by {
                    if i >= cur {
                        assert(i / 0x1000 == k);
                        assert(i % 0x1000 == i - cur);
                        assert(cloned::<u8>(piece@[i - cur], out@[i]));
                    } else {
                        assert(out@[i] == before[i]);
                    }
                }
                assert(out@ =~= self@.bytes_at(gpa, next));
                assert(self@.first_unfit(gpa, len as int, k) == self@.first_unfit(
                    gpa,
                    len as int,
                    k + 1,
                ));
                k = k + 1;
            }
            cur = cur + n;
            if cur >= len {
                assert(k == chunk_count(len as int));
                return Some(out);
            }
        }
    }
}

impl MemoryWindow {
    /// Whether a transfer of `len` bytes at `gpa` lies in the window, every
    /// sub-copy of it.
    pub fn fits(&self, gpa: u64, len: u64) -> (r: bool)
        ensures
            r == self@.in_range(gpa, len as int),
    {
        let size: u64 = self.bytes.len() as u64;
        let mut cur: u64 = 0;
        let ghost mut k: int = 0;
        loop
            invariant
                size == self.bytes.len(),
                cur == k * 0x1000,
                0 <= k < chunk_count(len as int),
                cur <= len,
                self@.first_unfit(gpa, len as int, 0) == self@.first_unfit(gpa, len as int, k),
            decreases len - cur,
        {
            let n: u64 = if len - cur < STEP_SIZE {
                len - cur
            } else {
                STEP_SIZE
            };
            assert(n == chunk_len(len as int, k));
            let start: u64 = match gpa.checked_add(cur) {
                Some(s) => s,
                None => {
                    return false;
                },
            };
            let remote: u64 = self.fixup(start);
            if remote > size || n > size - remote {
                return false;
            }
            proof {
                assert(self@.chunk_fits(gpa, len as int, k));
                assert(self@.first_unfit(gpa, len as int, k) == self@.first_unfit(
                    gpa,
                    len as int,
                    k + 1,
                ));
                k = k + 1;
            }
            cur = cur + n;
            if cur >= len {
                assert(k == chunk_count(len as int));
                return true;
            }
        }
    }

    /// Copies `data` into guest physical memory at `gpa`, in sub-copies of at
    /// most 4 KiB, each with its own start fixed up. The range is tested
    /// before anything is copied: a write with a sub-copy that does not lie in
    /// the window returns `false` and changes nothing.
    pub fn write_bytes(&mut self, gpa: u64, data: &[u8]) -> (ok: bool)
        ensures
            ok <==> old(self)@.in_range(gpa, data@.len() as int),
            final(self)@ == old(self)@.after_write(gpa, data@),
    {
        let size: u64 = self.bytes.len() as u64;
        let len: u64 = data.len() as u64;
        if !self.fits(gpa, len) {
            return false;
        }
        let mut cur: u64 = 0;
        let ghost mut k: int = 0;
        loop
            invariant
                size == self.bytes.len(),
                len == data.len(),
                old(self)@.in_range(gpa, len as int),
                self@.bytes.len() == old(self)@.bytes.len(),
                self@.fix_from == old(self)@.fix_from,
                self@.fix_by == old(self)@.fix_by,
                cur == k * 0x1000,
                0 <= k < chunk_count(len as int),
                cur <= len,
                self@.bytes == old(self)@.after_chunks(gpa, data@, k),
            decreases len - cur,
        {
            let n: u64 = if len - cur < STEP_SIZE {
                len - cur
            } else {
                STEP_SIZE
            };
            proof {
                assert(n == chunk_len(len as int, k));
                if !old(self)@.chunk_fits(gpa, len as int, k) {
                    old(self)@.lemma_unfit(gpa, len as int, 0, k);
                }
            }
            let remote: u64 = self.fixup(gpa + cur);
            copy_in(&mut self.bytes, remote as usize, data, cur as usize, n as usize);
            proof {
                assert(self@.bytes == old(self)@.after_chunks(gpa, data@, k + 1));
                k = k + 1;
            }
            cur = cur + n;
            if cur >= len {
                assert(k == chunk_count(len as int));
                return true;
            }
        }
    }
}

impl MemoryWindow {
    /// The copies that a write of `len` bytes at `gpa` makes into the window.
    pub fn write_stores(&self, gpa: u64, len: u64) -> (r: Vec<WriteStore>)
        ensures
            r@ == self@.write_stores(gpa, len as int),
    {
        let mut stores: Vec<WriteStore> = Vec::new();
        if !self.fits(gpa, len) {
            return stores;
        }
        let mut cur: u64 = 0;
        let ghost mut k: int = 0;
        loop
            invariant
                self@.in_range(gpa, len as int),
                cur == k * 0x1000,
                0 <= k < chunk_count(len as int),
                cur <= len,
                stores@.len() == k,
                forall|i: int|
                    0 <= i < k ==> #[trigger] stores@[i] == self@.chunk_store(gpa, len as int, i),
            decreases len - cur,
        {
            let n: u64 = if len - cur < STEP_SIZE {
                len - cur
            } else {
                STEP_SIZE
            };
            proof {
                assert(n == chunk_len(len as int, k));
                if !self@.chunk_fits(gpa, len as int, k) {
                    self@.lemma_unfit(gpa, len as int, 0, k);
                }
            }
            let remote: u64 = self.fixup(gpa + cur);
            stores.push(WriteStore { window_offset: remote, payload_offset: cur, len: n });
            proof {
                k = k + 1;
            }
            cur = cur + n;
            if cur >= len {
                assert(k == chunk_count(len as int));
                assert(stores@ =~= self@.write_stores(gpa, len as int));
                return stores;
            }
        }
    }
}

impl PhysMem {
    /// The memory after a write is the memory before with the copies of the
    /// write made into it.
    pub proof fn lemma_write_stores(self, gpa: u64, data: Seq<u8>, k: int)
        requires
            self.wf(),
            self.bytes.len() <= u64::MAX,
            self.in_range(gpa, data.len() as int),
            0 <= k <= chunk_count(data.len() as int),
        ensures
            apply_stores(self.bytes, self.write_stores(gpa, data.len() as int).take(k), data)
                == self.after_chunks(gpa, data, k),
            k == chunk_count(data.len() as int) ==> apply_stores(
                self.bytes,
                self.write_stores(gpa, data.len() as int),
                data,
            ) == self.after_write(gpa, data).bytes,
        decreases k,
    {
        let len = data.len() as int;
        let stores = self.write_stores(gpa, len);
        if k > 0 {
            self.lemma_write_stores(gpa, data, k - 1);
            if !self.chunk_fits(gpa, len, k - 1) {
                self.lemma_unfit(gpa, len, 0, k - 1);
            }
            assert(stores.take(k).drop_last() =~= stores.take(k - 1));
            let last = stores.take(k).last();
            assert(last == self.chunk_store(gpa, len, k - 1));
            assert(last.window_offset == self.offset_of(gpa + (k - 1) * 0x1000));
            assert(last.payload_offset == (k - 1) * 0x1000);
            assert(last.len == chunk_len(len, k - 1));
        } else {
            assert(stores.take(0).len() == 0);
        }
        if k == chunk_count(len) {
            assert(stores.take(k) =~= stores);
        }
    }
}

impl PhysMem {
    /// Whether a write of `data` at `gpa` lands every byte in a place of its
    /// own, or at least never lands two different bytes in one place. The
    /// address fixup can send two addresses to one offset of the window.
    pub open spec fn lands_apart(self, gpa: u64, data: Seq<u8>) -> bool {
        forall|i: int, j: int|
            0 <= i < j < data.len() && self.byte_offset(gpa, i) == self.byte_offset(gpa, j)
                ==> data[i] == data[j]
    }

    /// A transfer whose addresses all lie below the size of the window is in
    /// range: the fixup moves no address up.
    pub proof fn lemma_in_range(self, gpa: u64, len: int, k: int)
        requires
            self.wf(),
            0 <= len,
            gpa + len <= self.bytes.len(),
            self.bytes.len() <= u64::MAX,
            0 <= k,
        ensures
            self.first_unfit(gpa, len, k) == chunk_count(len),
        decreases chunk_count(len) - k,
    {
        if k < chunk_count(len) {
            assert(self.chunk_fits(gpa, len, k));
            self.lemma_in_range(gpa, len, k + 1);
        }
    }

    /// A transfer with a sub-copy that does not lie in the window is not in
    /// range.
    pub proof fn lemma_unfit(self, gpa: u64, len: int, from: int, k: int)
        requires
            0 <= from <= k < chunk_count(len),
            !self.chunk_fits(gpa, len, k),
        ensures
            self.first_unfit(gpa, len, from) <= k,
        decreases k - from,
    {
        if from < k && self.chunk_fits(gpa, len, from) {
            self.lemma_unfit(gpa, len, from + 1, k);
        }
    }

    /// Where the address fixup does not touch a transfer, because it shifts
    /// by nothing or because the transfer starts and ends below its
    /// threshold, the transfer is in range if and only if it ends inside the
    /// window.
    pub proof fn lemma_range_without_fixup(self, gpa: u64, len: int)
        requires
            self.wf(),
            0 <= len,
            self.bytes.len() <= u64::MAX,
            self.fix_by == 0 || (gpa < self.fix_from && gpa + len <= self.fix_from),
        ensures
            self.in_range(gpa, len) <==> gpa + len <= self.bytes.len(),
    {
        if gpa + len <= self.bytes.len() {
            self.lemma_in_range(gpa, len, 0);
        } else {
            let last = chunk_count(len) - 1;
            assert(last * 0x1000 + chunk_len(len, last) == len);
            if gpa + last * 0x1000 <= u64::MAX {
                assert(self.offset_of(gpa + last * 0x1000) == gpa + last * 0x1000);
            }
            assert(!self.chunk_fits(gpa, len, last));
            self.lemma_unfit(gpa, len, 0, last);
        }
    }

    /// After the first `k` sub-copies of a write that lands apart, every byte
    /// that they cover is where a read will look for it, and the window is as
    /// large as before.
    pub proof fn lemma_after_chunks(self, gpa: u64, data: Seq<u8>, k: int)
        requires
            self.wf(),
            gpa + data.len() <= self.bytes.len(),
            self.bytes.len() <= u64::MAX,
            self.lands_apart(gpa, data),
            0 <= k <= chunk_count(data.len() as int),
        ensures
            self.after_chunks(gpa, data, k).len() == self.bytes.len(),
            forall|i: int|
                0 <= i < data.len() && i < k * 0x1000 ==> #[trigger] self.after_chunks(
                    gpa,
                    data,
                    k,
                )[self.byte_offset(gpa, i)] == data[i],
        decreases k,
    {
        if k > 0 {
            self.lemma_after_chunks(gpa, data, k - 1);
            let len = data.len() as int;
            let s = (k - 1) * 0x1000;
            let n = chunk_len(len, k - 1);
            let off = self.offset_of(gpa + s);
            let piece = data.subrange(s, s + n);
            let before = self.after_chunks(gpa, data, k - 1);
            let after = self.after_chunks(gpa, data, k);
            assert(after == overlay(before, off, piece));
            assert forall|i: int| 0 <= i < data.len() && i < k * 0x1000 implies after[self.byte_offset(
                gpa,
                i,
            )] == data[i] by {
                let p = self.byte_offset(gpa, i);
                assert(0 <= p < self.bytes.len());
                if i >= s {
                    assert(i / 0x1000 == k - 1);
                    assert(p == off + (i - s));
                    assert(piece[i - s] == data[i]);
                } else {
                    if off <= p < off + n {
                        let j = s + (p - off);
                        assert(j / 0x1000 == k - 1);
                        assert(self.byte_offset(gpa, j) == p);
                        assert(data[j] == data[i]);
                        assert(piece[p - off] == data[j]);
                    } else {
                        assert(after[p] == before[p]);
                    }
                }
            }
        }
    }

    /// Whether a transfer of `len` bytes at `gpa` touches the byte at offset
    /// `p` of the window.
    pub open spec fn touches(self, gpa: u64, len: int, p: int) -> bool {
        exists|i: int| 0 <= i < len && #[trigger] self.byte_offset(gpa, i) == p
    }

    /// The first `k` sub-copies of a write keep the size of the window and
    /// every byte that the write does not touch.
    pub proof fn lemma_chunks_keep_the_rest(self, gpa: u64, data: Seq<u8>, k: int)
        requires
            0 <= k <= chunk_count(data.len() as int),
        ensures
            self.after_chunks(gpa, data, k).len() == self.bytes.len(),
            forall|p: int|
                0 <= p < self.bytes.len() && !self.touches(gpa, data.len() as int, p)
                    ==> #[trigger] self.after_chunks(gpa, data, k)[p] == self.bytes[p],
        decreases k,
    {
        if k > 0 {
            self.lemma_chunks_keep_the_rest(gpa, data, k - 1);
            let len = data.len() as int;
            let s = (k - 1) * 0x1000;
            let n = chunk_len(len, k - 1);
            let off = self.offset_of(gpa + s);
            let piece = data.subrange(s, s + n);
            let before = self.after_chunks(gpa, data, k - 1);
            let after = self.after_chunks(gpa, data, k);
            assert(after == overlay(before, off, piece));
            assert forall|p: int|
                0 <= p < self.bytes.len() && !self.touches(gpa, len, p) implies after[p]
                == self.bytes[p] by {
                if off <= p < off + n {
                    let i = s + (p - off);
                    assert(i / 0x1000 == k - 1);
                    assert(self.byte_offset(gpa, i) == p);
                    assert(self.touches(gpa, len, p));
                } else {
                    assert(after[p] == before[p]);
                }
            }
        }
    }

    /// A write changes neither the size of the window, nor the address
    /// fixup, nor any byte that it does not touch.
    pub proof fn lemma_write_keeps_the_rest(self, gpa: u64, data: Seq<u8>)
        ensures
            self.after_write(gpa, data).bytes.len() == self.bytes.len(),
            self.after_write(gpa, data).fix_from == self.fix_from,
            self.after_write(gpa, data).fix_by == self.fix_by,
            forall|p: int|
                0 <= p < self.bytes.len() && !self.touches(gpa, data.len() as int, p)
                    ==> #[trigger] self.after_write(gpa, data).bytes[p] == self.bytes[p],
    {
        self.lemma_chunks_keep_the_rest(gpa, data, chunk_count(data.len() as int));
    }

    /// A write that is not in range changes nothing.
    pub proof fn lemma_write_out_of_range(self, gpa: u64, data: Seq<u8>)
        requires
            !self.in_range(gpa, data.len() as int),
        ensures
            self.after_write(gpa, data) == self,
    {
    }

    /// What was written can be read back: after a write of `data` at `gpa`
    /// that lies in the window and lands apart, a read of as many bytes at
    /// `gpa` succeeds and yields `data`.
    pub proof fn lemma_write_then_read(self, gpa: u64, data: Seq<u8>)
        requires
            self.wf(),
            gpa + data.len() <= self.bytes.len(),
            self.bytes.len() <= u64::MAX,
            self.lands_apart(gpa, data),
        ensures
            self.in_range(gpa, data.len() as int),
            self.after_write(gpa, data).in_range(gpa, data.len() as int),
            self.after_write(gpa, data).bytes_at(gpa, data.len() as int) == data,
    {
        let len = data.len() as int;
        let after = self.after_write(gpa, data);
        self.lemma_in_range(gpa, len, 0);
        self.lemma_after_chunks(gpa, data, chunk_count(len));
        after.lemma_in_range(gpa, len, 0);
        assert forall|i: int| 0 <= i < len implies after.bytes_at(gpa, len)[i] == data[i] by {
            assert(after.byte_offset(gpa, i) == self.byte_offset(gpa, i));
        }
        assert(after.bytes_at(gpa, len) =~= data);
    }

    /// A write that stays below the threshold of the address fixup lands
    /// apart: there the offset of a byte is its address.
    pub proof fn lemma_lands_apart_below_fixup(self, gpa: u64, data: Seq<u8>)
        requires
            self.wf(),
            gpa + data.len() <= self.fix_from || self.fix_by == 0,
        ensures
            self.lands_apart(gpa, data),
    {
        assert forall|i: int, j: int|
            0 <= i < j < data.len() && self.byte_offset(gpa, i) == self.byte_offset(
                gpa,
                j,
            ) implies data[i] == data[j] by {
            assert(self.byte_offset(gpa, i) == gpa + i);
            assert(self.byte_offset(gpa, j) == gpa + j);
        }
    }
}

} // verus!
