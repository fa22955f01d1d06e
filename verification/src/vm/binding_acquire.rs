//! Finding the guest on the host: which process holds the hypervisor device,
//! and which of its mappings is the guest's memory. Running the tools and
//! talking to the driver is left to the caller; what their answers mean is
//! decided here.

use crate::vm::mlayout::{dec_value, parse_decimal};
use crate::vm::ProcessData;
use vstd::prelude::*;
use vstd::slice::slice_subrange;

verus! {

/// One mapping of a process: where it starts and how large it is.
#[derive(Clone, Copy, Debug, PartialEq, Eq, Structural)]
pub struct MemoryMapping {
    /// The first address of the mapping.
    pub start: u64,
    /// Its size in bytes.
    pub size: u64,
}

/// Where the run of decimal digits of `text` that starts at `from` ends.
pub open spec fn digits_end(text: Seq<u8>, from: int) -> int
    decreases text.len() - from,
{
    if from < 0 || from >= text.len() || !(0x30 <= text[from] <= 0x39) {
        from
    } else {
        digits_end(text, from + 1)
    }
}

/// Whether a process id stands at `at`: the letter `p`, one or more decimal
/// digits, and a line feed.
pub open spec fn pid_field_at(text: Seq<u8>, at: int) -> bool {
    &&& 0 <= at < text.len()
    &&& text[at] == 0x70
    &&& digits_end(text, at + 1) > at + 1
    &&& digits_end(text, at + 1) < text.len()
    &&& text[digits_end(text, at + 1)] == 0x0a
}

/// Where the first process id stands in `text` at or after `from`.
pub open spec fn first_pid_field(text: Seq<u8>, from: int) -> Option<int>
    decreases text.len() - from,
{
    if from < 0 || from >= text.len() {
        None
    } else if pid_field_at(text, from) {
        Some(from)
    } else {
        first_pid_field(text, from + 1)
    }
}

/// The process id that the listing `text` of the holders of a file names
/// first, or `None` if it names none or if the number does not fit in 64 bits.
pub open spec fn listed_pid(text: Seq<u8>) -> Option<u64> {
    match first_pid_field(text, 0) {
        None => None,
        Some(at) => dec_value(text.subrange(at + 1, digits_end(text, at + 1))),
    }
}

/// Finds the end of the run of decimal digits that starts at `from`.
fn scan_digits(text: &[u8], from: usize) -> (end: usize)
    requires
        from <= text.len(),
    ensures
        end == digits_end(text@, from as int),
        from <= end <= text.len(),
{
    let mut end: usize = from;
    while end < text.len() && 0x30 <= text[end] && text[end] <= 0x39
        invariant
            from <= end <= text.len(),
            digits_end(text@, from as int) == digits_end(text@, end as int),
        decreases text.len() - end,
    {
        end = end + 1;
    }
    end
}

/// Reads the process id out of the listing of the holders of the hypervisor
/// device, which names every holder on a line of its own as `p` and a number.
pub fn parse_kvm_user_pid(lsof_output: &[u8]) -> (r: Option<u64>)
    ensures
        r == listed_pid(lsof_output@),
{
    let mut at: usize = 0;
    while at < lsof_output.len()
        invariant
            at <= lsof_output.len(),
            first_pid_field(lsof_output@, 0) == first_pid_field(lsof_output@, at as int),
        decreases lsof_output.len() - at,
    {
        if lsof_output[at] == 0x70 {
            let end = scan_digits(lsof_output, at + 1);
            if end > at + 1 && end < lsof_output.len() && lsof_output[end] == 0x0a {
                return parse_decimal(slice_subrange(lsof_output, at + 1, end));
            }
        }
        at = at + 1;
    }
    None
}

/// The index of the first of the largest of `maps` from index `from` on, if
/// `best` is the first of the largest before.
pub open spec fn largest_from(maps: Seq<MemoryMapping>, from: int, best: int) -> int
    decreases maps.len() - from,
{
    if from < 0 || from >= maps.len() {
        best
    } else if maps[from].size > maps[best].size {
        largest_from(maps, from + 1, from)
    } else {
        largest_from(maps, from + 1, best)
    }
}

/// The first of the largest of `maps` is no smaller than any of them, and
/// larger than all that stand before it.
pub proof fn lemma_largest_from(maps: Seq<MemoryMapping>, from: int, best: int)
    requires
        0 <= best < from <= maps.len(),
        forall|i: int| 0 <= i < from ==> (#[trigger] maps[i]).size <= maps[best].size,
        forall|i: int| 0 <= i < best ==> (#[trigger] maps[i]).size < maps[best].size,
    ensures
        0 <= largest_from(maps, from, best) < maps.len(),
        forall|i: int|
            0 <= i < maps.len() ==> (#[trigger] maps[i]).size <= maps[largest_from(
                maps,
                from,
                best,
            )].size,
        forall|i: int|
            0 <= i < largest_from(maps, from, best) ==> (#[trigger] maps[i]).size < maps[largest_from(
                maps,
                from,
                best,
            )].size,
    decreases maps.len() - from,
{
    if from < maps.len() {
        if maps[from].size > maps[best].size {
            lemma_largest_from(maps, from + 1, from);
        } else {
            lemma_largest_from(maps, from + 1, best);
        }
    }
}

/// Where the guest's memory is in the process `pid`: its largest mapping, the
/// first of them if several are as large. `None` if the process has no
/// mappings.
pub fn create_process_data(pid: u64, maps: &Vec<MemoryMapping>) -> (r: Option<ProcessData>)
    ensures
        maps@.len() == 0 ==> r is None,
        maps@.len() > 0 ==> r == Some(
            ProcessData {
                maps_start: maps@[largest_from(maps@, 1, 0)].start,
                maps_size: maps@[largest_from(maps@, 1, 0)].size,
                pid: pid as i32,
            },
        ),
{
    if maps.len() == 0 {
        return None;
    }
    let mut best: usize = 0;
    let mut i: usize = 1;
    while i < maps.len()
        invariant
            0 <= best < i <= maps.len(),
            largest_from(maps@, 1, 0) == largest_from(maps@, i as int, best as int),
        decreases maps.len() - i,
    {
        if maps[i].size > maps[best].size {
            best = i;
        }
        i = i + 1;
    }
    Some(
        ProcessData {
            maps_start: maps[best].start,
            maps_size: maps[best].size,
            pid: #[verifier::truncate]
            (pid as i32),
        },
    )
}

} // verus!
