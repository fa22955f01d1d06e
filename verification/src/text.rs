//! Text read out of guest memory, one byte or one 16-bit unit per character.

use vstd::prelude::*;
use vstd::slice::slice_subrange;
use vstd::string::StringExecFns;

verus! {

/// The characters that the bytes `b` stand for, each byte being the code point
/// of its character.
pub open spec fn latin1(b: Seq<u8>) -> Seq<char> {
    b.map_values(|x: u8| x as char)
}

/// Where the first zero byte of `b` at or after `from` is, or the length of
/// `b` if there is none.
pub open spec fn nul_index(b: Seq<u8>, from: int) -> int
    decreases b.len() - from,
{
    if from < 0 || from >= b.len() {
        b.len() as int
    } else if b[from] == 0 {
        from
    } else {
        nul_index(b, from + 1)
    }
}

/// The bytes of `b` before its first zero byte; all of `b` if it has none.
pub open spec fn until_nul(b: Seq<u8>) -> Seq<u8> {
    b.take(nul_index(b, 0))
}

/// `String::push`: appends the character `c` to `s`.
#[verifier::external_body]
pub(crate) fn push_char(s: &mut String, c: char)
    ensures
        final(s)@ == old(s)@.push(c),
{
    s.push(c)
}

/// The string whose characters are the bytes of `b`, each taken as a code point.
pub fn latin1_string(b: &[u8]) -> (s: String)
    ensures
        s@ == latin1(b@),
{
    let mut s = String::new();
    let mut i: usize = 0;
    while i < b.len()
        invariant
            i <= b.len(),
            s@ == latin1(b@.take(i as int)),
        decreases b.len() - i,
    {
        push_char(&mut s, b[i] as char);
        i = i + 1;
        assert(s@ =~= latin1(b@.take(i as int)));
    }
    assert(b@.take(b.len() as int) =~= b@);
    s
}

/// The text of a field that is padded with zero bytes: its bytes before the
/// first zero byte, each taken as a code point.
pub fn padded_string(b: &[u8]) -> (s: String)
    ensures
        s@ == latin1(until_nul(b@)),
{
    let mut end: usize = 0;
    while end < b.len() && b[end] != 0
        invariant
            end <= b.len(),
            nul_index(b@, 0) == nul_index(b@, end as int),
        decreases b.len() - end,
    {
        end = end + 1;
    }
    latin1_string(slice_subrange(b, 0, end))
}

/// Whether `a` and `b` are the same text.
pub fn str_eq(a: &str, b: &str) -> (r: bool)
    ensures
        r == (a@ == b@),
{
    let x = String::from_str(a);
    let y = String::from_str(b);
    x == y
}

} // verus!
