//! Searching a run of bytes: for an exact needle, and for a signature, a hex
//! string in which `??` stands for any byte.

use crate::text::push_char;
use crate::vm::VMBinding;
use memmem::Searcher;
use vstd::prelude::*;
use vstd::slice::slice_subrange;
use vstd::string::is_ascii;
use vstd::string::StrSliceExecFns;
use vstd::string::StringExecFns;
use vstd::string::StringSliceAdditionalSpecFns;

verus! {

/// Why a regular expression was not compiled.
#[verifier::external_type_specification]
#[verifier::external_body]
pub struct ExRegexError(regex::Error);

/// Whether the regular expression engine compiles `pattern`.
pub uninterp spec fn regex_accepts(pattern: Seq<char>) -> bool;

/// Where the successive matches of `pattern`, leftmost first and not
/// overlapping, start in `haystack`.
pub uninterp spec fn regex_match_starts(pattern: Seq<char>, haystack: Seq<u8>) -> Seq<usize>;

/// `regex::bytes::Regex::new` and, on what it compiled,
/// `regex::bytes::Regex::find_iter`: compiles `pattern` and collects the start
/// of every match in `haystack`. Whether the pattern compiles depends on the
/// pattern alone, and the matches on the pattern and the haystack alone.
#[verifier::external_body]
fn regex_find_starts(pattern: &str, haystack: &[u8]) -> (r: Result<Vec<usize>, regex::Error>)
    ensures
        r is Ok <==> regex_accepts(pattern@),
        r is Ok ==> r.unwrap()@ == regex_match_starts(pattern@, haystack@),
{
    match regex::bytes::Regex::new(pattern) {
        Ok(re) => Ok(re.find_iter(haystack).map(|m| m.start()).collect()),
        Err(e) => Err(e),
    }
}

/// `ToString::to_string` on a `regex::Error`: the message of the error.
/// Nothing is claimed of its text.
#[verifier::external_body]
fn regex_error_text(e: &regex::Error) -> (s: String) {
    e.to_string()
}

/// Whether `needle` occurs in `haystack` at index `at`.
pub open spec fn occurs_at(haystack: Seq<u8>, needle: Seq<u8>, at: int) -> bool {
    &&& 0 <= at
    &&& at + needle.len() <= haystack.len()
    &&& haystack.subrange(at, at + needle.len()) == needle
}

/// Where `needle` first occurs in `haystack` at or after `from`.
pub open spec fn first_match(haystack: Seq<u8>, needle: Seq<u8>, from: int) -> Option<int>
    decreases haystack.len() - from,
{
    if from < 0 || from + needle.len() > haystack.len() {
        None
    } else if occurs_at(haystack, needle, from) {
        Some(from)
    } else if from >= haystack.len() {
        None
    } else {
        first_match(haystack, needle, from + 1)
    }
}

/// `memmem::TwoWaySearcher::new` and `Searcher::search_in`: the start of the
/// first occurrence of `needle` in `haystack`, or `None` if there is none. An
/// empty needle occurs at the start.
#[verifier::external_body]
fn two_way_search(haystack: &[u8], needle: &[u8]) -> (r: Option<usize>)
    ensures
        match r {
            Some(i) => first_match(haystack@, needle@, 0) == Some(i as int),
            None => first_match(haystack@, needle@, 0) is None,
        },
{
    memmem::TwoWaySearcher::new(needle).search_in(haystack)
}

/// What `first_match` finds is an occurrence at or after `from`, and there is
/// none before it.
pub proof fn lemma_first_match(haystack: Seq<u8>, needle: Seq<u8>, from: int)
    requires
        0 <= from,
    ensures
        match first_match(haystack, needle, from) {
            Some(i) => {
                &&& from <= i
                &&& occurs_at(haystack, needle, i)
                &&& forall|j: int| from <= j < i ==> !#[trigger] occurs_at(haystack, needle, j)
            },
            None => forall|j: int| from <= j ==> !#[trigger] occurs_at(haystack, needle, j),
        },
    decreases haystack.len() - from,
{
    if from + needle.len() <= haystack.len() && !occurs_at(haystack, needle, from) {
        if from >= haystack.len() {
            assert(haystack.subrange(from, from + needle.len()) =~= needle);
        } else {
            lemma_first_match(haystack, needle, from + 1);
        }
    }
}

/// Searching the rest of a haystack finds what searching all of it from there
/// on finds.
proof fn lemma_first_match_skip(haystack: Seq<u8>, needle: Seq<u8>, base: int, from: int)
    requires
        0 <= base <= haystack.len(),
        0 <= from,
    ensures
        first_match(haystack.skip(base), needle, from) == match first_match(
            haystack,
            needle,
            base + from,
        ) {
            Some(i) => Some(i - base),
            None => None,
        },
    decreases haystack.len() - base - from,
{
    let rest = haystack.skip(base);
    if from + needle.len() <= rest.len() {
        assert(rest.subrange(from, from + needle.len()) =~= haystack.subrange(
            base + from,
            base + from + needle.len(),
        ));
        if !occurs_at(rest, needle, from) && from < rest.len() {
            lemma_first_match_skip(haystack, needle, base, from + 1);
        }
    }
}

/// The starts of the occurrences of `needle` in `haystack` at or after `from`
/// that do not overlap, at most `max` of them.
pub open spec fn all_matches(haystack: Seq<u8>, needle: Seq<u8>, from: int, max: Option<int>) -> Seq<
    usize,
>
    decreases haystack.len() - from, max.unwrap_or(0),
{
    if from < 0 || (needle.len() == 0 && max is None) || (max is Some && max.unwrap() <= 0) {
        Seq::empty()
    } else {
        match first_match(haystack, needle, from) {
            None => Seq::empty(),
            Some(offset) => if max == Some(1int) || offset < from || offset + needle.len()
                > haystack.len() {
                seq![offset as usize]
            } else {
                seq![offset as usize] + all_matches(
                    haystack,
                    needle,
                    offset + needle.len(),
                    match max {
                        Some(m) => Some(m - 1),
                        None => None,
                    },
                )
            },
        }
    }
}

/// Cuts `s` into pieces of `n` characters; the last may be shorter.
pub fn str_chunks<'a>(s: &'a str, n: usize) -> (r: Vec<&'a str>)
    requires
        is_ascii(s),
        n > 0,
    ensures
        r@.len() == (s@.len() + n - 1) / (n as int),
        forall|i: int|
            0 <= i < r@.len() ==> (#[trigger] r@[i])@ == s@.subrange(
                i * n,
                if (i + 1) * n < s@.len() {
                    (i + 1) * n
                } else {
                    s@.len() as int
                },
            ),
{
    let len = s.unicode_len();
    let mut out: Vec<&'a str> = Vec::new();
    let mut at: usize = 0;
    let ghost mut kn: int = 0;
    assert(0 * n == 0);
    while at < len
        invariant
            is_ascii(s),
            n > 0,
            len == s@.len(),
            at <= len,
            kn == out@.len() * n,
            at == if kn < len {
                kn
            } else {
                len as int
            },
            out@.len() > 0 ==> kn - n < len,
            forall|i: int|
                0 <= i < out@.len() ==> (#[trigger] out@[i])@ == s@.subrange(
                    i * n,
                    if (i + 1) * n < s@.len() {
                        (i + 1) * n
                    } else {
                        s@.len() as int
                    },
                ),
        decreases len - at,
    {
        let end: usize = if len - at < n {
            len
        } else {
            at + n
        };
        let ghost k = out@.len() as int;
        assert((k + 1) * n == k * n + n) by (nonlinear_arith);
        out.push(s.substring_ascii(at, end));
        at = end;
        proof {
            kn = kn + n;
        }
    }
    proof {
        let k = out@.len() as int;
        if k == 0 {
            assert(len == 0);
            assert((0 + n - 1) / (n as int) == 0) by (nonlinear_arith)
                requires
                    n > 0,
            ;
        } else {
            assert(k == (len + n - 1) / (n as int)) by (nonlinear_arith)
                requires
                    n > 0,
                    k > 0,
                    k * n - n < len <= k * n,
            ;
        }
    }
    out
}

/// What is wrong with pair `k` of the bytes of a signature: 1 if the pair is
/// not two ASCII characters, 2 if just one of the two is a question mark,
/// 0 if the pair is well formed.
pub open spec fn pair_fault(needle: Seq<u8>, k: int) -> int {
    if 2 * k + 1 >= needle.len() || needle[2 * k] >= 0x80 || needle[2 * k + 1] >= 0x80 {
        1
    } else if (needle[2 * k] == 0x3f) != (needle[2 * k + 1] == 0x3f) {
        2
    } else {
        0
    }
}

/// The fault of the first pair from pair `k` on that has one, or 0 if all
/// pairs are well formed.
pub open spec fn signature_fault(needle: Seq<u8>, k: int) -> int
    decreases needle.len() - 2 * k,
{
    if k < 0 || 2 * k >= needle.len() {
        0
    } else if pair_fault(needle, k) != 0 {
        pair_fault(needle, k)
    } else {
        signature_fault(needle, k + 1)
    }
}

/// What pair `k` of a signature becomes in the regular expression: a dot for
/// a wildcard, else the byte in hexadecimal escape.
pub open spec fn pair_pattern(needle: Seq<u8>, k: int) -> Seq<char> {
    if needle[2 * k] == 0x3f && needle[2 * k + 1] == 0x3f {
        seq!['.']
    } else {
        seq!['\\', 'x', needle[2 * k] as char, needle[2 * k + 1] as char]
    }
}

/// What the first `k` pairs of a signature become.
pub open spec fn pairs_pattern(needle: Seq<u8>, k: int) -> Seq<char>
    decreases k,
{
    if k <= 0 {
        Seq::empty()
    } else {
        pairs_pattern(needle, k - 1) + pair_pattern(needle, k - 1)
    }
}

/// The regular expression of a signature: its pairs in a group in which
/// a pattern stands for bytes, not for characters.
pub open spec fn signature_regex(needle: Seq<u8>) -> Seq<char> {
    seq!['(', '?', '-', 'u', ':'] + pairs_pattern(needle, needle.len() as int / 2) + seq![')']
}

/// The text of the error for a signature whose fault is `fault`.
pub open spec fn fault_text(fault: int) -> Seq<char> {
    if fault == 1 {
        "input needle_string without even length"@
    } else {
        "needle_string has wildcards of uneven length"@
    }
}

/// Turns a signature into a regular expression over bytes. The signature is
/// read two characters at a time: `??` stands for any byte, two other
/// characters for the byte that they spell in hexadecimal. It is rejected if
/// its length is odd, if it holds a character that is not ASCII, or if just
/// one character of a pair is a question mark; the first pair at fault
/// decides the error.
pub fn compile_signature(needle_string: &str) -> (r: Result<String, String>)
    ensures
        r is Ok <==> signature_fault(needle_string.spec_bytes(), 0) == 0,
        r is Ok ==> r.unwrap()@ == signature_regex(needle_string.spec_bytes()),
        r is Err ==> r.unwrap_err()@ == fault_text(signature_fault(needle_string.spec_bytes(), 0)),
{
    let needle = needle_string.as_bytes();
    let mut restr = String::from_str("(?-u:");
    proof {
        reveal_strlit("(?-u:");
        assert(restr@ =~= seq!['(', '?', '-', 'u', ':'] + pairs_pattern(needle@, 0));
    }
    let mut k: usize = 0;
    while 2 * k < needle.len()
        invariant
            2 * k <= needle.len() + 1,
            needle@ == needle_string.spec_bytes(),
            signature_fault(needle@, 0) == signature_fault(needle@, k as int),
            restr@ == seq!['(', '?', '-', 'u', ':'] + pairs_pattern(needle@, k as int),
            2 * k >= needle.len() ==> 2 * k == needle.len(),
        decreases needle.len() - 2 * k,
    {
        assert(signature_fault(needle@, k as int) == if pair_fault(needle@, k as int) != 0 {
            pair_fault(needle@, k as int)
        } else {
            signature_fault(needle@, k as int + 1)
        });
        if 2 * k + 1 >= needle.len() || needle[2 * k] >= 0x80 || needle[2 * k + 1] >= 0x80 {
            return Err(String::from_str("input needle_string without even length"));
        }
        let first = needle[2 * k];
        let second = needle[2 * k + 1];
        let qm_present = first == 0x3f || second == 0x3f;
        let wildcard = first == 0x3f && second == 0x3f;
        if qm_present && !wildcard {
            return Err(String::from_str("needle_string has wildcards of uneven length"));
        }
        let ghost before = restr@;
        if wildcard {
            push_char(&mut restr, '.');
        } else {
            push_char(&mut restr, '\\');
            push_char(&mut restr, 'x');
            push_char(&mut restr, first as char);
            push_char(&mut restr, second as char);
        }
        proof {
            assert(restr@ =~= before + pair_pattern(needle@, k as int));
            assert(restr@ =~= seq!['(', '?', '-', 'u', ':'] + pairs_pattern(
                needle@,
                k as int + 1,
            ));
        }
        k = k + 1;
    }
    push_char(&mut restr, ')');
    proof {
        assert(k as int == needle@.len() as int / 2);
        assert(restr@ =~= signature_regex(needle@));
    }
    Ok(restr)
}

/// `max` as a number of matches still to find.
pub open spec fn match_limit(max: Option<usize>) -> Option<int> {
    match max {
        Some(m) => Some(m as int),
        None => None,
    }
}

impl VMBinding {
    /// Finds the first occurrence of `needle` in `haystack`.
    pub fn memmem(haystack: &[u8], needle: &[u8]) -> (r: Option<usize>)
        ensures
            match r {
                Some(i) => first_match(haystack@, needle@, 0) == Some(i as int),
                None => first_match(haystack@, needle@, 0) is None,
            },
    {
        two_way_search(haystack, needle)
    }

    /// Finds where the signature `needle_string` matches in `haystack`. The
    /// signature is compiled as `compile_signature` says and handed to the
    /// regular expression engine; a wildcard is a dot of that engine. An error
    /// comes back where the signature is at fault or where the engine refuses
    /// what was compiled from it.
    pub fn pmemmem(haystack: &[u8], needle_string: &str) -> (r: Result<Vec<usize>, String>)
        ensures
            r is Ok <==> signature_fault(needle_string.spec_bytes(), 0) == 0 && regex_accepts(
                signature_regex(needle_string.spec_bytes()),
            ),
            r is Ok ==> r.unwrap()@ == regex_match_starts(
                signature_regex(needle_string.spec_bytes()),
                haystack@,
            ),
            signature_fault(needle_string.spec_bytes(), 0) != 0 ==> r.unwrap_err()@ == fault_text(
                signature_fault(needle_string.spec_bytes(), 0),
            ),
    {
        let restr = match compile_signature(needle_string) {
            Ok(p) => p,
            Err(e) => {
                return Err(e);
            },
        };
        match regex_find_starts(restr.as_str(), haystack) {
            Ok(starts) => Ok(starts),
            Err(e) => Err(regex_error_text(&e)),
        }
    }

    /// Finds the occurrences of `needle` in `haystack` from the left, each
    /// search starting behind the occurrence before, and stops after `max_opt`
    /// of them if a limit is given. A limit of zero is not a limit, and an
    /// empty needle needs one, or there would be no end of occurrences.
    pub fn memmemn(haystack: &[u8], needle: &[u8], max_opt: Option<usize>) -> (r: Vec<usize>)
        requires
            max_opt != Some(0usize),
            needle@.len() > 0 || max_opt is Some,
        ensures
            r@ == all_matches(haystack@, needle@, 0, match_limit(max_opt)),
    {
        let mut res: Vec<usize> = Vec::new();
        let mut base: usize = 0;
        let mut left: Option<usize> = max_opt;
        loop
            invariant
                base <= haystack.len(),
                left != Some(0usize),
                needle@.len() > 0 || left is Some,
                res@ + all_matches(haystack@, needle@, base as int, match_limit(left))
                    == all_matches(haystack@, needle@, 0, match_limit(max_opt)),
            decreases haystack.len() - base, left.unwrap_or(0),
        {
            let ghost rest_matches = all_matches(
                haystack@,
                needle@,
                base as int,
                match_limit(left),
            );
            let rest = slice_subrange(haystack, base, haystack.len());
            proof {
                lemma_first_match_skip(haystack@, needle@, base as int, 0);
                lemma_first_match(haystack@, needle@, base as int);
            }
            match two_way_search(rest, needle) {
                None => {
                    assert(res@ + rest_matches =~= res@);
                    return res;
                },
                Some(off) => {
                    let offset: usize = base + off;
                    let ghost before = res@;
                    res.push(offset);
                    match left {
                        Some(m) => {
                            if m == 1 {
                                assert(res@ =~= before + rest_matches);
                                return res;
                            }
                            left = Some((m - 1) as usize);
                        },
                        None => {},
                    }
                    base = offset + needle.len();
                    proof {
                        let after = all_matches(
                            haystack@,
                            needle@,
                            base as int,
                            match_limit(left),
                        );
                        assert(rest_matches == seq![offset] + after);
                        assert(res@ + after =~= before + (seq![offset] + after));
                    }
                },
            }
        }
    }
}

} // verus!
