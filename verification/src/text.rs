//! Byte-level text handling shared by the protocol and routing code:
//! substring search, splitting into lines and fields, trimming, and decimal
//! rendering of small numbers.
//!
//! Everything here works on raw bytes. The listings and names that the audio
//! tools exchange are ASCII in practice, and bytes can be indexed in constant
//! time.

use vstd::prelude::*;

verus! {

/// The texts that a list of byte vectors holds.
pub open spec fn texts(list: Seq<Vec<u8>>) -> Seq<Seq<u8>> {
    Seq::new(list.len(), |i: int| list[i]@)
}

/// `needle` stands in `haystack` starting at offset `at`.
pub open spec fn occurs_at(haystack: Seq<u8>, needle: Seq<u8>, at: int) -> bool {
    &&& 0 <= at
    &&& at + needle.len() <= haystack.len()
    &&& haystack.subrange(at, at + needle.len()) == needle
}

/// `needle` stands somewhere in `haystack`. The empty needle stands in every
/// haystack.
pub open spec fn has_substring(haystack: Seq<u8>, needle: Seq<u8>) -> bool {
    exists|at: int| occurs_at(haystack, needle, at)
}

/// Whether `needle` stands in `haystack` at offset `at`.
pub fn matches_at(haystack: &[u8], needle: &[u8], at: usize) -> (r: bool)
    ensures
        r == occurs_at(haystack@, needle@, at as int),
{
    if at > haystack.len() || needle.len() > haystack.len() - at {
        return false;
    }
    let mut k: usize = 0;
    while k < needle.len()
        invariant
            k <= needle.len(),
            at + needle.len() <= haystack.len(),
            forall|j: int| 0 <= j < k ==> haystack@[at + j] == needle@[j],
        decreases needle.len() - k,
    {
        if haystack[at + k] != needle[k] {
            proof {
                let window = haystack@.subrange(at as int, at + needle.len());
                assert(window[k as int] == haystack@[at + k]);
            }
            return false;
        }
        k += 1;
    }
    proof {
        assert(haystack@.subrange(at as int, at + needle.len()) =~= needle@);
    }
    true
}

/// Offset of the first place where `needle` stands in `haystack`, if any.
pub fn find(haystack: &[u8], needle: &[u8]) -> (r: Option<usize>)
    ensures
        match r {
            Some(at) => occurs_at(haystack@, needle@, at as int) && forall|j: int|
                0 <= j < at ==> !occurs_at(haystack@, needle@, j),
            None => !has_substring(haystack@, needle@),
        },
{
    if needle.len() > haystack.len() {
        return None;
    }
    let last: usize = haystack.len() - needle.len();
    let mut at: usize = 0;
    loop
        invariant
            at <= last,
            last == haystack.len() - needle.len(),
            needle.len() <= haystack.len(),
            forall|j: int| 0 <= j < at ==> !occurs_at(haystack@, needle@, j),
        decreases last - at,
    {
        if matches_at(haystack, needle, at) {
            return Some(at);
        }
        if at == last {
            return None;
        }
        at += 1;
    }
}

/// Whether `needle` stands somewhere in `haystack`.
pub fn contains(haystack: &[u8], needle: &[u8]) -> (r: bool)
    ensures
        r == has_substring(haystack@, needle@),
{
    find(haystack, needle).is_some()
}

/// Offset of the first `byte` in `s`, or the length of `s` when it holds none.
pub open spec fn index_of(s: Seq<u8>, byte: u8) -> int
    decreases s.len(),
{
    if s.len() == 0 || s[0] == byte {
        0
    } else {
        1 + index_of(s.drop_first(), byte)
    }
}

/// `index_of` is the one offset before which `byte` does not occur and at
/// which it does, or the text ends.
pub proof fn lemma_index_of(s: Seq<u8>, byte: u8, i: int)
    requires
        0 <= i <= s.len(),
        forall|k: int| 0 <= k < i ==> s[k] != byte,
        i == s.len() || s[i] == byte,
    ensures
        index_of(s, byte) == i,
    decreases i,
{
    if i > 0 {
        let rest = s.drop_first();
        assert(s[0] != byte);
        assert forall|k: int| 0 <= k < i - 1 implies rest[k] != byte by {
            assert(rest[k] == s[k + 1]);
        }
        lemma_index_of(rest, byte, i - 1);
    }
}

/// Offset of the first `byte` at or after `start`, or the length of `s` when
/// none follows or `start` lies behind the end.
pub fn position(s: &[u8], start: usize, byte: u8) -> (r: usize)
    ensures
        r <= s.len(),
        start <= s.len() ==> start <= r && r == start + index_of(
            s@.subrange(start as int, s.len() as int),
            byte,
        ),
        start > s.len() ==> r == s.len(),
{
    if start > s.len() {
        return s.len();
    }
    let mut r: usize = start;
    while r < s.len() && s[r] != byte
        invariant
            start <= r <= s.len(),
            forall|k: int| start <= k < r ==> s@[k] != byte,
        decreases s.len() - r,
    {
        r += 1;
    }
    proof {
        let tail = s@.subrange(start as int, s.len() as int);
        assert forall|k: int| 0 <= k < r - start implies tail[k] != byte by {
            assert(tail[k] == s@[start + k]);
        }
        lemma_index_of(tail, byte, r - start);
    }
    r
}

/// The bytes that count as blank space: the space itself and the control
/// characters from horizontal tab to carriage return.
pub open spec fn is_blank(b: u8) -> bool {
    b == 0x20 || (0x09 <= b && b <= 0x0d)
}

/// `s` without the blanks it starts with.
pub open spec fn trim_start(s: Seq<u8>) -> Seq<u8>
    decreases s.len(),
{
    if s.len() > 0 && is_blank(s[0]) {
        trim_start(s.drop_first())
    } else {
        s
    }
}

/// `s` without the blanks it ends with.
pub open spec fn trim_end(s: Seq<u8>) -> Seq<u8>
    decreases s.len(),
{
    if s.len() > 0 && is_blank(s.last()) {
        trim_end(s.drop_last())
    } else {
        s
    }
}

/// `s` without the blanks at either end.
pub open spec fn trimmed(s: Seq<u8>) -> Seq<u8> {
    trim_end(trim_start(s))
}

/// Whether `b` counts as blank space.
pub fn blank(b: u8) -> (r: bool)
    ensures
        r == is_blank(b),
{
    b == 0x20 || (0x09 <= b && b <= 0x0d)
}

/// The part of `s` between its leading and its trailing blanks.
pub fn trim(s: &[u8]) -> (r: &[u8])
    ensures
        r@ == trimmed(s@),
{
    let mut from: usize = 0;
    proof {
        assert(s@ =~= s@.subrange(0, s.len() as int));
    }
    while from < s.len() && blank(s[from])
        invariant
            from <= s.len(),
            trim_start(s@) == trim_start(s@.subrange(from as int, s.len() as int)),
        decreases s.len() - from,
    {
        proof {
            let here = s@.subrange(from as int, s.len() as int);
            assert(here[0] == s@[from as int]);
            assert(here.drop_first() =~= s@.subrange(from + 1, s.len() as int));
        }
        from += 1;
    }
    let ghost kept = s@.subrange(from as int, s.len() as int);
    proof {
        if from < s.len() {
            assert(kept[0] == s@[from as int]);
        }
        assert(trim_start(s@) == kept);
    }
    let mut to: usize = s.len();
    while to > from && blank(s[to - 1])
        invariant
            from <= to <= s.len(),
            trim_end(kept) == trim_end(s@.subrange(from as int, to as int)),
            kept == s@.subrange(from as int, s.len() as int),
        decreases to,
    {
        proof {
            let here = s@.subrange(from as int, to as int);
            assert(here.last() == s@[to - 1]);
            assert(here.drop_last() =~= s@.subrange(from as int, to - 1));
        }
        to -= 1;
    }
    proof {
        let here = s@.subrange(from as int, to as int);
        if to > from {
            assert(here.last() == s@[to - 1]);
        }
        assert(trim_end(here) == here);
    }
    vstd::slice::slice_subrange(s, from, to)
}

/// The decimal digits of `n` in ASCII, most significant first, without
/// leading zeros.
pub open spec fn decimal(n: nat) -> Seq<u8>
    decreases n,
{
    if n < 10 {
        seq![(0x30 + n) as u8]
    } else {
        decimal(n / 10).push((0x30 + n % 10) as u8)
    }
}

/// Renders `v` in decimal.
pub fn decimal_u8(v: u8) -> (r: Vec<u8>)
    ensures
        r@ == decimal(v as nat),
{
    let mut r: Vec<u8> = Vec::new();
    if v >= 100 {
        r.push(0x30 + v / 100);
    }
    if v >= 10 {
        r.push(0x30 + (v / 10) % 10);
    }
    r.push(0x30 + v % 10);
    proof {
        reveal_with_fuel(decimal, 3);
        assert(r@ =~= decimal(v as nat));
    }
    r
}

} // verus!
