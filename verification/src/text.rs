//! Comparisons and searches on the bytes of text.

use vstd::prelude::*;
use vstd::string::*;
use vstd::utf8::*;

verus! {

/// Whether `needle` stands in `hay` at offset `at`.
pub open spec fn occurs_at(needle: Seq<u8>, hay: Seq<u8>, at: int) -> bool {
    0 <= at && at + needle.len() <= hay.len() && hay.subrange(at, at + needle.len()) == needle
}

/// Whether `needle` stands somewhere in `hay`.
pub open spec fn occurs_in(needle: Seq<u8>, hay: Seq<u8>) -> bool {
    exists|at: int| occurs_at(needle, hay, at)
}

/// Whether the text `hay` holds the text `needle`, both taken as UTF-8.
pub open spec fn text_contains(hay: Seq<char>, needle: Seq<char>) -> bool {
    occurs_in(encode_utf8(needle), encode_utf8(hay))
}

/// The offset of the first `.` among `bytes`, or their number where there is none.
pub open spec fn first_dot(bytes: Seq<u8>) -> int
    decreases bytes.len(),
{
    if bytes.len() == 0 {
        0
    } else if bytes[0] == 46u8 {
        0
    } else {
        1 + first_dot(bytes.subrange(1, bytes.len() as int))
    }
}

/// `first_dot` is the least offset that holds a `.`, and the length where none does.
pub proof fn lemma_first_dot(bytes: Seq<u8>)
    ensures
        0 <= first_dot(bytes) <= bytes.len(),
        forall|k: int| 0 <= k < first_dot(bytes) ==> bytes[k] != 46u8,
        first_dot(bytes) < bytes.len() ==> bytes[first_dot(bytes)] == 46u8,
    decreases bytes.len(),
{
    if bytes.len() != 0 && bytes[0] != 46u8 {
        let rest = bytes.subrange(1, bytes.len() as int);
        lemma_first_dot(rest);
        assert forall|k: int| 0 <= k < first_dot(bytes) implies bytes[k] != 46u8 by {
            if k > 0 {
                assert(rest[k - 1] == bytes[k]);
            }
        }
        if first_dot(bytes) < bytes.len() {
            assert(rest[first_dot(rest)] == bytes[first_dot(bytes)]);
        }
    }
}

/// An offset that holds the first `.` is `first_dot`.
pub proof fn lemma_first_dot_unique(bytes: Seq<u8>, at: int)
    requires
        0 <= at <= bytes.len(),
        forall|k: int| 0 <= k < at ==> bytes[k] != 46u8,
        at < bytes.len() ==> bytes[at] == 46u8,
    ensures
        first_dot(bytes) == at,
{
    lemma_first_dot(bytes);
    let d = first_dot(bytes);
    if d < at {
        assert(bytes[d] == 46u8);
    } else if at < d {
        assert(bytes[at] == 46u8);
    }
}

/// Whether two byte slices hold the same bytes.
pub fn bytes_eq(a: &[u8], b: &[u8]) -> (same: bool)
    ensures
        same == (a@ == b@),
{
    if a.len() != b.len() {
        return false;
    }
    let mut i: usize = 0;
    while i < a.len()
        invariant
            a@.len() == b@.len(),
            i <= a@.len(),
            forall|k: int| 0 <= k < i ==> a@[k] == b@[k],
        decreases a@.len() - i,
    {
        if a[i] != b[i] {
            return false;
        }
        i += 1;
    }
    proof {
        assert(a@ =~= b@);
    }
    true
}

/// Whether two texts are the same.
pub fn str_eq(a: &str, b: &str) -> (same: bool)
    ensures
        same == (a@ == b@),
{
    let same = bytes_eq(a.as_bytes(), b.as_bytes());
    proof {
        encode_utf8_decode_utf8(a@);
        encode_utf8_decode_utf8(b@);
    }
    same
}

/// Whether `needle` stands in `hay` at offset `at`.
fn matches_at(hay: &[u8], needle: &[u8], at: usize) -> (found: bool)
    requires
        at + needle@.len() <= hay@.len(),
    ensures
        found == occurs_at(needle@, hay@, at as int),
{
    let total: usize = hay.len();
    let mut i: usize = 0;
    while i < needle.len()
        invariant
            at + needle@.len() <= hay@.len(),
            hay@.len() == total,
            i <= needle@.len(),
            forall|k: int| 0 <= k < i ==> hay@[at + k] == needle@[k],
        decreases needle@.len() - i,
    {
        if hay[at + i] != needle[i] {
            proof {
                let window = hay@.subrange(at as int, at + needle@.len());
                assert(window[i as int] == hay@[at + i]);
            }
            return false;
        }
        i += 1;
    }
    proof {
        assert(hay@.subrange(at as int, at + needle@.len()) =~= needle@);
    }
    true
}

/// Whether `needle` stands somewhere in `hay`.
pub fn bytes_contain(hay: &[u8], needle: &[u8]) -> (found: bool)
    ensures
        found == occurs_in(needle@, hay@),
{
    if needle.len() > hay.len() {
        return false;
    }
    let last: usize = hay.len() - needle.len();
    let mut at: usize = 0;
    while at <= last
        invariant
            needle@.len() <= hay@.len(),
            last == hay@.len() - needle@.len(),
            at <= last,
            forall|k: int| 0 <= k < at ==> !occurs_at(needle@, hay@, k),
        decreases last - at,
    {
        if matches_at(hay, needle, at) {
            return true;
        }
        if at == last {
            return false;
        }
        at += 1;
    }
    false
}

/// Whether the text `hay` holds the text `needle`.
pub fn str_contains(hay: &str, needle: &str) -> (found: bool)
    ensures
        found == text_contains(hay@, needle@),
{
    bytes_contain(hay.as_bytes(), needle.as_bytes())
}

/// The offset in bytes of the first `.` in `s`, or the length of `s` in bytes
/// where it holds none.
pub fn index_of_dot(s: &str) -> (at: usize)
    ensures
        at == first_dot(encode_utf8(s@)),
{
    let bytes = s.as_bytes();
    let mut i: usize = 0;
    while i < bytes.len()
        invariant
            bytes@ == encode_utf8(s@),
            i <= bytes@.len(),
            forall|k: int| 0 <= k < i ==> bytes@[k] != 46u8,
        decreases bytes@.len() - i,
    {
        if bytes[i] == 46u8 {
            proof {
                lemma_first_dot_unique(bytes@, i as int);
            }
            return i;
        }
        i += 1;
    }
    proof {
        lemma_first_dot_unique(bytes@, i as int);
    }
    i
}

} // verus!
