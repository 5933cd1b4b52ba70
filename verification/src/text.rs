//! Verified string primitives: character-wise equality of string slices and
//! substring containment, the relation behind literal-mode matching.
use vstd::prelude::*;
use vstd::string::StrSliceExecFns;

verus! {

/// `needle` occurs at position `i` of `hay`.
pub open spec fn contains_at(hay: Seq<char>, needle: Seq<char>, i: int) -> bool {
    0 <= i && i + needle.len() <= hay.len() && hay.subrange(i, i + needle.len()) == needle
}

/// `needle` occurs somewhere in `hay` as a contiguous subsequence.
/// The empty needle occurs in every string, at position 0.
pub open spec fn contains_seq(hay: Seq<char>, needle: Seq<char>) -> bool {
    exists|i: int| contains_at(hay, needle, i)
}

/// Character-wise equality of two string slices.
pub fn str_eq(a: &str, b: &str) -> (r: bool)
    ensures
        r == (a@ == b@),
{
    let n = a.unicode_len();
    if n != b.unicode_len() {
        assert(a@ != b@);
        return false;
    }
    for i in 0..n
        invariant
            n == a@.len() && n == b@.len(),
            forall|j: int| 0 <= j < i ==> a@[j] == b@[j],
    {
        if a.get_char(i) != b.get_char(i) {
            assert(a@ != b@);
            return false;
        }
    }
    assert(a@ =~= b@);
    true
}

/// Substring containment, the predicate of literal-mode matching.
pub fn contains_str(hay: &str, needle: &str) -> (r: bool)
    ensures
        r == contains_seq(hay@, needle@),
{
    let n = hay.unicode_len();
    let m = needle.unicode_len();
    if m == 0 {
        assert(hay@.subrange(0, 0) =~= needle@);
        assert(contains_at(hay@, needle@, 0));
        return true;
    }
    if m > n {
        assert(!contains_seq(hay@, needle@));
        return false;
    }
    for i in 0..(n - m) + 1
        invariant
            0 < m <= n && n == hay@.len() && m == needle@.len(),
            forall|j: int| 0 <= j < i ==> !contains_at(hay@, needle@, j),
    {
        let window = hay.substring_char(i, i + m);
        if str_eq(window, needle) {
            assert(contains_at(hay@, needle@, i as int));
            return true;
        }
    }
    assert(forall|j: int| !contains_at(hay@, needle@, j));
    false
}

} // verus!
