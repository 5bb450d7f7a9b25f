//! Substring search over character sequences.
//!
//! The dispatcher classifies a converter's failure description by whether it
//! carries a fixed signature, and its diagnostics are judged by which error
//! texts they carry. Both notions reduce to one spec predicate,
//! [`contains_seq`], with a verified executable search and the concatenation
//! lemmas the diagnostic proofs need.

use vstd::prelude::*;

verus! {

/// `needle` occurs in `hay` starting at position `i`.
pub open spec fn contains_at(hay: Seq<char>, i: int, needle: Seq<char>) -> bool {
    0 <= i && i + needle.len() <= hay.len() && hay.subrange(i, i + needle.len()) == needle
}

/// `needle` occurs somewhere in `hay`.
pub open spec fn contains_seq(hay: Seq<char>, needle: Seq<char>) -> bool {
    exists|i: int| contains_at(hay, i, needle)
}

/// Compares `needle` against `hay` at position `i`, character by character.
fn matches_at(hay: &str, i: usize, needle: &str, hay_len: usize, needle_len: usize) -> (r: bool)
    requires
        hay_len == hay@.len(),
        needle_len == needle@.len(),
        i + needle_len <= hay_len,
    ensures
        r == contains_at(hay@, i as int, needle@),
{
    let mut j: usize = 0;
    while j < needle_len
        invariant
            hay_len == hay@.len(),
            needle_len == needle@.len(),
            i + needle_len <= hay_len,
            j <= needle_len,
            forall|k: int| 0 <= k < j ==> hay@[i + k] == needle@[k],
        decreases needle_len - j,
    {
        if hay.get_char(i + j) != needle.get_char(j) {
            assert(hay@.subrange(i as int, i + needle@.len())[j as int] != needle@[j as int]);
            return false;
        }
        j = j + 1;
    }
    proof {
        assert(hay@.subrange(i as int, i + needle@.len()) =~= needle@);
    }
    true
}

/// Whether `needle` occurs in `hay`, by scanning every start position.
pub fn str_contains(hay: &str, needle: &str) -> (r: bool)
    ensures
        r == contains_seq(hay@, needle@),
{
    let hay_len = hay.unicode_len();
    let needle_len = needle.unicode_len();
    if needle_len == 0 {
        proof {
            assert(hay@.subrange(0, 0) =~= needle@);
            assert(contains_at(hay@, 0, needle@));
        }
        return true;
    }
    if needle_len > hay_len {
        proof {
            assert(forall|i: int| !contains_at(hay@, i, needle@));
        }
        return false;
    }
    let mut i: usize = 0;
    while i <= hay_len - needle_len
        invariant
            hay_len == hay@.len(),
            needle_len == needle@.len(),
            1 <= needle_len <= hay_len,
            i <= hay_len - needle_len + 1,
            forall|k: int| 0 <= k < i ==> !contains_at(hay@, k, needle@),
        decreases hay_len - needle_len - i + 1,
    {
        if matches_at(hay, i, needle, hay_len, needle_len) {
            return true;
        }
        i = i + 1;
    }
    proof {
        assert(forall|k: int| contains_at(hay@, k, needle@) ==> 0 <= k <= hay@.len() - needle@.len());
    }
    false
}

/// Every sequence contains itself.
pub proof fn lemma_contains_self(s: Seq<char>)
    ensures
        contains_seq(s, s),
{
    assert(s.subrange(0, s.len() as int) =~= s);
    assert(contains_at(s, 0, s));
}

/// An occurrence in the left half survives concatenation on the right.
pub proof fn lemma_contains_concat_left(a: Seq<char>, b: Seq<char>, needle: Seq<char>)
    requires
        contains_seq(a, needle),
    ensures
        contains_seq(a + b, needle),
{
    let i = choose|i: int| contains_at(a, i, needle);
    assert((a + b).subrange(i, i + needle.len() as int) =~= a.subrange(i, i + needle.len() as int));
    assert(contains_at(a + b, i, needle));
}

/// An occurrence in the right half survives concatenation on the left.
pub proof fn lemma_contains_concat_right(a: Seq<char>, b: Seq<char>, needle: Seq<char>)
    requires
        contains_seq(b, needle),
    ensures
        contains_seq(a + b, needle),
{
    let i = choose|i: int| contains_at(b, i, needle);
    let j = a.len() as int + i;
    assert((a + b).subrange(j, j + needle.len() as int) =~= b.subrange(i, i + needle.len() as int));
    assert(contains_at(a + b, j, needle));
}

} // verus!
