//! Character-sequence searching used by the model device: the model
//! compiler and the attribute/uniform resolution rules are phrased in
//! terms of whether a name occurs in a shader's source text.

use vstd::prelude::*;
use vstd::string::StrSliceExecFns;

verus! {

/// `needle` occurs in `hay` starting at position `i`.
pub open spec fn matches_at(hay: Seq<char>, needle: Seq<char>, i: int) -> bool {
    &&& 0 <= i
    &&& i + needle.len() <= hay.len()
    &&& forall|k: int| 0 <= k < needle.len() ==> hay[i + k] == #[trigger] needle[k]
}

/// `needle` occurs somewhere in `hay`.
pub open spec fn contains_seq(hay: Seq<char>, needle: Seq<char>) -> bool {
    exists|i: int| matches_at(hay, needle, i)
}

/// Compares `needle` against the characters of `hay` starting at `i`.
fn matches_at_exec(hay: &str, needle: &str, i: usize) -> (r: bool)
    requires
        i + needle@.len() <= hay@.len(),
    ensures
        r == matches_at(hay@, needle@, i as int),
{
    let h = hay.unicode_len();
    let n = needle.unicode_len();
    let mut j: usize = 0;
    while j < n
        invariant
            j <= n,
            h == hay@.len(),
            n == needle@.len(),
            i + n <= h,
            forall|k: int| 0 <= k < j ==> hay@[i + k] == #[trigger] needle@[k],
        decreases n - j,
    {
        if hay.get_char(i + j) != needle.get_char(j) {
            proof {
                assert(!matches_at(hay@, needle@, i as int)) by {
                    if matches_at(hay@, needle@, i as int) {
                        assert(hay@[i + j] == needle@[j as int]);
                    }
                }
            }
            return false;
        }
        j = j + 1;
    }
    true
}

/// Whether `needle` occurs anywhere in `hay`.
pub fn contains_str(hay: &str, needle: &str) -> (r: bool)
    ensures
        r == contains_seq(hay@, needle@),
{
    let h = hay.unicode_len();
    let n = needle.unicode_len();
    if n > h {
        proof {
            assert forall|k: int| !matches_at(hay@, needle@, k) by {}
        }
        return false;
    }
    let mut i: usize = 0;
    while i <= h - n
        invariant
            n <= h,
            h == hay@.len(),
            n == needle@.len(),
            i <= h - n + 1,
            forall|k: int| 0 <= k < i ==> !matches_at(hay@, needle@, k),
        decreases h - n + 1 - i,
    {
        if matches_at_exec(hay, needle, i) {
            return true;
        }
        i = i + 1;
    }
    proof {
        assert forall|k: int| !matches_at(hay@, needle@, k) by {
            if 0 <= k < i {
            }
        }
    }
    false
}

/// Whether two string slices hold the same characters.
pub fn str_eq(a: &str, b: &str) -> (r: bool)
    ensures
        r == (a@ == b@),
{
    let la = a.unicode_len();
    let lb = b.unicode_len();
    if la != lb {
        return false;
    }
    let m = matches_at_exec(a, b, 0);
    proof {
        if matches_at(a@, b@, 0) {
            assert(a@ =~= b@) by {
                assert forall|k: int| 0 <= k < b@.len() implies a@[k] == b@[k] by {
                    assert(a@[0 + k] == b@[k]);
                }
            }
        }
        if a@ == b@ {
            assert(matches_at(a@, b@, 0)) by {
                assert forall|k: int| 0 <= k < b@.len() implies a@[0 + k] == b@[k] by {}
            }
        }
    }
    m
}

} // verus!
