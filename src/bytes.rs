//! Searching byte sequences for fixed patterns.
use vstd::prelude::*;

verus! {

/// `pat` stands in `hay` at offset `i`.
pub open spec fn occurs_at(hay: Seq<u8>, pat: Seq<u8>, i: int) -> bool {
    0 <= i && i + pat.len() <= hay.len() && hay.subrange(i, i + pat.len()) == pat
}

/// `pat` stands in `hay` at some offset of at least `from`.
pub open spec fn occurs_from(hay: Seq<u8>, pat: Seq<u8>, from: int) -> bool {
    exists|i: int| from <= i && #[trigger] occurs_at(hay, pat, i)
}

/// `hay` begins with `pat`.
pub open spec fn starts_with(hay: Seq<u8>, pat: Seq<u8>) -> bool {
    occurs_at(hay, pat, 0)
}

/// `hay` ends with `pat`.
pub open spec fn ends_with(hay: Seq<u8>, pat: Seq<u8>) -> bool {
    pat.len() <= hay.len() && occurs_at(hay, pat, hay.len() - pat.len())
}

/// Whether `pat` stands in `hay` at offset `i`.
pub fn matches_at(hay: &[u8], pat: &[u8], i: usize) -> (r: bool)
    ensures
        r == occurs_at(hay@, pat@, i as int),
{
    if i > hay.len() || pat.len() > hay.len() - i {
        return false;
    }
    let n: usize = hay.len();
    let mut j: usize = 0;
    while j < pat.len()
        invariant
            n == hay@.len(),
            i + pat@.len() <= hay@.len(),
            j <= pat@.len(),
            forall|k: int| 0 <= k < j ==> hay@[i + k] == pat@[k],
        decreases pat@.len() - j,
    {
        if hay[i + j] != pat[j] {
            assert(hay@.subrange(i as int, i + pat@.len())[j as int] != pat@[j as int]);
            return false;
        }
        j = j + 1;
    }
    assert(hay@.subrange(i as int, i + pat@.len()) =~= pat@);
    true
}

/// Whether `pat` stands in `hay` at some offset of at least `from`.
pub fn contains_from(hay: &[u8], pat: &[u8], from: usize) -> (r: bool)
    ensures
        r == occurs_from(hay@, pat@, from as int),
{
    let n: usize = hay.len();
    if from > n {
        proof {
            assert forall|k: int| from <= k implies !#[trigger] occurs_at(hay@, pat@, k) by {}
        }
        return false;
    }
    let mut i: usize = from;
    while i < n
        invariant
            n == hay@.len(),
            from <= i <= n,
            forall|k: int| from <= k < i ==> !occurs_at(hay@, pat@, k),
        decreases n - i,
    {
        if matches_at(hay, pat, i) {
            return true;
        }
        i = i + 1;
    }
    if matches_at(hay, pat, n) {
        return true;
    }
    proof {
        assert forall|k: int| from <= k implies !#[trigger] occurs_at(hay@, pat@, k) by {
            if k > n {
            }
        }
    }
    false
}

/// Whether `hay` begins with `pat`.
pub fn has_prefix(hay: &[u8], pat: &[u8]) -> (r: bool)
    ensures
        r == starts_with(hay@, pat@),
{
    matches_at(hay, pat, 0)
}

/// Whether `hay` ends with `pat`.
pub fn has_suffix(hay: &[u8], pat: &[u8]) -> (r: bool)
    ensures
        r == ends_with(hay@, pat@),
{
    if pat.len() > hay.len() {
        return false;
    }
    matches_at(hay, pat, hay.len() - pat.len())
}

/// A copy of `b` as a vector.
pub fn copy_bytes(b: &[u8]) -> (r: Vec<u8>)
    ensures
        r@ == b@,
{
    let mut out: Vec<u8> = Vec::new();
    let mut i: usize = 0;
    while i < b.len()
        invariant
            i <= b@.len(),
            out@ == b@.subrange(0, i as int),
        decreases b@.len() - i,
    {
        out.push(b[i]);
        i = i + 1;
    }
    assert(out@ =~= b@);
    out
}

} // verus!
