//! Finding the first of something: the least index that meets a condition,
//! and with it the first place at which one run of bytes lies in another.

use vstd::prelude::*;

verus! {

/// True where `i` is the least index from 0 on that meets `p`.
pub open spec fn is_least(p: spec_fn(int) -> bool, i: int) -> bool {
    &&& 0 <= i
    &&& p(i)
    &&& forall|j: int| 0 <= j < i ==> !#[trigger] p(j)
}

/// The least index from 0 on that meets `p`, if any index does.
pub open spec fn least(p: spec_fn(int) -> bool) -> Option<int> {
    if exists|i: int| 0 <= i && #[trigger] p(i) {
        Some(choose|i: int| is_least(p, i))
    } else {
        None
    }
}

/// An index that meets `p`, with none before it that does, is the least.
pub proof fn lemma_least_is(p: spec_fn(int) -> bool, i: int)
    requires
        is_least(p, i),
    ensures
        least(p) == Some(i),
{
    let c = choose|c: int| is_least(p, c);
    assert(is_least(p, c));
    if c < i {
        assert(!p(c));
    }
    if i < c {
        assert(!p(i));
    }
}

/// Where no index meets `p`, there is no least.
pub proof fn lemma_least_none(p: spec_fn(int) -> bool)
    requires
        forall|i: int| 0 <= i ==> !#[trigger] p(i),
    ensures
        least(p) is None,
{
}

/// Where some index meets `p`, there is a least one, and it does not lie
/// behind that index.
pub proof fn lemma_least_exists(p: spec_fn(int) -> bool, k: int)
    requires
        0 <= k,
        p(k),
    ensures
        least(p) is Some,
        is_least(p, least(p)->0),
        least(p)->0 <= k,
    decreases k,
{
    if exists|j: int| 0 <= j < k && #[trigger] p(j) {
        let j = choose|j: int| 0 <= j < k && #[trigger] p(j);
        lemma_least_exists(p, j);
    } else {
        assert(is_least(p, k));
        lemma_least_is(p, k);
    }
}

/// True where `needle` lies in `hay` at offset `i`.
pub open spec fn occurs_at(hay: Seq<u8>, needle: Seq<u8>, i: int) -> bool {
    &&& 0 <= i
    &&& i + needle.len() <= hay.len()
    &&& hay.subrange(i, i + needle.len()) == needle
}

/// True where `needle` lies somewhere in `hay`.
pub open spec fn occurs(hay: Seq<u8>, needle: Seq<u8>) -> bool {
    exists|i: int| occurs_at(hay, needle, i)
}

/// The condition "`needle` lies in `hay` here", as a function of the offset.
pub open spec fn occurrence(hay: Seq<u8>, needle: Seq<u8>) -> spec_fn(int) -> bool {
    |i: int| occurs_at(hay, needle, i)
}

/// The first offset at which `needle` lies in `hay`, if it lies there at all.
pub open spec fn first_occurrence(hay: Seq<u8>, needle: Seq<u8>) -> Option<int> {
    least(occurrence(hay, needle))
}

/// A run of bytes lies in another exactly where it has a first offset there.
pub proof fn lemma_occurs_iff_first(hay: Seq<u8>, needle: Seq<u8>)
    ensures
        occurs(hay, needle) <==> first_occurrence(hay, needle) is Some,
        first_occurrence(hay, needle) matches Some(i) ==> {
            &&& occurs_at(hay, needle, i)
            &&& forall|j: int| 0 <= j < i ==> !occurs_at(hay, needle, j)
        },
{
    let p = occurrence(hay, needle);
    if occurs(hay, needle) {
        let k = choose|k: int| occurs_at(hay, needle, k);
        assert(p(k));
        lemma_least_exists(p, k);
        let i = least(p)->0;
        assert forall|j: int| 0 <= j < i implies !occurs_at(hay, needle, j) by {
            assert(!p(j));
        }
    } else {
        assert forall|i: int| 0 <= i implies !#[trigger] p(i) by {
            assert(!occurs_at(hay, needle, i));
        }
        lemma_least_none(p);
    }
}

/// Says whether `needle` lies in `hay` at offset `i`. Where it would reach
/// past the end of `hay`, it does not.
pub fn matches_at(hay: &[u8], needle: &[u8], i: usize) -> (b: bool)
    ensures
        b == occurs_at(hay@, needle@, i as int),
{
    let n = needle.len();
    let h = hay.len();
    if i > h || n > h - i {
        return false;
    }
    let mut k: usize = 0;
    while k < n
        invariant
            k <= n,
            n == needle@.len(),
            h == hay@.len(),
            i + n <= h,
            forall|j: int| 0 <= j < k ==> hay@[i + j] == needle@[j],
        decreases n - k,
    {
        if hay[i + k] != needle[k] {
            proof {
                let window = hay@.subrange(i as int, i + n);
                assert(window[k as int] == hay@[i + k]);
            }
            return false;
        }
        k = k + 1;
    }
    assert(hay@.subrange(i as int, i + n) =~= needle@);
    true
}

/// Finds the first offset at which `needle` lies in `hay`. Nothing lies at
/// offset 0 of everything.
pub fn find(hay: &[u8], needle: &[u8]) -> (r: Option<usize>)
    ensures
        match r {
            Some(i) => {
                &&& first_occurrence(hay@, needle@) == Some(i as int)
                &&& occurs_at(hay@, needle@, i as int)
                &&& forall|j: int| 0 <= j < i ==> !occurs_at(hay@, needle@, j)
            },
            None => {
                &&& first_occurrence(hay@, needle@) is None
                &&& !occurs(hay@, needle@)
            },
        },
{
    let n = needle.len();
    let h = hay.len();
    if n > h {
        proof {
            lemma_least_none(occurrence(hay@, needle@));
        }
        return None;
    }
    let last = h - n;
    let mut i: usize = 0;
    while i <= last
        invariant
            i <= last + 1,
            n == needle@.len(),
            h == hay@.len(),
            last + n == h,
            forall|j: int| 0 <= j < i ==> !occurs_at(hay@, needle@, j),
        decreases last + 1 - i,
    {
        if matches_at(hay, needle, i) {
            proof {
                lemma_least_is(occurrence(hay@, needle@), i as int);
            }
            return Some(i);
        }
        assert(n > 0) by {
            if n == 0 {
                assert(hay@.subrange(i as int, i as int) =~= needle@);
            }
        }
        i = i + 1;
    }
    proof {
        lemma_least_none(occurrence(hay@, needle@));
    }
    None
}

/// Says whether `needle` lies somewhere in `hay`.
pub fn contains(hay: &[u8], needle: &[u8]) -> (b: bool)
    ensures
        b == occurs(hay@, needle@),
{
    find(hay, needle).is_some()
}

} // verus!
