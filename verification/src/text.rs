//! A sequence-level model of substring occurrence, the ground the
//! renderer's laws stand on.

use vstd::prelude::*;

verus! {

/// True when `sub` occurs in `s` starting at position `i`.
pub open spec fn occurs_at(s: Seq<char>, sub: Seq<char>, i: int) -> bool {
    0 <= i && i + sub.len() <= s.len() && s.subrange(i, i + sub.len()) == sub
}

/// True when `sub` occurs somewhere in `s`.
pub open spec fn contains_seq(s: Seq<char>, sub: Seq<char>) -> bool {
    exists|i: int| occurs_at(s, sub, i)
}

/// True when every occurrence of `sub` in `s` stands apart from every
/// occurrence of `from`: the two never share a position.
pub open spec fn all_disjoint(s: Seq<char>, from: Seq<char>, sub: Seq<char>) -> bool {
    forall|i: int, j: int|
        occurs_at(s, sub, i) && occurs_at(s, from, j) ==> j + from.len() <= i || i + sub.len() <= j
}

/// A sequence that starts with `pre` contains `pre`.
pub proof fn lemma_contains_prefix(pre: Seq<char>, s: Seq<char>)
    ensures
        contains_seq(pre + s, pre),
{
    assert((pre + s).subrange(0, pre.len() as int) =~= pre);
    assert(occurs_at(pre + s, pre, 0));
}

/// Prepending text preserves containment.
pub proof fn lemma_contains_prepend(pre: Seq<char>, s: Seq<char>, sub: Seq<char>)
    requires
        contains_seq(s, sub),
    ensures
        contains_seq(pre + s, sub),
{
    let i = choose|i: int| occurs_at(s, sub, i);
    assert((pre + s).subrange(pre.len() + i, pre.len() + i + sub.len()) =~= s.subrange(
        i,
        i + sub.len(),
    ));
    assert(occurs_at(pre + s, sub, pre.len() + i));
}

/// An occurrence at position `j` of a suffix stands at `d + j` of the
/// whole.
pub proof fn lemma_occurs_in_skip(s: Seq<char>, sub: Seq<char>, d: int, j: int)
    requires
        0 <= d <= s.len(),
        occurs_at(s.skip(d), sub, j),
    ensures
        occurs_at(s, sub, d + j),
{
    assert(s.subrange(d + j, d + j + sub.len()) =~= s.skip(d).subrange(j, j + sub.len()));
}

/// An occurrence in a suffix is an occurrence in the whole.
pub proof fn lemma_contains_skip(s: Seq<char>, sub: Seq<char>, k: int)
    requires
        0 <= k <= s.len(),
        contains_seq(s.skip(k), sub),
    ensures
        contains_seq(s, sub),
{
    let i = choose|i: int| occurs_at(s.skip(k), sub, i);
    assert(s.subrange(k + i, k + i + sub.len()) =~= s.skip(k).subrange(i, i + sub.len()));
    assert(occurs_at(s, sub, k + i));
}

} // verus!
