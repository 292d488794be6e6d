//! Counting the entries of a sequence that satisfy a predicate.

use vstd::prelude::*;

verus! {

/// The number of entries of `s` that satisfy `p`.
pub open spec fn count_where<T>(s: Seq<T>, p: spec_fn(T) -> bool) -> nat
    decreases s.len(),
{
    if s.len() == 0 {
        0
    } else {
        count_where(s.drop_last(), p) + if p(s.last()) {
            1nat
        } else {
            0nat
        }
    }
}

/// Appending an entry adds one to the count if the entry satisfies the
/// predicate and nothing otherwise.
pub proof fn lemma_count_push<T>(s: Seq<T>, v: T, p: spec_fn(T) -> bool)
    ensures
        count_where(s.push(v), p) == count_where(s, p) + if p(v) {
            1nat
        } else {
            0nat
        },
{
    assert(s.push(v).drop_last() =~= s);
}

/// Replacing an entry takes the old entry out of the count and puts the new
/// one in.
pub proof fn lemma_count_update<T>(s: Seq<T>, i: int, v: T, p: spec_fn(T) -> bool)
    requires
        0 <= i < s.len(),
    ensures
        count_where(s.update(i, v), p) + (if p(s[i]) {
            1nat
        } else {
            0nat
        }) == count_where(s, p) + (if p(v) {
            1nat
        } else {
            0nat
        }),
    decreases s.len(),
{
    if i == s.len() - 1 {
        assert(s.update(i, v).drop_last() =~= s.drop_last());
    } else {
        assert(s.update(i, v).drop_last() =~= s.drop_last().update(i, v));
        lemma_count_update(s.drop_last(), i, v, p);
    }
}

/// An entry that satisfies the predicate is counted.
pub proof fn lemma_count_positive<T>(s: Seq<T>, i: int, p: spec_fn(T) -> bool)
    requires
        0 <= i < s.len(),
        p(s[i]),
    ensures
        count_where(s, p) >= 1,
    decreases s.len(),
{
    if i < s.len() - 1 {
        lemma_count_positive(s.drop_last(), i, p);
    }
}

/// Where no entry satisfies the predicate, the count is zero.
pub proof fn lemma_count_none<T>(s: Seq<T>, p: spec_fn(T) -> bool)
    requires
        forall|i: int| 0 <= i < s.len() ==> !p(#[trigger] s[i]),
    ensures
        count_where(s, p) == 0,
    decreases s.len(),
{
    if s.len() > 0 {
        assert(forall|i: int| 0 <= i < s.drop_last().len() ==> s.drop_last()[i] == s[i]);
        lemma_count_none(s.drop_last(), p);
        assert(!p(s[s.len() - 1]));
    }
}

/// Replacing an entry by one that the predicate judges alike leaves the
/// count as it was.
pub proof fn lemma_count_update_unrelated<T>(s: Seq<T>, i: int, v: T, p: spec_fn(T) -> bool)
    requires
        0 <= i < s.len(),
        p(s[i]) == p(v),
    ensures
        count_where(s.update(i, v), p) == count_where(s, p),
{
    lemma_count_update(s, i, v, p);
}

} // verus!
