//! Generic facts about sequences used across the library.
use vstd::prelude::*;

verus! {

/// The first position in `s` whose element satisfies `f`, if any.
pub open spec fn first_match<T>(s: Seq<T>, f: spec_fn(T) -> bool) -> Option<int>
    decreases s.len(),
{
    if s.len() == 0 {
        None
    } else if f(s[0]) {
        Some(0)
    } else {
        match first_match(s.drop_first(), f) {
            Some(i) => Some(i + 1),
            None => None,
        }
    }
}

/// `first_match` finds the first satisfying position, or none when none
/// satisfies `f`.
pub proof fn lemma_first_match<T>(s: Seq<T>, f: spec_fn(T) -> bool)
    ensures
        match first_match(s, f) {
            Some(i) => 0 <= i < s.len() && f(s[i]) && forall|j: int| 0 <= j < i ==> !f(s[j]),
            None => forall|j: int| 0 <= j < s.len() ==> !f(s[j]),
        },
    decreases s.len(),
{
    if s.len() > 0 && !f(s[0]) {
        lemma_first_match(s.drop_first(), f);
        assert forall|j: int| 1 <= j < s.len() implies s[j] == s.drop_first()[j - 1] by {}
    }
}

/// A position that satisfies `f` after only positions that do not is the
/// first match.
pub proof fn lemma_first_match_at<T>(s: Seq<T>, f: spec_fn(T) -> bool, i: int)
    requires
        0 <= i < s.len(),
        f(s[i]),
        forall|j: int| 0 <= j < i ==> !f(s[j]),
    ensures
        first_match(s, f) == Some(i),
{
    lemma_first_match(s, f);
}

/// When no position satisfies `f`, there is no first match.
pub proof fn lemma_first_match_none<T>(s: Seq<T>, f: spec_fn(T) -> bool)
    requires
        forall|j: int| 0 <= j < s.len() ==> !f(s[j]),
    ensures
        first_match(s, f) is None,
{
    lemma_first_match(s, f);
}

} // verus!

verus! {

/// The elements of `s` that satisfy `f`, in order.
pub open spec fn select<T>(s: Seq<T>, f: spec_fn(T) -> bool) -> Seq<T>
    decreases s.len(),
{
    if s.len() == 0 {
        Seq::empty()
    } else {
        let r = select(s.drop_last(), f);
        if f(s.last()) {
            r.push(s.last())
        } else {
            r
        }
    }
}

/// The last `max` elements of `s` (all of them when there are fewer).
pub open spec fn keep_last<T>(s: Seq<T>, max: nat) -> Seq<T> {
    if s.len() > max {
        s.skip(s.len() - max)
    } else {
        s
    }
}

/// Remove the first `k` elements of `v`.
pub fn drop_front<T>(v: &mut Vec<T>, k: usize)
    requires
        k <= old(v)@.len(),
    ensures
        final(v)@ == old(v)@.skip(k as int),
{
    let ghost orig = v@;
    let mut j: usize = 0;
    assert(orig.skip(0) =~= orig);
    while j < k
        invariant
            j <= k <= orig.len(),
            v@ == orig.skip(j as int),
        decreases k - j,
    {
        v.remove(0);
        j += 1;
        assert(v@ =~= orig.skip(j as int));
    }
}


/// Selecting from a sequence with one more element at the end selects from
/// the shorter sequence, then takes the new element if it satisfies `f`.
pub proof fn lemma_select_push<T>(s: Seq<T>, x: T, f: spec_fn(T) -> bool)
    ensures
        select(s.push(x), f) == (if f(x) {
            select(s, f).push(x)
        } else {
            select(s, f)
        }),
{
    assert(s.push(x).drop_last() =~= s);
}

/// Every element selected by `f` satisfies `f`, and satisfies any `g` that
/// all elements of `s` satisfy.
pub proof fn lemma_select_all<T>(s: Seq<T>, f: spec_fn(T) -> bool, g: spec_fn(T) -> bool)
    requires
        forall|i: int| 0 <= i < s.len() ==> g(#[trigger] s[i]),
    ensures
        forall|i: int| 0 <= i < select(s, f).len() ==> f(#[trigger] select(s, f)[i]) && g(select(s, f)[i]),
    decreases s.len(),
{
    if s.len() > 0 {
        let t = s.drop_last();
        assert forall|i: int| 0 <= i < t.len() implies g(#[trigger] t[i]) by {
            assert(t[i] == s[i]);
        }
        lemma_select_all(t, f, g);
        let r = select(t, f);
        assert(g(s.last()));
        assert forall|i: int| 0 <= i < select(s, f).len() implies f(#[trigger] select(s, f)[i]) && g(
            select(s, f)[i],
        ) by {
            if i < r.len() {
                assert(select(s, f)[i] == r[i]);
            }
        }
    }
}

} // verus!
