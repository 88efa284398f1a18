//! What sequences hold, and where.
use vstd::prelude::*;

verus! {

/// The first element of `s` that is `wanted`.
pub open spec fn first_where<T>(s: Seq<T>, wanted: spec_fn(T) -> bool) -> Option<T>
    decreases s.len(),
{
    if s.len() == 0 {
        None
    } else if wanted(s[0]) {
        Some(s[0])
    } else {
        first_where(s.drop_first(), wanted)
    }
}

/// The element at `i` is the first that is wanted when none before it is.
pub proof fn lemma_first_where_at<T>(s: Seq<T>, wanted: spec_fn(T) -> bool, i: int)
    requires
        0 <= i < s.len(),
        wanted(s[i]),
        forall|j: int| 0 <= j < i ==> !wanted(#[trigger] s[j]),
    ensures
        first_where(s, wanted) == Some(s[i]),
    decreases s.len(),
{
    if i > 0 {
        assert(!wanted(s[0]));
        let rest = s.drop_first();
        assert forall|j: int| 0 <= j < i - 1 implies !wanted(#[trigger] rest[j]) by {
            assert(rest[j] == s[j + 1]);
        }
        lemma_first_where_at(rest, wanted, i - 1);
    }
}

/// Nothing is found exactly when no element is wanted.
pub proof fn lemma_first_where_none<T>(s: Seq<T>, wanted: spec_fn(T) -> bool)
    ensures
        first_where(s, wanted) is None <==> (forall|j: int|
            0 <= j < s.len() ==> !wanted(#[trigger] s[j])),
    decreases s.len(),
{
    if s.len() > 0 {
        let rest = s.drop_first();
        lemma_first_where_none(rest, wanted);
        if !wanted(s[0]) {
            if first_where(rest, wanted) is None {
                assert forall|j: int| 0 <= j < s.len() implies !wanted(#[trigger] s[j]) by {
                    if j > 0 {
                        assert(rest[j - 1] == s[j]);
                    }
                }
            } else {
                let k = choose|k: int| 0 <= k < rest.len() && wanted(#[trigger] rest[k]);
                assert(s[k + 1] == rest[k]);
            }
        }
    }
}

/// What a sequence holds once an element has been added.
pub proof fn lemma_push_contains<T>(s: Seq<T>, last: T, x: T)
    ensures
        s.push(last).contains(x) <==> s.contains(x) || x == last,
{
    let longer = s.push(last);
    assert(longer[s.len() as int] == last);
    if s.contains(x) {
        let i = choose|i: int| 0 <= i < s.len() && s[i] == x;
        assert(longer[i] == x);
    }
    if longer.contains(x) && x != last {
        let i = choose|i: int| 0 <= i < longer.len() && longer[i] == x;
        assert(s[i] == x);
    }
}

/// What a filtered sequence holds.
pub proof fn lemma_filter_contains<T>(s: Seq<T>, keep: spec_fn(T) -> bool, x: T)
    ensures
        s.filter(keep).contains(x) <==> s.contains(x) && keep(x),
    decreases s.len(),
{
    reveal(Seq::filter);
    if s.len() > 0 {
        let rest = s.drop_last();
        lemma_filter_contains(rest, keep, x);
        assert(s == rest.push(s.last()));
        lemma_push_contains(rest, s.last(), x);
        lemma_push_contains(rest.filter(keep), s.last(), x);
    }
}

/// Filtering by two conditions that agree on every element.
pub proof fn lemma_filter_same<T>(s: Seq<T>, keep: spec_fn(T) -> bool, also: spec_fn(T) -> bool)
    requires
        forall|x: T| #[trigger] keep(x) == also(x),
    ensures
        s.filter(keep) == s.filter(also),
    decreases s.len(),
{
    reveal(Seq::filter);
    if s.len() > 0 {
        lemma_filter_same(s.drop_last(), keep, also);
        assert(keep(s.last()) == also(s.last()));
    }
}

} // verus!
