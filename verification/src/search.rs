//! Specification combinators for searches over sequences of tree nodes,
//! together with the lemmas that connect them to loops.

use vstd::prelude::*;

verus! {

/// The value of `f` at the first element of `s` on which `f` is defined.
pub open spec fn first_hit<A, R>(s: Seq<A>, f: spec_fn(A) -> Option<R>) -> Option<R>
    decreases s.len(),
{
    if s.len() == 0 {
        None
    } else {
        match f(s[0]) {
            Some(r) => Some(r),
            None => first_hit(s.drop_first(), f),
        }
    }
}

/// Collapses two layers of `Option`.
pub open spec fn flatten<R>(o: Option<Option<R>>) -> Option<R> {
    match o {
        Some(inner) => inner,
        None => None,
    }
}

/// The values of `f` on the elements of `s` where it is defined, in order.
pub open spec fn filter_map<A, B>(s: Seq<A>, f: spec_fn(A) -> Option<B>) -> Seq<B>
    decreases s.len(),
{
    if s.len() == 0 {
        Seq::empty()
    } else {
        let rest = filter_map(s.drop_last(), f);
        match f(s.last()) {
            Some(b) => rest.push(b),
            None => rest,
        }
    }
}

/// Whether some element of `s` satisfies `p`.
pub open spec fn any<A>(s: Seq<A>, p: spec_fn(A) -> bool) -> bool {
    exists|i: int| 0 <= i < s.len() && #[trigger] p(s[i])
}

pub proof fn lemma_first_hit_at<A, R>(s: Seq<A>, f: spec_fn(A) -> Option<R>, i: int)
    requires
        0 <= i < s.len(),
        forall|j: int| 0 <= j < i ==> (#[trigger] f(s[j])) is None,
        f(s[i]) is Some,
    ensures
        first_hit(s, f) == f(s[i]),
    decreases i,
{
    if i > 0 {
        let t = s.drop_first();
        assert forall|j: int| 0 <= j < i - 1 implies (#[trigger] f(t[j])) is None by {
            assert(t[j] == s[j + 1]);
        }
        assert(t[i - 1] == s[i]);
        lemma_first_hit_at(t, f, i - 1);
    }
}

pub proof fn lemma_first_hit_none<A, R>(s: Seq<A>, f: spec_fn(A) -> Option<R>)
    requires
        forall|j: int| 0 <= j < s.len() ==> (#[trigger] f(s[j])) is None,
    ensures
        first_hit(s, f) is None,
    decreases s.len(),
{
    if s.len() > 0 {
        let t = s.drop_first();
        assert forall|j: int| 0 <= j < t.len() implies (#[trigger] f(t[j])) is None by {
            assert(t[j] == s[j + 1]);
        }
        lemma_first_hit_none(t, f);
    }
}

pub proof fn lemma_filter_map_step<A, B>(s: Seq<A>, f: spec_fn(A) -> Option<B>, i: int)
    requires
        0 <= i < s.len(),
    ensures
        filter_map(s.take(i + 1), f) == (match f(s[i]) {
            Some(b) => filter_map(s.take(i), f).push(b),
            None => filter_map(s.take(i), f),
        }),
{
    assert(s.take(i + 1).drop_last() =~= s.take(i));
    assert(s.take(i + 1).last() == s[i]);
}

/// A search finds something as soon as some element is selected.
pub proof fn lemma_first_hit_some<A, R>(s: Seq<A>, f: spec_fn(A) -> Option<R>, j: int)
    requires
        0 <= j < s.len(),
        f(s[j]) is Some,
    ensures
        first_hit(s, f) is Some,
    decreases j,
{
    if j > 0 && f(s[0]) is None {
        let t = s.drop_first();
        assert(t[j - 1] == s[j]);
        lemma_first_hit_some(t, f, j - 1);
    }
}

/// Filtering a non-empty sequence: the first element's value, if any, then
/// the values of the rest.
pub proof fn lemma_filter_map_first<A, B>(s: Seq<A>, f: spec_fn(A) -> Option<B>)
    requires
        s.len() > 0,
    ensures
        filter_map(s, f) == match f(s[0]) {
            Some(b) => seq![b] + filter_map(s.drop_first(), f),
            None => filter_map(s.drop_first(), f),
        },
    decreases s.len(),
{
    if s.len() > 1 {
        let t = s.drop_last();
        lemma_filter_map_first(t, f);
        assert(t.drop_first() =~= s.drop_first().drop_last());
        assert(s.drop_first().last() == s.last());
        assert(t[0] == s[0]);
        match f(s[0]) {
            Some(b) => {
                match f(s.last()) {
                    Some(c) => {
                        assert(seq![b] + filter_map(s.drop_first(), f) =~= (seq![b]
                            + filter_map(t.drop_first(), f)).push(c));
                    },
                    None => {},
                }
            },
            None => {},
        }
    } else {
        assert(s.drop_last() =~= Seq::<A>::empty());
        assert(s.drop_first() =~= Seq::<A>::empty());
        assert(s.last() == s[0]);
    }
}

/// A search with a selector (which keeps or drops each element unchanged)
/// finds an element of the sequence.
pub proof fn lemma_first_hit_select<A>(s: Seq<A>, f: spec_fn(A) -> Option<A>)
    requires
        forall|x: A| #[trigger] f(x) is Some ==> f(x) == Some(x),
    ensures
        first_hit(s, f) matches Some(c) ==> exists|j: int| 0 <= j < s.len() && s[j] == c,
    decreases s.len(),
{
    if s.len() > 0 && f(s[0]) is None {
        let t = s.drop_first();
        lemma_first_hit_select(t, f);
        if let Some(c) = first_hit(t, f) {
            let j = choose|j: int| 0 <= j < t.len() && t[j] == c;
            assert(s[j + 1] == c);
        }
    }
}

pub proof fn lemma_take_all<A>(s: Seq<A>)
    ensures
        s.take(s.len() as int) == s,
{
    assert(s.take(s.len() as int) =~= s);
}

} // verus!
