//! Small facts about sequences that loops over vectors use.
use vstd::prelude::*;

verus! {

/// One more element of a filtered sequence.
pub proof fn filter_map_step<A, B>(s: Seq<A>, i: int, f: spec_fn(A) -> Option<B>)
    requires
        0 <= i < s.len(),
    ensures
        s.take(i + 1).filter_map(f) == (match f(s[i]) {
            Some(b) => s.take(i).filter_map(f).push(b),
            None => s.take(i).filter_map(f),
        }),
{
    assert(s.take(i + 1).drop_last() =~= s.take(i));
    assert(s.take(i + 1).last() == s[i]);
    match f(s[i]) {
        Some(b) => {
            assert(s.take(i).filter_map(f) + seq![b] =~= s.take(i).filter_map(f).push(b));
        },
        None => {},
    }
}

/// A filter that leaves nothing out makes one thing of each item, in order.
pub proof fn filter_map_all<A, B>(s: Seq<A>, f: spec_fn(A) -> Option<B>)
    requires
        forall|i: int| 0 <= i < s.len() ==> (#[trigger] f(s[i])) is Some,
    ensures
        s.filter_map(f).len() == s.len(),
        forall|i: int| 0 <= i < s.len() ==> #[trigger] f(s[i]) == Some(s.filter_map(f)[i]),
    decreases s.len(),
{
    if s.len() > 0 {
        let n = s.len() - 1;
        let init = s.take(n);
        assert forall|i: int| 0 <= i < init.len() implies (#[trigger] f(init[i])) is Some by {
            assert(f(s[i]) is Some);
        }
        filter_map_all(init, f);
        filter_map_step(s, n, f);
        assert(s.take(n + 1) =~= s);
        assert(f(s[n]) is Some);
        let before = init.filter_map(f);
        assert forall|i: int| 0 <= i < s.len() implies #[trigger] f(s[i]) == Some(
            s.filter_map(f)[i],
        ) by {
            if i < n {
                assert(f(init[i]) == Some(before[i]));
            }
        }
    } else {
        assert(s.filter_map(f) =~= Seq::empty());
    }
}

/// What a filter makes of an item stands in what it makes of all.
pub proof fn filter_map_keeps<A, B>(s: Seq<A>, f: spec_fn(A) -> Option<B>, i: int)
    requires
        0 <= i < s.len(),
        f(s[i]) is Some,
    ensures
        s.filter_map(f).contains(f(s[i])->Some_0),
    decreases s.len(),
{
    let n = s.len() - 1;
    filter_map_step(s, n, f);
    assert(s.take(n + 1) =~= s);
    let before = s.take(n);
    let out = s.filter_map(f);
    if i == n {
        assert(out[out.len() - 1] == f(s[i])->Some_0);
    } else {
        assert(before[i] == s[i]);
        filter_map_keeps(before, f, i);
        let at = before.filter_map(f).index_of(f(s[i])->Some_0);
        assert(out[at] == f(s[i])->Some_0);
    }
}

/// What stands in what a filter makes of all, it made of some item.
pub proof fn filter_map_source<A, B>(s: Seq<A>, f: spec_fn(A) -> Option<B>, x: B) -> (i: int)
    requires
        s.filter_map(f).contains(x),
    ensures
        0 <= i < s.len(),
        f(s[i]) == Some(x),
    decreases s.len(),
{
    if s.len() > 0 {
        let n = s.len() - 1;
        filter_map_step(s, n, f);
        assert(s.take(n + 1) =~= s);
        let before = s.take(n);
        let at = s.filter_map(f).index_of(x);
        if f(s[n]) == Some(x) {
            n
        } else {
            assert(before.filter_map(f)[at] == x);
            filter_map_source(before, f, x)
        }
    } else {
        assert(s.filter_map(f) =~= Seq::empty());
        0
    }
}

/// One more element of a filtered sequence.
pub proof fn filter_step<A>(s: Seq<A>, i: int, f: spec_fn(A) -> bool)
    requires
        0 <= i < s.len(),
    ensures
        s.take(i + 1).filter(f) == (if f(s[i]) {
            s.take(i).filter(f).push(s[i])
        } else {
            s.take(i).filter(f)
        }),
{
    reveal(Seq::filter);
    assert(s.take(i + 1).drop_last() =~= s.take(i));
    assert(s.take(i + 1).last() == s[i]);
}

/// Filtering nothing gives nothing.
pub proof fn filter_empty<A>(s: Seq<A>, f: spec_fn(A) -> bool)
    ensures
        s.take(0).filter(f) == Seq::<A>::empty(),
{
    reveal(Seq::filter);
    assert(s.take(0) =~= Seq::empty());
}

/// Where `x` belongs in `s`: before the first item that it comes before.
pub open spec fn place_of<A>(s: Seq<A>, x: A, before: spec_fn(A, A) -> bool) -> int
    decreases s.len(),
{
    if s.len() == 0 || before(x, s[0]) {
        0
    } else {
        1 + place_of(s.drop_first(), x, before)
    }
}

/// The items of `s` in order, those that no order parts as they came.
pub open spec fn ordered<A>(s: Seq<A>, before: spec_fn(A, A) -> bool) -> Seq<A>
    decreases s.len(),
{
    if s.len() == 0 {
        Seq::empty()
    } else {
        let rest = ordered(s.drop_last(), before);
        rest.insert(place_of(rest, s.last(), before), s.last())
    }
}

/// `i` is the place of `x` when `x` comes before what stands there and before
/// nothing earlier.
pub proof fn place_of_unique<A>(s: Seq<A>, x: A, before: spec_fn(A, A) -> bool, i: int)
    requires
        0 <= i <= s.len(),
        i < s.len() ==> before(x, s[i]),
        forall|j: int| 0 <= j < i ==> !before(x, #[trigger] s[j]),
    ensures
        place_of(s, x, before) == i,
    decreases s.len(),
{
    if s.len() > 0 && i > 0 {
        assert(!before(x, s[0]));
        let rest = s.drop_first();
        assert forall|j: int| 0 <= j < i - 1 implies !before(x, #[trigger] rest[j]) by {
            assert(rest[j] == s[j + 1]);
        }
        place_of_unique(rest, x, before, i - 1);
    }
}

/// What `place_of` finds.
pub proof fn place_of_law<A>(s: Seq<A>, x: A, before: spec_fn(A, A) -> bool)
    ensures
        0 <= place_of(s, x, before) <= s.len(),
        place_of(s, x, before) < s.len() ==> before(x, s[place_of(s, x, before)]),
        forall|j: int| 0 <= j < place_of(s, x, before) ==> !before(x, #[trigger] s[j]),
    decreases s.len(),
{
    if s.len() > 0 && !before(x, s[0]) {
        let rest = s.drop_first();
        place_of_law(rest, x, before);
        assert forall|j: int| 0 <= j < place_of(s, x, before) implies !before(
            x,
            #[trigger] s[j],
        ) by {
            if j > 0 {
                assert(rest[j - 1] == s[j]);
            }
        }
    }
}

/// Whether `before` is a strict order.
pub open spec fn is_strict_order<A>(before: spec_fn(A, A) -> bool) -> bool {
    &&& forall|a: A| !#[trigger] before(a, a)
    &&& forall|a: A, b: A, c: A|
        #[trigger] before(a, b) && #[trigger] before(b, c) ==> before(a, c)
}

/// Putting items in order keeps them all, and no item stands behind one that
/// it comes before.
pub proof fn ordered_law<A>(s: Seq<A>, before: spec_fn(A, A) -> bool)
    requires
        is_strict_order(before),
    ensures
        ordered(s, before).to_multiset() == s.to_multiset(),
        ordered(s, before).len() == s.len(),
        forall|i: int, j: int|
            0 <= i < j < s.len() ==> !before(
                #[trigger] ordered(s, before)[j],
                #[trigger] ordered(s, before)[i],
            ),
    decreases s.len(),
{
    broadcast use vstd::seq_lib::group_to_multiset_ensures;

    if s.len() > 0 {
        let x = s.last();
        let init = s.drop_last();
        ordered_law(init, before);
        let rest = ordered(init, before);
        place_of_law(rest, x, before);
        let p = place_of(rest, x, before);
        let out = ordered(s, before);
        assert(out == rest.insert(p, x));
        assert(s =~= init.push(x));
        assert(out.to_multiset() =~= s.to_multiset());
        assert forall|i: int, j: int| 0 <= i < j < s.len() implies !before(
            #[trigger] out[j],
            #[trigger] out[i],
        ) by {
            if j == p {
                assert(out[i] == rest[i]);
            } else if i == p {
                assert(out[j] == rest[j - 1]);
                assert(before(x, rest[p]));
                if before(out[j], x) {
                    assert(before(out[j], rest[p]));
                    if j - 1 > p {
                        assert(!before(rest[j - 1], rest[p]));
                    }
                }
            } else {
                let a = if i < p {
                    i
                } else {
                    i - 1
                };
                let b = if j < p {
                    j
                } else {
                    j - 1
                };
                assert(out[i] == rest[a] && out[j] == rest[b]);
            }
        }
    } else {
        assert(ordered(s, before) =~= s);
    }
}

/// Appends `x`.
pub fn push_to<T: DeepView>(v: &mut Vec<T>, x: T)
    ensures
        final(v).deep_view() == old(v).deep_view().push(x.deep_view()),
{
    let ghost before = v.deep_view();
    v.push(x);
    assert(v.deep_view() =~= before.push(x.deep_view()));
}

/// A vector of no elements.
pub fn no_items<T: DeepView>() -> (r: Vec<T>)
    ensures
        r.deep_view() == Seq::<T::V>::empty(),
{
    let r: Vec<T> = Vec::new();
    assert(r.deep_view() =~= Seq::<T::V>::empty());
    r
}

/// A vector of one element.
pub fn one_item<T: DeepView>(x: T) -> (r: Vec<T>)
    ensures
        r.deep_view() == seq![x.deep_view()],
{
    let mut r: Vec<T> = Vec::new();
    r.push(x);
    assert(r.deep_view() =~= seq![x.deep_view()]);
    r
}

} // verus!
