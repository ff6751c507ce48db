//! A bounded queue: when it is full, the oldest item makes room.
use std::collections::VecDeque;
use vstd::prelude::*;

verus! {

/// `s` with `x` at the end; the first item goes when there are `max` or more.
pub open spec fn capped_push<T>(s: Seq<T>, x: T, max: nat) -> Seq<T> {
    if s.len() >= max && s.len() > 0 {
        s.drop_first().push(x)
    } else {
        s.push(x)
    }
}

/// `s` with all of `xs` put at the end, one after the other.
pub open spec fn capped_extend<T>(s: Seq<T>, xs: Seq<T>, max: nat) -> Seq<T>
    decreases xs.len(),
{
    if xs.len() == 0 {
        s
    } else {
        capped_push(capped_extend(s, xs.drop_last(), max), xs.last(), max)
    }
}

/// A queue that never outgrows `max` keeps exactly the last `max` of all that
/// came in.
pub proof fn capped_extend_keeps_newest<T>(s: Seq<T>, xs: Seq<T>, max: nat)
    requires
        s.len() <= max,
        max > 0,
    ensures
        capped_extend(s, xs, max).len() <= max,
        (s + xs).len() <= max ==> capped_extend(s, xs, max) == s + xs,
        (s + xs).len() > max ==> capped_extend(s, xs, max) == (s + xs).skip(
            (s + xs).len() - max,
        ),
    decreases xs.len(),
{
    if xs.len() == 0 {
        assert(s + xs =~= s);
    } else {
        let init = xs.drop_last();
        capped_extend_keeps_newest(s, init, max);
        let before = capped_extend(s, init, max);
        let all = s + xs;
        assert(all =~= (s + init).push(xs.last()));
        if all.len() <= max {
            assert(before.push(xs.last()) =~= all);
        } else if all.len() == max + 1 {
            assert(before == s + init);
            assert(before.drop_first().push(xs.last()) =~= all.skip(1));
        } else {
            assert(before == (s + init).skip((s + init).len() - max));
            assert(before.drop_first().push(xs.last()) =~= all.skip(all.len() - max));
        }
    }
}

/// A queue of items in the order in which they came.
pub struct Ring<T> {
    items: VecDeque<T>,
}

impl<T: DeepView> DeepView for Ring<T> {
    type V = Seq<T::V>;

    closed spec fn deep_view(&self) -> Seq<T::V> {
        Seq::new(self.items@.len(), |i: int| self.items@[i].deep_view())
    }
}

impl<T: DeepView> Ring<T> {
    /// An empty queue.
    pub fn new() -> (r: Ring<T>)
        ensures
            r.deep_view() == Seq::<T::V>::empty(),
    {
        let r = Ring { items: VecDeque::new() };
        assert(r.deep_view() =~= Seq::<T::V>::empty());
        r
    }

    pub fn len(&self) -> (r: usize)
        ensures
            r == self.deep_view().len(),
    {
        self.items.len()
    }

    pub fn is_empty(&self) -> (r: bool)
        ensures
            r == (self.deep_view().len() == 0),
    {
        self.items.len() == 0
    }

    /// The item at `i`, the oldest first.
    pub fn at(&self, i: usize) -> (r: &T)
        requires
            i < self.deep_view().len(),
        ensures
            r.deep_view() == self.deep_view()[i as int],
    {
        &self.items[i]
    }

    /// Puts `x` at the end; the oldest item goes when there are `max` or more.
    pub fn push(&mut self, x: T, max: usize)
        ensures
            final(self).deep_view() == capped_push(
                old(self).deep_view(),
                x.deep_view(),
                max as nat,
            ),
    {
        let ghost before = self.deep_view();
        if self.items.len() >= max {
            let _ = self.items.pop_front();
        }
        self.items.push_back(x);
        assert(self.deep_view() =~= capped_push(before, x.deep_view(), max as nat));
    }

    /// Puts all of `xs` at the end, one after the other.
    pub fn extend(&mut self, xs: Vec<T>, max: usize)
        ensures
            final(self).deep_view() == capped_extend(
                old(self).deep_view(),
                xs.deep_view(),
                max as nat,
            ),
    {
        let ghost all = xs.deep_view();
        let ghost before = self.deep_view();
        let mut rest = xs;
        let mut incoming: VecDeque<T> = VecDeque::new();
        let ghost n = rest@.len() as int;
        while rest.len() > 0
            invariant
                n == all.len(),
                rest@.len() + incoming@.len() == n,
                forall|k: int| 0 <= k < rest@.len() ==> rest@[k].deep_view() == all[k],
                forall|k: int|
                    0 <= k < incoming@.len() ==> (#[trigger] incoming@[k]).deep_view() == all[
                        rest@.len() + k],
            decreases rest@.len(),
        {
            match rest.pop() {
                Some(x) => {
                    incoming.push_front(x);
                },
                None => {},
            }
        }
        let ghost mut done: int = 0;
        assert(all.take(0).len() == 0);
        while incoming.len() > 0
            invariant
                0 <= done <= all.len(),
                done + incoming@.len() == all.len(),
                forall|k: int|
                    0 <= k < incoming@.len() ==> (#[trigger] incoming@[k]).deep_view() == all[
                        done + k],
                self.deep_view() == capped_extend(before, all.take(done), max as nat),
            decreases incoming@.len(),
        {
            match incoming.pop_front() {
                Some(x) => {
                    assert(all.take(done + 1).drop_last() =~= all.take(done));
                    assert(x.deep_view() == all[done]);
                    self.push(x, max);
                    proof {
                        done = done + 1;
                    }
                },
                None => {},
            }
        }
        assert(all.take(done) =~= all);
    }

    /// Takes every item out.
    pub fn clear(&mut self)
        ensures
            final(self).deep_view() == Seq::<T::V>::empty(),
    {
        *self = Ring::new();
    }
}

} // verus!
