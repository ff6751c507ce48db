//! Dropping what has run out.
use vstd::prelude::*;

use crate::app::model::{living, recent, recent_activities};
use crate::app::state::{ChatActivityState, ChatActivityStateView};
use crate::keyed::StrMap;
use crate::scene::flourish::{elapsed, since};
use crate::scene::thought_bubble::{ThoughtBubble, ThoughtBubbleView, TTL_MS};
use crate::seqs::{filter_empty, filter_step};

verus! {

/// What is left of `s` while the first `n` items have been sieved by `f`.
spec fn half_sieved<A>(s: Seq<A>, n: int, f: spec_fn(A) -> bool) -> Seq<A> {
    s.take(n).filter(f) + s.skip(n)
}

proof fn sieve_start<A>(s: Seq<A>, f: spec_fn(A) -> bool)
    ensures
        half_sieved(s, 0, f) == s,
        s.take(0).filter(f).len() == 0,
{
    filter_empty(s, f);
    assert(half_sieved(s, 0, f) =~= s);
}

proof fn sieve_step<A>(s: Seq<A>, n: int, f: spec_fn(A) -> bool)
    requires
        0 <= n < s.len(),
    ensures
        ({
            let kept = s.take(n).filter(f).len() as int;
            &&& kept < half_sieved(s, n, f).len()
            &&& half_sieved(s, n, f)[kept] == s[n]
            &&& f(s[n]) ==> half_sieved(s, n + 1, f) == half_sieved(s, n, f) && s.take(
                n + 1,
            ).filter(f).len() == kept + 1
            &&& !f(s[n]) ==> half_sieved(s, n + 1, f) == half_sieved(s, n, f).remove(kept)
                && s.take(n + 1).filter(f).len() == kept
        }),
{
    filter_step(s, n, f);
    let kept = s.take(n).filter(f);
    if f(s[n]) {
        assert(half_sieved(s, n + 1, f) =~= half_sieved(s, n, f));
    } else {
        assert(half_sieved(s, n + 1, f) =~= half_sieved(s, n, f).remove(kept.len() as int));
    }
}

proof fn sieve_end<A>(s: Seq<A>, f: spec_fn(A) -> bool)
    ensures
        half_sieved(s, s.len() as int, f) == s.filter(f),
{
    assert(s.take(s.len() as int) =~= s);
    assert(half_sieved(s, s.len() as int, f) =~= s.filter(f));
}

/// Drops the entries whose time is `limit` or more ago.
pub fn prune_times(m: &mut StrMap<u64>, now: u64, limit: u64)
    ensures
        final(m).deep_view() == recent(old(m).deep_view(), now, limit),
{
    let ghost s = m.deep_view();
    let ghost f = |e: (Seq<char>, u64)| elapsed(now, e.1) < limit;
    let ghost mut n: int = 0;
    let mut i: usize = 0;
    proof {
        sieve_start(s, f);
    }
    while i < m.len()
        invariant
            0 <= n <= s.len(),
            f == (|e: (Seq<char>, u64)| elapsed(now, e.1) < limit),
            i == s.take(n).filter(f).len(),
            m.deep_view() == half_sieved(s, n, f),
            n < s.len() || i == m.deep_view().len(),
        decreases s.len() - n,
    {
        proof {
            if n >= s.len() {
                sieve_end(s, f);
            }
            sieve_step(s, n, f);
        }
        let t = *m.value_at(i);
        if since(now, t) < limit {
            i = i + 1;
        } else {
            let _ = m.remove_at(i);
        }
        proof {
            n = n + 1;
            if n >= s.len() {
                assert(s.skip(n).len() == 0);
            }
        }
    }
    proof {
        if n < s.len() {
            sieve_step(s, n, f);
        }
        sieve_end(s, f);
    }
}

/// Drops the activities that are `limit` or more old.
pub fn prune_activities(m: &mut StrMap<ChatActivityState>, now: u64, limit: u64)
    ensures
        final(m).deep_view() == recent_activities(old(m).deep_view(), now, limit),
{
    let ghost s = m.deep_view();
    let ghost f = |e: (Seq<char>, ChatActivityStateView)| elapsed(now, e.1.since) < limit;
    let ghost mut n: int = 0;
    let mut i: usize = 0;
    proof {
        sieve_start(s, f);
    }
    while i < m.len()
        invariant
            0 <= n <= s.len(),
            f == (|e: (Seq<char>, ChatActivityStateView)| elapsed(now, e.1.since) < limit),
            i == s.take(n).filter(f).len(),
            m.deep_view() == half_sieved(s, n, f),
            n < s.len() || i == m.deep_view().len(),
        decreases s.len() - n,
    {
        proof {
            if n >= s.len() {
                sieve_end(s, f);
            }
            sieve_step(s, n, f);
        }
        let t = m.value_at(i).since;
        if since(now, t) < limit {
            i = i + 1;
        } else {
            let _ = m.remove_at(i);
        }
        proof {
            n = n + 1;
            if n >= s.len() {
                assert(s.skip(n).len() == 0);
            }
        }
    }
    proof {
        if n < s.len() {
            sieve_step(s, n, f);
        }
        sieve_end(s, f);
    }
}

/// Drops the bubbles that have run out.
pub fn prune_bubbles(b: &mut Vec<ThoughtBubble>, now: u64)
    ensures
        final(b).deep_view() == living(old(b).deep_view(), now),
{
    let ghost s = b.deep_view();
    let ghost f = |x: ThoughtBubbleView| elapsed(now, x.born) < TTL_MS;
    let ghost mut n: int = 0;
    let mut i: usize = 0;
    proof {
        sieve_start(s, f);
    }
    while i < b.len()
        invariant
            0 <= n <= s.len(),
            f == (|x: ThoughtBubbleView| elapsed(now, x.born) < TTL_MS),
            i == s.take(n).filter(f).len(),
            b.deep_view() == half_sieved(s, n, f),
            n < s.len() || i == b.deep_view().len(),
        decreases s.len() - n,
    {
        proof {
            sieve_step(s, n, f);
            assert(b.deep_view()[i as int] == b@[i as int].deep_view());
        }
        let ghost before = b.deep_view();
        if b[i].expired(now) {
            let _ = b.remove(i);
            assert(b.deep_view() =~= before.remove(i as int));
        } else {
            i = i + 1;
        }
        proof {
            n = n + 1;
            if n >= s.len() {
                assert(s.skip(n).len() == 0);
            }
        }
    }
    proof {
        if n < s.len() {
            sieve_step(s, n, f);
        }
        sieve_end(s, f);
    }
}

} // verus!
