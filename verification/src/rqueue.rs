//! The request completion queue.
//!
//! The protocol connection answers asynchronous requests with replies
//! correlated by a connection-assigned cookie. The queue records the cookie
//! of every in-flight request; on each reactor drain the connection is
//! polled and the cookies whose replies have arrived resolve their awaiting
//! tasks, while the rest stay queued for the next wake. Matching is by
//! cookie identity, never by queue order, and every outstanding request
//! resolves exactly once: a drain removes what it resolves, and connection
//! termination hands every still-pending cookie out for error resolution.

use vstd::prelude::*;
use vstd::seq_lib::group_seq_lib_default;
use vstd::seq_lib::lemma_no_dup_in_concat;

verus! {

broadcast use group_seq_lib_default;

/// The cookies of one drain whose replies were ready, in queue order.
pub open spec fn resolved_of(p: Seq<u64>, ready: Seq<u64>) -> Seq<u64> {
    p.filter(|c: u64| ready.contains(c))
}

/// The cookies of one drain still awaiting a reply, in queue order.
pub open spec fn remaining_of(p: Seq<u64>, ready: Seq<u64>) -> Seq<u64> {
    p.filter(|c: u64| !ready.contains(c))
}

/// Outstanding asynchronous requests, identified by their correlation
/// cookies in the order the requests were registered.
pub struct Queue {
    pending: Vec<u64>,
}

impl View for Queue {
    type V = Seq<u64>;

    closed spec fn view(&self) -> Seq<u64> {
        self.pending@
    }
}

fn vec_has(v: &Vec<u64>, x: u64) -> (r: bool)
    ensures
        r == v@.contains(x),
{
    let mut i: usize = 0;
    while i < v.len()
        invariant
            i <= v@.len(),
            forall|j: int| 0 <= j < i ==> v@[j] != x,
        decreases v@.len() - i,
    {
        if v[i] == x {
            assert(v@[i as int] == x);
            return true;
        }
        i = i + 1;
    }
    false
}

impl Queue {
    /// Well-formed: the connection never issues the same cookie twice for
    /// two requests in flight at once, so no cookie is queued twice.
    pub open spec fn wf(&self) -> bool {
        self@.no_duplicates()
    }

    /// An empty queue: nothing outstanding.
    pub fn new() -> (q: Self)
        ensures
            q@ == Seq::<u64>::empty(),
            q.wf(),
    {
        Queue { pending: Vec::new() }
    }

    /// Whether a request with this cookie is outstanding.
    pub fn contains(&self, cookie: u64) -> (r: bool)
        ensures
            r == self@.contains(cookie),
    {
        vec_has(&self.pending, cookie)
    }

    /// Register a newly issued request under its correlation cookie.
    pub fn add(&mut self, cookie: u64)
        requires
            !old(self)@.contains(cookie),
        ensures
            final(self)@ == old(self)@.push(cookie),
            old(self).wf() ==> final(self).wf(),
    {
        self.pending.push(cookie);
        proof {
            if old(self).wf() {
                assert(old(self)@ + seq![cookie] =~= old(self)@.push(cookie));
                lemma_no_dup_in_concat(old(self)@, seq![cookie]);
            }
        }
    }

    /// Remove every outstanding cookie and hand the whole list out. This is
    /// the connection-termination path: the caller resolves each returned
    /// cookie with a connection-error result, so none is left hanging.
    pub fn take(&mut self) -> (r: Vec<u64>)
        ensures
            r@ == old(self)@,
            final(self)@ == Seq::<u64>::empty(),
            final(self).wf(),
    {
        let mut taken: Vec<u64> = Vec::new();
        core::mem::swap(&mut taken, &mut self.pending);
        taken
    }

    /// One reactor drain. `ready` holds the cookies whose replies the
    /// connection produced this wake; those resolve now, in queue order,
    /// and leave the queue, while every other cookie stays queued, in
    /// order, for the next wake.
    pub fn process_queue(&mut self, ready: &Vec<u64>) -> (resolved: Vec<u64>)
        ensures
            resolved@ == resolved_of(old(self)@, ready@),
            final(self)@ == remaining_of(old(self)@, ready@),
            old(self).wf() ==> final(self).wf(),
    {
        let ghost p = self@;
        let mut pending: Vec<u64> = Vec::new();
        core::mem::swap(&mut pending, &mut self.pending);

        let mut resolved: Vec<u64> = Vec::new();
        let mut keep: Vec<u64> = Vec::new();
        let mut i: usize = 0;
        while i < pending.len()
            invariant
                i <= pending@.len(),
                pending@ == p,
                resolved@ == resolved_of(p.subrange(0, i as int), ready@),
                keep@ == remaining_of(p.subrange(0, i as int), ready@),
            decreases pending@.len() - i,
        {
            let c = pending[i];
            let is_ready = vec_has(ready, c);
            proof {
                assert(p.subrange(0, i as int + 1) =~= p.subrange(0, i as int) + seq![p[i as int]]);
                lemma_filter_step(p.subrange(0, i as int), ready@, p[i as int]);
                assert(resolved_of(p.subrange(0, i as int), ready@).push(c) =~= resolved_of(
                    p.subrange(0, i as int),
                    ready@,
                ) + seq![c]);
                assert(remaining_of(p.subrange(0, i as int), ready@).push(c) =~= remaining_of(
                    p.subrange(0, i as int),
                    ready@,
                ) + seq![c]);
            }
            if is_ready {
                resolved.push(c);
            } else {
                keep.push(c);
            }
            i = i + 1;
        }
        assert(p.subrange(0, p.len() as int) =~= p);
        self.pending = keep;
        proof {
            if old(self).wf() {
                lemma_drain_exactly_once(p, ready@);
            }
        }
        resolved
    }
}

proof fn lemma_filter_step(p: Seq<u64>, ready: Seq<u64>, x: u64)
    ensures
        resolved_of(p + seq![x], ready) == (if ready.contains(x) {
            resolved_of(p, ready) + seq![x]
        } else {
            resolved_of(p, ready)
        }),
        remaining_of(p + seq![x], ready) == (if !ready.contains(x) {
            remaining_of(p, ready) + seq![x]
        } else {
            remaining_of(p, ready)
        }),
{
    reveal_with_fuel(Seq::<_>::filter, 2);
    assert(seq![x].drop_last() =~= Seq::<u64>::empty());
    assert(resolved_of(seq![x], ready) == (if ready.contains(x) {
        seq![x]
    } else {
        Seq::<u64>::empty()
    }));
    assert(remaining_of(seq![x], ready) == (if !ready.contains(x) {
        seq![x]
    } else {
        Seq::<u64>::empty()
    }));
    if ready.contains(x) {
        assert(resolved_of(p, ready) + Seq::<u64>::empty() =~= resolved_of(p, ready));
        assert(remaining_of(p, ready) + Seq::<u64>::empty() =~= remaining_of(p, ready));
    } else {
        assert(resolved_of(p, ready) + Seq::<u64>::empty() =~= resolved_of(p, ready));
        assert(remaining_of(p, ready) + Seq::<u64>::empty() =~= remaining_of(p, ready));
    }
}

/// One drain resolves every outstanding request exactly once: the resolved
/// and the still-pending cookies partition the outstanding ones — a cookie
/// resolves in this drain if and only if its reply was ready, stays pending
/// if and only if it was not, never both and never twice — and a resolved
/// cookie leaves the queue, so no later drain can resolve it again.
pub proof fn lemma_drain_exactly_once(p: Seq<u64>, ready: Seq<u64>)
    requires
        p.no_duplicates(),
    ensures
        forall|c: u64|
            #[trigger] resolved_of(p, ready).contains(c) <==> p.contains(c) && ready.contains(c),
        forall|c: u64|
            #[trigger] remaining_of(p, ready).contains(c) <==> p.contains(c) && !ready.contains(c),
        resolved_of(p, ready).no_duplicates(),
        remaining_of(p, ready).no_duplicates(),
        resolved_of(p, ready).len() + remaining_of(p, ready).len() == p.len(),
    decreases p.len(),
{
    if p.len() == 0 {
        reveal_with_fuel(Seq::<_>::filter, 1);
        assert(resolved_of(p, ready) == Seq::<u64>::empty());
        assert(remaining_of(p, ready) == Seq::<u64>::empty());
        assert forall|c: u64| #[trigger] p.contains(c) implies false by {}
    } else {
        let rest = p.drop_last();
        let x = p.last();
        assert(rest.no_duplicates());
        lemma_drain_exactly_once(rest, ready);
        assert(rest + seq![x] =~= p);
        lemma_filter_step(rest, ready, x);
        assert(!rest.contains(x)) by {
            if rest.contains(x) {
                let k = choose|k: int| 0 <= k < rest.len() && rest[k] == x;
                assert(p[k] == p[p.len() - 1]);
            }
        }
        assert forall|c: u64| #[trigger] resolved_of(p, ready).contains(c) implies p.contains(c)
            && ready.contains(c) by {
            lemma_membership_in_concat(resolved_of(rest, ready), c, x, ready.contains(x));
            if resolved_of(rest, ready).contains(c) {
                assert(rest.contains(c));
                let k = choose|k: int| 0 <= k < rest.len() && rest[k] == c;
                assert(p[k] == c);
            } else {
                assert(c == x);
                assert(p[p.len() - 1] == c);
            }
        }
        assert forall|c: u64| p.contains(c) && ready.contains(c) implies #[trigger] resolved_of(
            p,
            ready,
        ).contains(c) by {
            let k = choose|k: int| 0 <= k < p.len() && p[k] == c;
            if k < p.len() - 1 {
                assert(rest[k] == c);
                assert(rest.contains(c));
                assert(resolved_of(rest, ready).contains(c));
                let j = choose|j: int|
                    0 <= j < resolved_of(rest, ready).len() && resolved_of(rest, ready)[j] == c;
                assert(resolved_of(p, ready)[j] == c);
            } else {
                assert(c == x);
                let r = resolved_of(p, ready);
                assert(r[r.len() - 1] == c);
            }
        }
        assert forall|c: u64| #[trigger] remaining_of(p, ready).contains(c) implies p.contains(c)
            && !ready.contains(c) by {
            lemma_membership_in_concat(remaining_of(rest, ready), c, x, !ready.contains(x));
            if remaining_of(rest, ready).contains(c) {
                assert(rest.contains(c));
                let k = choose|k: int| 0 <= k < rest.len() && rest[k] == c;
                assert(p[k] == c);
            } else {
                assert(c == x);
                assert(p[p.len() - 1] == c);
            }
        }
        assert forall|c: u64| p.contains(c) && !ready.contains(c) implies #[trigger] remaining_of(
            p,
            ready,
        ).contains(c) by {
            let k = choose|k: int| 0 <= k < p.len() && p[k] == c;
            if k < p.len() - 1 {
                assert(rest[k] == c);
                assert(rest.contains(c));
                assert(remaining_of(rest, ready).contains(c));
                let j = choose|j: int|
                    0 <= j < remaining_of(rest, ready).len() && remaining_of(rest, ready)[j] == c;
                assert(remaining_of(p, ready)[j] == c);
            } else {
                assert(c == x);
                let r = remaining_of(p, ready);
                assert(r[r.len() - 1] == c);
            }
        }
        if ready.contains(x) {
            assert forall|i: int, j: int|
                0 <= i < resolved_of(rest, ready).len() && 0 <= j < 1 implies resolved_of(
                rest,
                ready,
            )[i] != seq![x][j] by {
                assert(resolved_of(rest, ready).contains(resolved_of(rest, ready)[i]));
            }
            lemma_no_dup_in_concat(resolved_of(rest, ready), seq![x]);
        } else {
            assert forall|i: int, j: int|
                0 <= i < remaining_of(rest, ready).len() && 0 <= j < 1 implies remaining_of(
                rest,
                ready,
            )[i] != seq![x][j] by {
                assert(remaining_of(rest, ready).contains(remaining_of(rest, ready)[i]));
            }
            lemma_no_dup_in_concat(remaining_of(rest, ready), seq![x]);
        }
    }
}

proof fn lemma_membership_in_concat(a: Seq<u64>, c: u64, x: u64, appended: bool)
    ensures
        (a + (if appended {
            seq![x]
        } else {
            Seq::<u64>::empty()
        })).contains(c) ==> a.contains(c) || (appended && c == x),
{
    let tail: Seq<u64> = if appended {
        seq![x]
    } else {
        Seq::<u64>::empty()
    };
    if (a + tail).contains(c) {
        let k = choose|k: int| 0 <= k < (a + tail).len() && (a + tail)[k] == c;
        if k < a.len() {
            assert(a[k] == c);
        } else {
            assert(appended && c == x);
        }
    }
}

} // verus!
