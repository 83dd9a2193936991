use vstd::prelude::*;

verus! {

/// Indices of the unconfirmed chunks, in ascending order.
pub open spec fn pending_indices(c: Seq<bool>) -> Seq<int>
    decreases c.len(),
{
    if c.len() == 0 {
        Seq::empty()
    } else {
        let rest = pending_indices(c.drop_last());
        if c.last() {
            rest
        } else {
            rest.push(c.len() - 1)
        }
    }
}

/// Every chunk is confirmed.
pub open spec fn all_confirmed(c: Seq<bool>) -> bool {
    forall|i: int| 0 <= i < c.len() ==> #[trigger] c[i]
}

/// A chunk is confirmed after a poll when it was before or its status is non-empty.
pub open spec fn merge_statuses(c: Seq<bool>, statuses: Seq<bool>) -> Seq<bool> {
    Seq::new(c.len(), |i: int| c[i] || statuses[i])
}

/// The sequence is strictly increasing.
pub open spec fn ascending(s: Seq<int>) -> bool {
    forall|a: int, b: int| 0 <= a < b < s.len() ==> s[a] < s[b]
}

/// A batch of chunk indices, read as integers.
pub open spec fn index_view(v: Seq<usize>) -> Seq<int> {
    v.map_values(|x: usize| x as int)
}

/// The pending list is ascending and holds exactly the unconfirmed indices.
pub proof fn lemma_pending_exact(c: Seq<bool>)
    ensures
        ascending(pending_indices(c)),
        forall|k: int| 0 <= k < pending_indices(c).len() ==> 0 <= #[trigger] pending_indices(c)[k] < c.len(),
        forall|i: int| 0 <= i < c.len() ==> (pending_indices(c).contains(i) <==> !c[i]),
        pending_indices(c).len() <= c.len(),
    decreases c.len(),
{
    if c.len() > 0 {
        let d = c.drop_last();
        lemma_pending_exact(d);
        let rest = pending_indices(d);
        assert forall|i: int| 0 <= i < c.len() implies (pending_indices(c).contains(i) <==> !c[i]) by {
            if i < d.len() {
                assert(d[i] == c[i]);
                if !c.last() {
                    if rest.contains(i) {
                        let k = choose|k: int| 0 <= k < rest.len() && rest[k] == i;
                        assert(rest.push(c.len() - 1)[k] == i);
                    }
                    if pending_indices(c).contains(i) {
                        let full = rest.push(c.len() - 1);
                        let k = choose|k: int| 0 <= k < full.len() && #[trigger] full[k] == i;
                        assert(k < rest.len());
                        assert(rest[k] == i);
                    }
                }
            } else {
                if !c.last() {
                    assert(rest.push(c.len() - 1)[rest.len() as int] == i);
                } else {
                    if rest.contains(i) {
                        let k = choose|k: int| 0 <= k < rest.len() && rest[k] == i;
                    }
                }
            }
        }
    }
}

/// With every chunk confirmed nothing is pending.
pub proof fn lemma_none_pending(c: Seq<bool>)
    ensures
        all_confirmed(c) <==> pending_indices(c).len() == 0,
{
    lemma_pending_exact(c);
    if pending_indices(c).len() == 0 {
        assert forall|i: int| 0 <= i < c.len() implies #[trigger] c[i] by {
            if !c[i] {
                assert(pending_indices(c).contains(i));
            }
        }
    } else {
        let i = pending_indices(c)[0];
        assert(pending_indices(c).contains(i));
        assert(!c[i]);
    }
}

/// Per-chunk confirmation state. A flag, once set, is never cleared.
pub struct ConfirmationTracker {
    confirmed: Vec<bool>,
}

impl View for ConfirmationTracker {
    type V = Seq<bool>;

    closed spec fn view(&self) -> Seq<bool> {
        self.confirmed@
    }
}

impl ConfirmationTracker {
    /// A tracker of `count` chunks, none confirmed.
    pub fn new(count: usize) -> (r: Self)
        ensures
            r@ == Seq::new(count as nat, |i: int| false),
    {
        let mut confirmed: Vec<bool> = Vec::new();
        let mut i: usize = 0;
        while i < count
            invariant
                i <= count,
                confirmed@ == Seq::new(i as nat, |j: int| false),
            decreases count - i,
        {
            confirmed.push(false);
            i = i + 1;
            assert(confirmed@ =~= Seq::new(i as nat, |j: int| false));
        }
        ConfirmationTracker { confirmed }
    }

    pub fn len(&self) -> (r: usize)
        ensures
            r == self@.len(),
    {
        self.confirmed.len()
    }

    pub fn is_confirmed(&self, index: usize) -> (r: bool)
        requires
            index < self@.len(),
        ensures
            r == self@[index as int],
    {
        self.confirmed[index]
    }

    /// Applies one batched status poll: a chunk whose status is non-empty
    /// becomes confirmed; no flag is cleared.
    pub fn record_statuses(&mut self, statuses: &Vec<bool>)
        requires
            statuses@.len() == old(self)@.len(),
        ensures
            final(self)@ == merge_statuses(old(self)@, statuses@),
    {
        let n = self.confirmed.len();
        let mut merged: Vec<bool> = Vec::new();
        let mut i: usize = 0;
        while i < n
            invariant
                n == self.confirmed@.len(),
                statuses@.len() == n,
                i <= n,
                merged@ == merge_statuses(self.confirmed@, statuses@).take(i as int),
            decreases n - i,
        {
            merged.push(self.confirmed[i] || statuses[i]);
            i = i + 1;
            assert(merged@ =~= merge_statuses(self.confirmed@, statuses@).take(i as int));
        }
        assert(merged@ =~= merge_statuses(self.confirmed@, statuses@));
        self.confirmed = merged;
    }

    /// Marks one chunk confirmed.
    pub fn confirm(&mut self, index: usize)
        requires
            index < old(self)@.len(),
        ensures
            final(self)@ == old(self)@.update(index as int, true),
    {
        self.confirmed.set(index, true);
    }

    /// The unconfirmed chunk indices, ascending.
    pub fn pending(&self) -> (r: Vec<usize>)
        ensures
            index_view(r@) == pending_indices(self@),
    {
        let mut r: Vec<usize> = Vec::new();
        let mut i: usize = 0;
        while i < self.confirmed.len()
            invariant
                i <= self@.len(),
                index_view(r@) == pending_indices(self@.take(i as int)),
            decreases self@.len() - i,
        {
            proof {
                assert(self@.take(i + 1).drop_last() =~= self@.take(i as int));
            }
            if !self.confirmed[i] {
                r.push(i);
                proof {
                    assert(index_view(r@) =~= index_view(r@.drop_last()).push(i as int));
                }
            }
            i = i + 1;
        }
        assert(self@.take(i as int) =~= self@);
        r
    }

    /// Number of confirmed chunks.
    pub fn confirmed_count(&self) -> (r: usize)
        ensures
            r == self@.len() - pending_indices(self@).len(),
    {
        let pending = self.pending();
        proof {
            lemma_pending_exact(self@);
            assert(pending@.len() == index_view(pending@).len());
        }
        self.confirmed.len() - pending.len()
    }

    pub fn all_confirmed(&self) -> (r: bool)
        ensures
            r == all_confirmed(self@),
    {
        let mut i: usize = 0;
        while i < self.confirmed.len()
            invariant
                i <= self@.len(),
                forall|j: int| 0 <= j < i ==> self@[j],
            decreases self@.len() - i,
        {
            if !self.confirmed[i] {
                return false;
            }
            i = i + 1;
        }
        true
    }
}

} // verus!
