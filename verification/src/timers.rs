//! The waits that are in flight for one attempt.

use vstd::prelude::*;

verus! {

/// One wait in flight: the id of the operation it belongs to and the logical
/// time at which it ends.
#[derive(PartialEq, Eq, Structural, Clone, Copy, Debug)]
pub struct Timer {
    pub id: usize,
    pub wake_at: u64,
}

/// Whether some entry of `s` carries `id`.
pub open spec fn has_id(s: Seq<Timer>, id: usize) -> bool {
    exists|i: int| 0 <= i < s.len() && (#[trigger] s[i]).id == id
}

/// No id occurs twice.
pub open spec fn distinct_ids(s: Seq<Timer>) -> bool {
    forall|i: int, j: int|
        0 <= i < s.len() && 0 <= j < s.len() && i != j ==> (#[trigger] s[i]).id != (
        #[trigger] s[j]).id
}

/// `a` ends no later than `b`: by wake-up time, and among equal times by id,
/// which is the order of issue.
pub open spec fn due_no_later(a: Timer, b: Timer) -> bool {
    a.wake_at < b.wake_at || (a.wake_at == b.wake_at && a.id <= b.id)
}

/// Entry `k` of `s` ends no later than any other.
pub open spec fn is_earliest(s: Seq<Timer>, k: int) -> bool {
    &&& 0 <= k < s.len()
    &&& forall|j: int| 0 <= j < s.len() ==> due_no_later(s[k], #[trigger] s[j])
}

/// The waits in flight, in order of issue.
pub struct TimerSet {
    pub entries: Vec<Timer>,
}

impl View for TimerSet {
    type V = Seq<Timer>;

    open spec fn view(&self) -> Seq<Timer> {
        self.entries@
    }
}

impl TimerSet {
    pub open spec fn well_formed(&self) -> bool {
        distinct_ids(self@)
    }

    pub fn new() -> (set: Self)
        ensures
            set@ == Seq::<Timer>::empty(),
            set.well_formed(),
    {
        TimerSet { entries: Vec::new() }
    }

    pub fn len(&self) -> (n: usize)
        ensures
            n == self@.len(),
    {
        self.entries.len()
    }

    /// Position of the first entry with `id`, if there is one.
    pub fn find(&self, id: usize) -> (found: Option<usize>)
        ensures
            found.is_none() <==> !has_id(self@, id),
            found matches Some(k) ==> k < self@.len() && self@[k as int].id == id && forall|j: int|
                0 <= j < k ==> (#[trigger] self@[j]).id != id,
    {
        let mut i: usize = 0;
        while i < self.entries.len()
            invariant
                i <= self@.len(),
                forall|j: int| 0 <= j < i ==> (#[trigger] self@[j]).id != id,
            decreases self@.len() - i,
        {
            if self.entries[i].id == id {
                return Some(i);
            }
            i += 1;
        }
        None
    }

    /// Starts a wait for the operation with the fresh id `id`.
    pub fn spawn(&mut self, id: usize, wake_at: u64)
        requires
            old(self).well_formed(),
            !has_id(old(self)@, id),
        ensures
            final(self)@ == old(self)@.push(Timer { id, wake_at }),
            final(self).well_formed(),
    {
        self.entries.push(Timer { id, wake_at });
        proof {
            let before = old(self)@;
            let after = self@;
            assert forall|i: int, j: int|
                0 <= i < after.len() && 0 <= j < after.len() && i != j implies (
            #[trigger] after[i]).id != (#[trigger] after[j]).id by {
                if i < before.len() {
                    assert(after[i] == before[i]);
                }
                if j < before.len() {
                    assert(after[j] == before[j]);
                }
            }
        }
    }

    /// Takes the wait with `id` out of the set. Without such a wait the set
    /// stays as it is.
    pub fn remove(&mut self, id: usize) -> (taken: Option<Timer>)
        requires
            old(self).well_formed(),
        ensures
            final(self).well_formed(),
            taken.is_none() <==> !has_id(old(self)@, id),
            taken.is_none() ==> final(self)@ == old(self)@,
            taken matches Some(t) ==> t.id == id && exists|k: int|
                0 <= k < old(self)@.len() && #[trigger] old(self)@[k] == t && final(self)@ == old(
                    self)@.remove(k),
    {
        match self.find(id) {
            None => None,
            Some(k) => {
                let t = self.entries.remove(k);
                proof {
                    lemma_remove_keeps_distinct(old(self)@, k as int);
                }
                Some(t)
            },
        }
    }

    /// Position of the wait that ends first, if there is any.
    pub fn earliest(&self) -> (first: Option<usize>)
        ensures
            first.is_none() <==> self@.len() == 0,
            first matches Some(k) ==> is_earliest(self@, k as int),
    {
        if self.entries.len() == 0 {
            return None;
        }
        let mut best: usize = 0;
        let mut i: usize = 1;
        while i < self.entries.len()
            invariant
                1 <= i <= self@.len(),
                best < i,
                forall|j: int| 0 <= j < i ==> due_no_later(self@[best as int], #[trigger] self@[j]),
            decreases self@.len() - i,
        {
            let cand = &self.entries[i];
            let cur = &self.entries[best];
            if cand.wake_at < cur.wake_at || (cand.wake_at == cur.wake_at && cand.id < cur.id) {
                best = i;
            }
            i += 1;
        }
        Some(best)
    }
}

/// Taking one entry out of a set without repeated ids leaves none repeated,
/// the id taken out is gone, and every other id is where it was.
pub proof fn lemma_remove_keeps_distinct(s: Seq<Timer>, k: int)
    requires
        distinct_ids(s),
        0 <= k < s.len(),
    ensures
        distinct_ids(s.remove(k)),
        !has_id(s.remove(k), s[k].id),
        forall|id: usize| id != s[k].id ==> (has_id(s.remove(k), id) <==> has_id(s, id)),
{
    let r = s.remove(k);
    assert forall|i: int, j: int| 0 <= i < r.len() && 0 <= j < r.len() && i != j implies (
    #[trigger] r[i]).id != (#[trigger] r[j]).id by {
        let si = if i < k { i } else { i + 1 };
        let sj = if j < k { j } else { j + 1 };
        assert(r[i] == s[si]);
        assert(r[j] == s[sj]);
    }
    if has_id(r, s[k].id) {
        let i = choose|i: int| 0 <= i < r.len() && (#[trigger] r[i]).id == s[k].id;
        let si = if i < k { i } else { i + 1 };
        assert(r[i] == s[si]);
        assert(false);
    }
    assert forall|id: usize| id != s[k].id implies (has_id(r, id) <==> has_id(s, id)) by {
        if has_id(r, id) {
            let i = choose|i: int| 0 <= i < r.len() && (#[trigger] r[i]).id == id;
            let si = if i < k { i } else { i + 1 };
            assert(r[i] == s[si]);
            assert(s[si].id == id);
        }
        if has_id(s, id) {
            let i = choose|i: int| 0 <= i < s.len() && (#[trigger] s[i]).id == id;
            let ri = if i < k { i } else { i - 1 };
            assert(r[ri] == s[i]);
            assert(r[ri].id == id);
        }
    }
}

/// Among waits with distinct ids exactly one ends first.
pub proof fn lemma_earliest_is_unique(s: Seq<Timer>, k1: int, k2: int)
    requires
        distinct_ids(s),
        is_earliest(s, k1),
        is_earliest(s, k2),
    ensures
        k1 == k2,
{
    assert(due_no_later(s[k1], s[k2]));
    assert(due_no_later(s[k2], s[k1]));
}

/// Completion order: while a wait `a` with an earlier wake-up time is in
/// flight, a later one `b` is never the one that ends first.
pub proof fn lemma_earlier_wake_completes_first(s: Seq<Timer>, a: int, b: int, k: int)
    requires
        0 <= a < s.len(),
        0 <= b < s.len(),
        s[a].wake_at < s[b].wake_at,
        is_earliest(s, k),
    ensures
        k != b,
        s[k].wake_at <= s[a].wake_at,
{
    assert(due_no_later(s[k], s[a]));
}

/// Completions come in the order of their wake-up times: what ends next,
/// once the earliest wait has left the set, ends no earlier than that wait
/// did.
pub proof fn lemma_successive_completions_ordered(s: Seq<Timer>, k: int, next: int)
    requires
        is_earliest(s, k),
        is_earliest(s.remove(k), next),
    ensures
        due_no_later(s[k], s.remove(k)[next]),
{
    let j = if next < k { next } else { next + 1 };
    assert(s.remove(k)[next] == s[j]);
}

} // verus!
