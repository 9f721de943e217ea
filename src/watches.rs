use vstd::prelude::*;
use crate::pipe::{poll_value, Received};
use crate::resource::{removal_key, removal_task, ResourceWatch};
use crate::tasks::{BackendTask, ResourceKind};

verus! {

/// The watches of the resources that are stored and still have handles,
/// held by the orchestration loop. Each resource is watched at most once.
pub struct ResourceWatches {
    watches: Vec<ResourceWatch>,
}

/// The keys of a sequence of removal tasks.
pub open spec fn released_keys(out: Seq<BackendTask>) -> Seq<Option<(ResourceKind, u64)>> {
    Seq::new(out.len(), |i: int| removal_key(out[i]))
}

/// One collection, from `before` to `after`, that released the tasks `out`:
/// each task frees a resource that was watched and is not anymore, no
/// resource is freed twice, and every watch that stays was there before.
pub open spec fn collect_step(
    before: ResourceWatches,
    out: Seq<BackendTask>,
    after: ResourceWatches,
) -> bool {
    &&& after.wf()
    &&& forall|k| after.keys().contains(k) ==> before.keys().contains(k)
    &&& forall|i: int|
        0 <= i < out.len() ==> {
            &&& removal_key(#[trigger] out[i]) is Some
            &&& before.keys().contains(removal_key(out[i])->0)
            &&& !after.keys().contains(removal_key(out[i])->0)
        }
    &&& released_keys(out).no_duplicates()
    &&& out.len() + after.keys().len() == before.keys().len()
}

impl ResourceWatches {
    /// The resources watched, in the order the watches are kept.
    pub closed spec fn keys(&self) -> Seq<(ResourceKind, u64)> {
        Seq::new(self.watches@.len(), |i: int| self.watches@[i].key())
    }

    pub open spec fn wf(&self) -> bool {
        self.keys().no_duplicates()
    }

    pub fn new() -> (r: Self)
        ensures
            r.keys() == Seq::<(ResourceKind, u64)>::empty(),
            r.wf(),
    {
        let r = ResourceWatches { watches: Vec::new() };
        assert(r.keys() =~= Seq::<(ResourceKind, u64)>::empty());
        r
    }

    /// Number of resources watched.
    pub fn len(&self) -> (r: usize)
        ensures
            r == self.keys().len(),
    {
        self.watches.len()
    }

    /// Whether the resource `key` is watched.
    pub fn is_watching(&self, key: (ResourceKind, u64)) -> (r: bool)
        ensures
            r == self.keys().contains(key),
    {
        let mut i: usize = 0;
        while i < self.watches.len()
            invariant
                i <= self.watches@.len(),
                forall|j: int| 0 <= j < i ==> self.keys()[j] != key,
            decreases self.watches@.len() - i,
        {
            let k = self.watches[i].watched();
            if k.0 == key.0 && k.1 == key.1 {
                assert(self.keys()[i as int] == key);
                return true;
            }
            i = i + 1;
        }
        false
    }

    /// Starts watching a resource. A resource that is watched already is
    /// not watched twice: the call then changes nothing and returns `false`.
    pub fn register(&mut self, watch: ResourceWatch) -> (r: bool)
        requires
            old(self).wf(),
        ensures
            final(self).wf(),
            r == !old(self).keys().contains(watch.key()),
            r ==> final(self).keys() == old(self).keys().push(watch.key()),
            !r ==> final(self).keys() == old(self).keys(),
    {
        if self.is_watching(watch.watched()) {
            return false;
        }
        let ghost before = self.keys();
        let ghost k = watch.key();
        self.watches.push(watch);
        assert(self.keys() =~= before.push(k));
        proof {
            lemma_push_keeps_no_duplicates(before, k);
        }
        true
    }

    /// Stops watching every resource whose handles are all gone, and returns
    /// the removals of those resources, one for each.
    pub fn collect_released(&mut self) -> (r: Vec<BackendTask>)
        requires
            old(self).wf(),
        ensures
            collect_step(*old(self), r@, *final(self)),
    {
        let ghost all = old(self).keys();
        let mut pending: Vec<ResourceWatch> = Vec::new();
        std::mem::swap(&mut pending, &mut self.watches);
        assert(self.keys() =~= Seq::<(ResourceKind, u64)>::empty());
        let mut out: Vec<BackendTask> = Vec::new();
        while pending.len() > 0
            invariant
                all == old(self).keys(),
                all.no_duplicates(),
                pending@.len() <= all.len(),
                forall|i: int| 0 <= i < pending@.len() ==> #[trigger] pending@[i].key() == all[i],
                self.wf(),
                forall|k|
                    #[trigger] self.keys().contains(k) ==> exists|j: int|
                        pending@.len() <= j < all.len() && all[j] == k,
                forall|i: int|
                    0 <= i < out@.len() ==> {
                        &&& removal_key(#[trigger] out@[i]) is Some
                        &&& exists|j: int|
                            pending@.len() <= j < all.len() && all[j] == removal_key(out@[i])->0
                        &&& !self.keys().contains(removal_key(out@[i])->0)
                    },
                released_keys(out@).no_duplicates(),
                out@.len() + self.keys().len() + pending@.len() == all.len(),
            decreases pending@.len(),
        {
            let ghost m = pending@.len() - 1;
            let watch = pending.pop().unwrap();
            let ghost k = watch.key();
            assert(k == all[m]);
            assert(!self.keys().contains(k)) by {
                if self.keys().contains(k) {
                    let j = choose|j: int| pending@.len() + 1 <= j < all.len() && all[j] == k;
                    assert(all[j] == all[m]);
                }
            }
            let gone = match poll_value(watch.signal()) {
                Received::Disconnected => true,
                Received::Empty => false,
                Received::Value(_) => false,
            };
            if gone {
                let ghost out_before = out@;
                let task = removal_task(watch.watched());
                out.push(task);
                assert(released_keys(out@) =~= released_keys(out_before).push(Some(k)));
                assert forall|i: int| 0 <= i < out_before.len() implies removal_key(out_before[i])
                    != Some(k) by {
                    if removal_key(out_before[i]) == Some(k) {
                        let j = choose|j: int|
                            pending@.len() + 1 <= j < all.len() && all[j] == removal_key(
                                out_before[i],
                            )->0;
                        assert(all[j] == all[m]);
                    }
                }
                assert(!released_keys(out_before).contains(Some(k))) by {
                    if released_keys(out_before).contains(Some(k)) {
                        let i = choose|i: int|
                            0 <= i < out_before.len() && released_keys(out_before)[i] == Some(k);
                        assert(removal_key(out_before[i]) != Some(k));
                    }
                }
                proof {
                    lemma_push_keeps_no_duplicates(released_keys(out_before), Some(k));
                }
                assert forall|i: int| 0 <= i < out@.len() implies {
                    &&& removal_key(#[trigger] out@[i]) is Some
                    &&& exists|j: int|
                        pending@.len() <= j < all.len() && all[j] == removal_key(out@[i])->0
                    &&& !self.keys().contains(removal_key(out@[i])->0)
                } by {
                    if i == out_before.len() {
                        assert(all[m] == removal_key(out@[i])->0);
                    } else {
                        assert(out@[i] == out_before[i]);
                    }
                }
            } else {
                let ghost before = self.keys();
                self.watches.push(watch);
                assert(self.keys() =~= before.push(k));
                proof {
            lemma_push_keeps_no_duplicates(before, k);
        }
                assert forall|kk| #[trigger] self.keys().contains(kk) implies exists|j: int|
                    pending@.len() <= j < all.len() && all[j] == kk by {
                    if kk == k {
                        assert(all[m] == kk);
                    } else {
                        let t = choose|t: int| 0 <= t < self.keys().len() && self.keys()[t] == kk;
                        assert(before[t] == kk);
                        assert(before.contains(kk));
                    }
                }
                assert forall|i: int| 0 <= i < out@.len() implies !self.keys().contains(
                    removal_key(#[trigger] out@[i])->0,
                ) by {
                    let c = removal_key(out@[i])->0;
                    assert(!before.contains(c));
                    if self.keys().contains(c) {
                        let t = choose|t: int| 0 <= t < self.keys().len() && self.keys()[t] == c;
                        if t < before.len() {
                            assert(before[t] == c);
                        } else {
                            let j = choose|j: int|
                                pending@.len() + 1 <= j < all.len() && all[j] == c;
                            assert(all[j] == all[m]);
                        }
                    }
                }
            }
        }
        assert forall|k| #[trigger] self.keys().contains(k) implies old(self).keys().contains(k) by {
            let j = choose|j: int| 0 <= j < all.len() && all[j] == k;
        }
        assert forall|i: int| 0 <= i < out@.len() implies old(self).keys().contains(
            removal_key(#[trigger] out@[i])->0,
        ) by {
            let j = choose|j: int| 0 <= j < all.len() && all[j] == removal_key(out@[i])->0;
        }
        out
    }
}

proof fn lemma_push_keeps_no_duplicates<A>(s: Seq<A>, x: A)
    requires
        s.no_duplicates(),
        !s.contains(x),
    ensures
        s.push(x).no_duplicates(),
{
    let t = s.push(x);
    assert forall|i: int, j: int| 0 <= i < t.len() && 0 <= j < t.len() && i != j implies t[i]
        != t[j] by {
        if i < s.len() && j < s.len() {
            assert(t[i] == s[i] && t[j] == s[j]);
        } else if i == s.len() {
            assert(t[j] == s[j]);
        } else {
            assert(t[i] == s[i]);
        }
    }
}

/// At-most-once removal: a resource freed by one collection is not freed by
/// a later one, as long as no resource that was freed is watched again
/// (ids are never reused while a handle exists).
pub proof fn lemma_released_at_most_once(
    w0: ResourceWatches,
    out1: Seq<BackendTask>,
    w1: ResourceWatches,
    w2: ResourceWatches,
    out2: Seq<BackendTask>,
    w3: ResourceWatches,
)
    requires
        collect_step(w0, out1, w1),
        forall|k|
            #[trigger] w2.keys().contains(k) ==> w1.keys().contains(k) || !released_keys(
                out1,
            ).contains(Some(k)),
        collect_step(w2, out2, w3),
    ensures
        forall|i: int, j: int|
            0 <= i < out1.len() && 0 <= j < out2.len() ==> removal_key(#[trigger] out1[i])
                != removal_key(#[trigger] out2[j]),
{
    assert forall|i: int, j: int| 0 <= i < out1.len() && 0 <= j < out2.len() implies removal_key(
        #[trigger] out1[i],
    ) != removal_key(#[trigger] out2[j]) by {
        let k = removal_key(out1[i])->0;
        if removal_key(out1[i]) == removal_key(out2[j]) {
            assert(w2.keys().contains(k));
            assert(released_keys(out1)[i] == Some(k));
            assert(released_keys(out1).contains(Some(k)));
        }
    }
}

} // verus!
