use vstd::prelude::*;

verus! {

/// The identity of a worker: its index in the runtime's worker list.
#[derive(Clone, Copy, Debug, PartialEq, Eq, Structural)]
pub struct WorkerId(pub usize);

/// `ids` with the entry at `pos` replaced by the last entry and the last
/// entry dropped, as `Vec::swap_remove` leaves it.
pub open spec fn swap_removed(ids: Seq<WorkerId>, pos: int) -> Seq<WorkerId> {
    ids.update(pos, ids.last()).drop_last()
}

/// The workers that are parked waiting for work, with a flag per worker
/// telling whether it is among them.
pub struct IdleWorkers {
    ids: Vec<WorkerId>,
    registered: Vec<bool>,
}

impl IdleWorkers {
    /// The idle workers, most recently registered last.
    pub closed spec fn idle(self) -> Seq<WorkerId> {
        self.ids@
    }

    /// Per worker, whether it is registered as idle.
    pub closed spec fn flags(self) -> Seq<bool> {
        self.registered@
    }

    /// The number of workers the registry covers.
    pub open spec fn worker_count(self) -> nat {
        self.flags().len()
    }

    /// Whether worker `id` is registered as idle.
    pub open spec fn is_idle(self, id: WorkerId) -> bool {
        id.0 < self.worker_count() && self.flags()[id.0 as int]
    }

    /// The list and the flags agree: a worker's flag is set exactly when it is
    /// listed, and no worker is listed twice.
    pub open spec fn wf(self) -> bool {
        &&& self.idle().no_duplicates()
        &&& forall|i: int| 0 <= i < self.idle().len() ==> (#[trigger] self.idle()[i]).0 < self.worker_count()
        &&& forall|w: usize| w < self.worker_count() ==> (#[trigger] self.flags()[w as int] <==> self.idle().contains(WorkerId(w)))
    }

    /// `self` is `old` after `register(id)`: the worker is listed last and
    /// flagged.
    pub open spec fn after_register(self, old: IdleWorkers, id: WorkerId) -> bool {
        &&& self.idle() == old.idle().push(id)
        &&& self.flags() == old.flags().update(id.0 as int, true)
    }

    /// `self` is `old` after `cancel(id)`: a listed worker is swap-removed
    /// from the list and unflagged; otherwise nothing changes.
    pub open spec fn after_cancel(self, old: IdleWorkers, id: WorkerId) -> bool {
        if old.is_idle(id) {
            &&& self.idle() == swap_removed(old.idle(), old.idle().index_of(id))
            &&& self.flags() == old.flags().update(id.0 as int, false)
        } else {
            &&& self.idle() == old.idle()
            &&& self.flags() == old.flags()
        }
    }

    /// `self` is `old` after `take_one()` returned `taken`: the last listed
    /// worker is taken off the list and unflagged; from an empty list,
    /// nothing is taken and nothing changes.
    pub open spec fn after_take(self, old: IdleWorkers, taken: Option<WorkerId>) -> bool {
        if old.idle().len() == 0 {
            &&& taken is None
            &&& self.idle() == old.idle()
            &&& self.flags() == old.flags()
        } else {
            &&& taken == Some(old.idle().last())
            &&& self.idle() == old.idle().drop_last()
            &&& self.flags() == old.flags().update(old.idle().last().0 as int, false)
        }
    }

    /// The workers whose flag is set.
    pub open spec fn flagged(self) -> Set<WorkerId> {
        Set::new(|w: WorkerId| self.is_idle(w))
    }

    /// A registry of `worker_count` workers, none of them idle.
    pub fn new(worker_count: usize) -> (idle: Self)
        ensures
            idle.wf(),
            idle.idle() == Seq::<WorkerId>::empty(),
            idle.flags() == Seq::new(worker_count as nat, |i: int| false),
    {
        let ids: Vec<WorkerId> = Vec::with_capacity(worker_count);
        let mut registered: Vec<bool> = Vec::with_capacity(worker_count);
        let mut i: usize = 0;
        while i < worker_count
            invariant
                i <= worker_count,
                registered@ == Seq::new(i as nat, |j: int| false),
            decreases worker_count - i,
        {
            registered.push(false);
            i = i + 1;
        }
        IdleWorkers { ids, registered }
    }

    /// The number of workers the registry covers.
    pub fn workers(&self) -> (n: usize)
        ensures
            n == self.worker_count(),
    {
        self.registered.len()
    }

    /// Whether worker `id` is registered as idle; `false` for a worker the
    /// registry does not cover.
    pub fn is_registered(&self, id: WorkerId) -> (idle: bool)
        ensures
            idle == self.is_idle(id),
    {
        id.0 < self.registered.len() && self.registered[id.0]
    }

    /// The number of idle workers.
    pub fn len(&self) -> (n: usize)
        ensures
            n == self.idle().len(),
    {
        self.ids.len()
    }

    /// Register worker `id` as idle. The worker must exist and must not be
    /// registered already.
    pub fn register(&mut self, id: WorkerId)
        requires
            old(self).wf(),
            id.0 < old(self).worker_count(),
            !old(self).is_idle(id),
        ensures
            final(self).wf(),
            final(self).after_register(*old(self), id),
    {
        self.registered.set(id.0, true);
        self.ids.push(id);
        proof {
            let ids = self.ids@;
            let old_ids = old(self).ids@;
            assert forall|w: usize| w < self.registered@.len() implies (#[trigger] self.registered@[w as int] <==> ids.contains(WorkerId(w))) by {
                if w == id.0 {
                    assert(ids[ids.len() - 1] == id);
                } else {
                    if ids.contains(WorkerId(w)) {
                        let k = choose|k: int| 0 <= k < ids.len() && ids[k] == WorkerId(w);
                        assert(old_ids[k] == WorkerId(w));
                    }
                    if old_ids.contains(WorkerId(w)) {
                        let k = choose|k: int| 0 <= k < old_ids.len() && old_ids[k] == WorkerId(w);
                        assert(ids[k] == WorkerId(w));
                    }
                }
            }
            assert forall|i: int, j: int| 0 <= i < ids.len() && 0 <= j < ids.len() && i != j implies ids[i] != ids[j] by {
                if i == ids.len() - 1 {
                    assert(old_ids.contains(ids[j]));
                } else if j == ids.len() - 1 {
                    assert(old_ids.contains(ids[i]));
                }
            }
        }
    }

    /// Withdraw worker `id` from the idle workers, if it is registered; the
    /// last listed worker takes its place in the list. The worker must exist.
    pub fn cancel(&mut self, id: WorkerId)
        requires
            old(self).wf(),
            id.0 < old(self).worker_count(),
        ensures
            final(self).wf(),
            final(self).after_cancel(*old(self), id),
            !final(self).is_idle(id),
    {
        if !self.registered[id.0] {
            return;
        }
        proof {
            assert(self.ids@.contains(id));
        }
        let mut position: usize = 0;
        while self.ids[position] != id
            invariant
                self.ids@ == old(self).ids@,
                self.registered@ == old(self).registered@,
                self.ids@.contains(id),
                position < self.ids.len(),
                forall|k: int| 0 <= k < position ==> self.ids@[k] != id,
            decreases self.ids@.len() - position,
        {
            position = position + 1;
            proof {
                if position == self.ids@.len() {
                    let k = choose|k: int| 0 <= k < self.ids@.len() && self.ids@[k] == id;
                    assert(false);
                }
            }
        }
        let ghost old_ids = self.ids@;
        proof {
            assert(old_ids.index_of(id) == position) by {
                let c = old_ids.index_of(id);
                assert(old_ids.contains(id));
                assert(0 <= c < old_ids.len() && old_ids[c] == id);
            }
        }
        self.ids.swap_remove(position);
        self.registered.set(id.0, false);
        proof {
            let ids = self.ids@;
            assert(ids == swap_removed(old_ids, position as int));
            assert forall|i: int, j: int| 0 <= i < ids.len() && 0 <= j < ids.len() && i != j implies ids[i] != ids[j] by {
                if i == position {
                    assert(ids[i] == old_ids[old_ids.len() - 1]);
                } else if j == position {
                    assert(ids[j] == old_ids[old_ids.len() - 1]);
                }
            }
            assert forall|i: int| 0 <= i < ids.len() implies (#[trigger] ids[i]).0 < self.registered@.len() by {
                if i == position {
                    assert(ids[i] == old_ids[old_ids.len() - 1]);
                } else {
                    assert(ids[i] == old_ids[i]);
                }
            }
            assert forall|w: usize| w < self.registered@.len() implies (#[trigger] self.registered@[w as int] <==> ids.contains(WorkerId(w))) by {
                let wid = WorkerId(w);
                if ids.contains(wid) {
                    let k = choose|k: int| 0 <= k < ids.len() && ids[k] == wid;
                    if k == position {
                        assert(old_ids[old_ids.len() - 1] == wid);
                        assert(old_ids.len() - 1 != position);
                    } else {
                        assert(old_ids[k] == wid);
                        assert(k != position);
                    }
                    assert(wid != id);
                    assert(old_ids.contains(wid));
                }
                if w != id.0 && old(self).registered@[w as int] {
                    assert(old_ids.contains(wid));
                    let k = choose|k: int| 0 <= k < old_ids.len() && old_ids[k] == wid;
                    assert(k != position);
                    if k == old_ids.len() - 1 {
                        assert(ids[position as int] == wid);
                    } else {
                        assert(ids[k] == wid);
                    }
                }
            }
        }
    }

    /// Take the most recently registered idle worker off the list and clear
    /// its flag; `None`, with nothing changed, if no worker is idle.
    pub fn take_one(&mut self) -> (taken: Option<WorkerId>)
        requires
            old(self).wf(),
        ensures
            final(self).wf(),
            final(self).after_take(*old(self), taken),
    {
        if self.ids.len() == 0 {
            return None;
        }
        let id = match self.ids.pop() {
            Some(id) => id,
            None => return None,
        };
        self.registered.set(id.0, false);
        proof {
            let ids = self.ids@;
            let old_ids = old(self).ids@;
            assert(old_ids[old_ids.len() - 1] == id);
            assert forall|w: usize| w < self.registered@.len() implies (#[trigger] self.registered@[w as int] <==> ids.contains(WorkerId(w))) by {
                let wid = WorkerId(w);
                if ids.contains(wid) {
                    let k = choose|k: int| 0 <= k < ids.len() && ids[k] == wid;
                    assert(old_ids[k] == wid);
                    assert(old_ids.contains(wid));
                }
                if w != id.0 && old(self).registered@[w as int] {
                    let k = choose|k: int| 0 <= k < old_ids.len() && old_ids[k] == wid;
                    assert(k != old_ids.len() - 1);
                    assert(ids[k] == wid);
                }
            }
        }
        Some(id)
    }
}

/// A worker registered as idle is the next one taken: registering `id` and
/// then taking one worker gives back `id` and leaves the registry as it was.
pub proof fn lemma_take_returns_last_registered(
    before: IdleWorkers,
    registered: IdleWorkers,
    after: IdleWorkers,
    id: WorkerId,
    taken: Option<WorkerId>,
)
    requires
        before.wf(),
        id.0 < before.worker_count(),
        !before.is_idle(id),
        registered.after_register(before, id),
        after.after_take(registered, taken),
    ensures
        taken == Some(id),
        after.idle() == before.idle(),
        after.flags() == before.flags(),
{
    assert(registered.idle().last() == id);
    assert(after.idle() =~= before.idle());
    assert(after.flags() =~= before.flags());
}

/// Taking a worker from a well-formed registry gives a worker that was idle
/// and no longer is, and gives nothing only when no worker was idle; every
/// other worker keeps its state.
pub proof fn lemma_taken_worker_was_idle(before: IdleWorkers, after: IdleWorkers, taken: Option<WorkerId>)
    requires
        before.wf(),
        after.after_take(before, taken),
    ensures
        taken matches Some(w) ==> before.is_idle(w) && !after.is_idle(w),
        taken is None <==> forall|w: WorkerId| !before.is_idle(w),
        forall|w: WorkerId| taken != Some(w) ==> (after.is_idle(w) == before.is_idle(w)),
{
    if before.idle().len() > 0 {
        let w = before.idle().last();
        assert(before.idle()[before.idle().len() - 1] == w);
        assert(before.idle().contains(w));
        assert(w.0 < before.worker_count());
        assert(before.flags()[w.0 as int]);
        assert(before.is_idle(w));
    } else {
        assert forall|w: WorkerId| !before.is_idle(w) by {
            if before.is_idle(w) {
                assert(before.flags()[w.0 as int]);
                assert(before.idle().contains(w));
            }
        }
    }
}

/// Cancelling leaves worker `id` not idle and every other worker as it was.
pub proof fn lemma_cancel_touches_only_its_worker(before: IdleWorkers, after: IdleWorkers, id: WorkerId)
    requires
        before.wf(),
        id.0 < before.worker_count(),
        after.after_cancel(before, id),
    ensures
        !after.is_idle(id),
        forall|w: WorkerId| w != id ==> (after.is_idle(w) == before.is_idle(w)),
{
}

/// The idle count is the number of workers whose flag is set, and never
/// more than the number of workers.
pub proof fn lemma_idle_count_is_flag_count(idle: IdleWorkers)
    requires
        idle.wf(),
    ensures
        idle.flagged().finite(),
        idle.idle().len() == idle.flagged().len(),
        idle.idle().len() <= idle.worker_count(),
{
    let ids = idle.idle();
    let n = idle.worker_count();
    assert(ids.to_set() =~= idle.flagged()) by {
        assert forall|w: WorkerId| ids.to_set().contains(w) <==> idle.flagged().contains(w) by {
            if ids.contains(w) {
                let k = choose|k: int| 0 <= k < ids.len() && ids[k] == w;
                assert(ids[k].0 < n);
                assert(idle.flags()[w.0 as int]);
            }
            if idle.is_idle(w) {
                assert(idle.flags()[w.0 as int]);
            }
        }
    }
    ids.unique_seq_to_set();
    vstd::seq_lib::seq_to_set_is_finite(ids);

    let nums = ids.map_values(|w: WorkerId| w.0 as int);
    assert(nums.no_duplicates()) by {
        assert forall|i: int, j: int| 0 <= i < nums.len() && 0 <= j < nums.len() && i != j implies nums[i] != nums[j] by {
            assert(ids[i] != ids[j]);
        }
    }
    nums.unique_seq_to_set();
    vstd::set_lib::lemma_int_range(0, n as int);
    assert(nums.to_set().subset_of(vstd::set_lib::set_int_range(0, n as int))) by {
        assert forall|x: int| nums.to_set().contains(x) implies vstd::set_lib::set_int_range(0, n as int).contains(x) by {
            let k = choose|k: int| 0 <= k < nums.len() && nums[k] == x;
            assert(ids[k].0 < n);
        }
    }
    vstd::set_lib::lemma_len_subset(nums.to_set(), vstd::set_lib::set_int_range(0, n as int));
}

}
