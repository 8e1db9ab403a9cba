//! Notifying many tasks at once.

pub mod hash;

use crate::int_map::{
    insert, keys_of, lemma_walk_begins, lemma_walk_ends, lemma_walk_goes_on, len_of, new_map, remove,
    walked,
};
use nohash_hasher::IntMap;
use std::task::Waker;
use vstd::prelude::*;

verus! {

/// A notifier maintains a collection of tasks which should be
/// notified at some point.
#[derive(Debug)]
pub struct Notifier {
    tasks: IntMap<usize, Waker>,
}

impl View for Notifier {
    type V = Map<usize, Waker>;

    closed spec fn view(&self) -> Map<usize, Waker> {
        self.tasks@
    }
}

/// Is a task with this identifier to be notified?
pub open spec fn notifies(out: Seq<(usize, Waker)>, id: usize) -> bool {
    exists|i: int| 0 <= i < out.len() && (#[trigger] out[i]).0 == id
}

/// All tasks are to be notified, each once.
pub open spec fn all_notified(m: Map<usize, Waker>, out: Seq<(usize, Waker)>) -> bool {
    &&& forall|i: int|
        0 <= i < out.len() ==> m.contains_key((#[trigger] out[i]).0) && out[i].1 == m[out[i].0]
    &&& forall|i: int, j: int|
        0 <= i < j < out.len() ==> (#[trigger] out[i]).0 != (#[trigger] out[j]).0
    &&& forall|id: usize| m.contains_key(id) ==> #[trigger] notifies(out, id)
}

impl Notifier {
    /// A notifier of no task.
    pub fn new() -> (n: Self)
        ensures
            n@ == Map::<usize, Waker>::empty(),
    {
        Notifier { tasks: new_map() }
    }

    /// Insert the current task, which has the given identifier, to the set of tasks to be notified.
    ///
    /// A task is notified once, by the waker that was inserted last.
    pub fn insert_current(&mut self, id: usize, task: Waker)
        ensures
            final(self)@ == old(self)@.insert(id, task),
    {
        insert(&mut self.tasks, id, task);
    }

    /// Forget all registered tasks, and tell which they are: they are to be notified.
    pub fn notify_all(&mut self) -> (out: Vec<(usize, Waker)>)
        ensures
            final(self)@ == Map::<usize, Waker>::empty(),
            all_notified(old(self)@, out@),
    {
        let keys = keys_of(&self.tasks);
        let mut out: Vec<(usize, Waker)> = Vec::new();
        let mut i: usize = 0;
        let ghost m = self@;
        let ghost keep = |k: usize| false;
        let ghost mut taken: Seq<usize> = Seq::empty();
        proof {
            lemma_walk_begins(keys@, m, keep);
        }
        while i < keys.len()
            invariant
                walked(keys@, m, keep, i as int, self@, taken),
                keep == (|k: usize| false),
                out@.len() == taken.len(),
                forall|j: int|
                    0 <= j < out@.len() ==> {
                        &&& (#[trigger] out@[j]).0 == taken[j]
                        &&& out@[j].1 == m[taken[j]]
                    },
            decreases keys@.len() - i,
        {
            let k: usize = keys[i];
            proof {
                lemma_walk_goes_on(keys@, m, keep, i as int, self@, taken);
                taken = taken.push(k);
            }
            i += 1;
            if let Some(task) = remove(&mut self.tasks, k) {
                out.push((k, task));
            }
        }
        proof {
            lemma_walk_ends(keys@, m, keep, self@, taken);
            assert forall|k: usize| m.contains_key(k) implies #[trigger] notifies(out@, k) by {
                assert(taken.contains(k));
                let j = choose|j: int| 0 <= j < taken.len() && taken[j] == k;
                assert(out@[j].0 == k);
            }
            assert(self@ =~= Map::<usize, Waker>::empty());
        }
        out
    }

    /// Return the number of currently registered tasks.
    pub fn len(&self) -> (n: usize)
        ensures
            n == self@.len(),
    {
        len_of(&self.tasks)
    }
}

/// Each task that was inserted is notified, by the waker that was inserted last, and no other.
pub proof fn law_all_tasks_are_notified(
    m: Map<usize, Waker>,
    id: usize,
    task: Waker,
    out: Seq<(usize, Waker)>,
    k: usize,
)
    requires
        all_notified(m.insert(id, task), out),
    ensures
        (exists|i: int| 0 <= i < out.len() && (#[trigger] out[i]).0 == k) <==> k == id
            || m.contains_key(k),
        exists|i: int| 0 <= i < out.len() && (#[trigger] out[i]).0 == id && out[i].1 == task,
        forall|i: int|
            0 <= i < out.len() && (#[trigger] out[i]).0 == k && k != id ==> out[i].1 == m[k],
        forall|i: int, j: int|
            0 <= i < j < out.len() ==> (#[trigger] out[i]).0 != (#[trigger] out[j]).0,
{
    let n = m.insert(id, task);
    assert(n.contains_key(id));
    assert(notifies(out, id));
    let a = choose|a: int| 0 <= a < out.len() && (#[trigger] out[a]).0 == id;
    assert(out[a].1 == task);
    if n.contains_key(k) {
        assert(notifies(out, k));
    }
}

} // verus!
