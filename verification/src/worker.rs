//! The worker-side reorder buffer and its shutdown rule.
//!
//! Each worker drains the global queue into a local buffer kept in
//! ascending `target_floor` order and forwards buffered tasks in that
//! order — until it pops a sentinel (`Stop`-tagged) task, which
//! terminates the worker at once: whatever is still buffered behind
//! the sentinel is never forwarded. Parking an idle worker and the
//! forwarding channel live outside the core.

use vstd::prelude::*;

use crate::task::{ElevatorTask, TaskType};

verus! {

/// Whether the tasks stand in ascending `target_floor` order.
pub open spec fn sorted_by_floor(s: Seq<ElevatorTask>) -> bool {
    forall|i: int, j: int|
        0 <= i < j < s.len() ==> #[trigger] s[i].target_floor <= #[trigger] s[j].target_floor
}

/// Index of the first sentinel (`Stop`-tagged) task in `s`, or
/// `s.len()` when none is present.
pub open spec fn first_sentinel(s: Seq<ElevatorTask>) -> int
    decreases s.len(),
{
    if s.len() == 0 {
        0
    } else if s[0].task_status == TaskType::Stop {
        0
    } else {
        1 + first_sentinel(s.drop_first())
    }
}

/// Characterizes `first_sentinel`: it is the position `k` with no
/// sentinel before it that either carries a sentinel or is the end.
pub proof fn lemma_first_sentinel_at(s: Seq<ElevatorTask>, k: int)
    requires
        0 <= k <= s.len(),
        forall|i: int| 0 <= i < k ==> (#[trigger] s[i]).task_status != TaskType::Stop,
        k < s.len() ==> s[k].task_status == TaskType::Stop,
    ensures
        first_sentinel(s) == k,
    decreases s.len(),
{
    if s.len() == 0 {
    } else if k == 0 {
    } else {
        assert(s[0].task_status != TaskType::Stop);
        assert forall|i: int| 0 <= i < k - 1 implies (#[trigger] s.drop_first()[i]).task_status
            != TaskType::Stop by {
            assert(s.drop_first()[i] == s[i + 1]);
        }
        if k - 1 < s.drop_first().len() {
            assert(s.drop_first()[k - 1] == s[k]);
        }
        lemma_first_sentinel_at(s.drop_first(), k - 1);
    }
}

/// The place a task targeting floor `f` takes in the sorted buffer:
/// after every task already buffered for a floor at or below `f`.
pub open spec fn insert_pos(s: Seq<ElevatorTask>, f: int) -> int
    decreases s.len(),
{
    if s.len() == 0 {
        0
    } else if s[0].target_floor as int <= f {
        1 + insert_pos(s.drop_first(), f)
    } else {
        0
    }
}

/// Characterizes `insert_pos`: it is the position `k` preceded only
/// by floors at or below `f` and followed, if at all, by a floor
/// above `f`.
pub proof fn lemma_insert_pos_at(s: Seq<ElevatorTask>, f: int, k: int)
    requires
        0 <= k <= s.len(),
        forall|i: int| 0 <= i < k ==> (#[trigger] s[i]).target_floor as int <= f,
        k < s.len() ==> s[k].target_floor as int > f,
    ensures
        insert_pos(s, f) == k,
    decreases s.len(),
{
    if s.len() == 0 {
    } else if k == 0 {
    } else {
        assert(s[0].target_floor as int <= f);
        assert forall|i: int| 0 <= i < k - 1 implies (#[trigger] s.drop_first()[i]).target_floor
            as int <= f by {
            assert(s.drop_first()[i] == s[i + 1]);
        }
        if k - 1 < s.drop_first().len() {
            assert(s.drop_first()[k - 1] == s[k]);
        }
        lemma_insert_pos_at(s.drop_first(), f, k - 1);
    }
}

/// A worker's local reorder buffer: tasks drained from the global
/// queue, kept in ascending `target_floor` order and handed on in
/// that order.
pub struct WorkerBuffer {
    tasks: Vec<ElevatorTask>,
}

impl View for WorkerBuffer {
    type V = Seq<ElevatorTask>;

    closed spec fn view(&self) -> Seq<ElevatorTask> {
        self.tasks@
    }
}

impl WorkerBuffer {
    /// The buffer's tasks stand in ascending `target_floor` order.
    pub open spec fn wf(&self) -> bool {
        sorted_by_floor(self@)
    }

    /// An empty buffer.
    pub fn new() -> (b: Self)
        ensures
            b@ == Seq::<ElevatorTask>::empty(),
            b.wf(),
    {
        WorkerBuffer { tasks: Vec::new() }
    }

    /// How many tasks are buffered.
    pub fn len(&self) -> (n: usize)
        ensures
            n == self@.len(),
    {
        self.tasks.len()
    }

    /// Whether nothing is buffered (the worker would park).
    pub fn is_empty(&self) -> (r: bool)
        ensures
            r == (self@.len() == 0),
    {
        self.tasks.len() == 0
    }

    /// Buffers one drained task, keeping ascending floor order; a task
    /// for an already-buffered floor goes behind its equals.
    pub fn push(&mut self, t: ElevatorTask)
        requires
            old(self).wf(),
        ensures
            final(self).wf(),
            final(self)@ == old(self)@.insert(
                insert_pos(old(self)@, t.target_floor as int),
                t,
            ),
    {
        let ghost f: int = t.target_floor as int;
        let mut i: usize = 0;
        while i < self.tasks.len() && self.tasks[i].target_floor <= t.target_floor
            invariant
                self.wf(),
                self@ == self.tasks@,
                i <= self.tasks.len(),
                forall|j: int| 0 <= j < i ==> (#[trigger] self.tasks@[j]).target_floor as int <= f,
                f == t.target_floor as int,
            decreases self.tasks.len() - i,
        {
            i = i + 1;
        }
        proof {
            lemma_insert_pos_at(self.tasks@, f, i as int);
        }
        let ghost before: Seq<ElevatorTask> = self.tasks@;
        self.tasks.insert(i, t);
        proof {
            let s = self.tasks@;
            assert forall|a: int, b: int| 0 <= a < b < s.len() implies #[trigger] s[a].target_floor
                <= #[trigger] s[b].target_floor by {
                if b < i as int {
                    assert(s[a] == before[a] && s[b] == before[b]);
                } else if a > i as int {
                    assert(s[a] == before[a - 1] && s[b] == before[b - 1]);
                } else if a == i as int {
                    assert(s[a] == t && s[b] == before[b - 1]);
                    assert(before[i as int].target_floor as int > f);
                    assert(before[b - 1].target_floor as int >= before[i as int].target_floor as int);
                } else if b == i as int {
                    assert(s[a] == before[a] && s[b] == t);
                } else {
                    assert(s[a] == before[a] && s[b] == before[b - 1]);
                    assert(before[i as int].target_floor as int > f);
                    assert(before[b - 1].target_floor as int >= before[i as int].target_floor as int);
                }
            }
        }
    }

    /// Pops the buffered task with the lowest target floor, if any.
    pub fn pop_min(&mut self) -> (r: Option<ElevatorTask>)
        requires
            old(self).wf(),
        ensures
            final(self).wf(),
            old(self)@.len() == 0 ==> r is None && final(self)@ == old(self)@,
            old(self)@.len() > 0 ==> r == Some(old(self)@[0]) && final(self)@ == old(
                self,
            )@.drop_first(),
    {
        if self.tasks.len() == 0 {
            None
        } else {
            let t = self.tasks.remove(0);
            proof {
                assert(self.tasks@ =~= old(self)@.drop_first());
            }
            Some(t)
        }
    }

    /// The worker's forwarding loop: pops tasks in ascending floor
    /// order and hands them on, until the buffer runs empty or a
    /// sentinel is popped. Returns the forwarded tasks — exactly the
    /// buffered prefix before the first sentinel — and whether a
    /// sentinel terminated the worker. On termination the tasks
    /// buffered behind the sentinel are left behind, never forwarded.
    pub fn drain_forward(&mut self) -> (r: (Vec<ElevatorTask>, bool))
        requires
            old(self).wf(),
        ensures
            final(self).wf(),
            r.0@ == old(self)@.take(first_sentinel(old(self)@)),
            r.1 == (first_sentinel(old(self)@) < old(self)@.len()),
            r.1 ==> final(self)@ == old(self)@.skip(first_sentinel(old(self)@) + 1),
            !r.1 ==> final(self)@.len() == 0,
    {
        let mut forwarded: Vec<ElevatorTask> = Vec::new();
        loop
            invariant
                self.wf(),
                forwarded@.len() <= old(self)@.len(),
                forwarded@ =~= old(self)@.take(forwarded@.len() as int),
                self@ =~= old(self)@.skip(forwarded@.len() as int),
                forall|i: int|
                    0 <= i < forwarded@.len() ==> (#[trigger] old(self)@[i]).task_status
                        != TaskType::Stop,
            decreases self@.len(),
        {
            let ghost j: int = forwarded@.len() as int;
            match self.pop_min() {
                None => {
                    proof {
                        lemma_first_sentinel_at(old(self)@, j);
                        assert(forwarded@ =~= old(self)@.take(first_sentinel(old(self)@)));
                    }
                    return (forwarded, false);
                },
                Some(t) => {
                    proof {
                        assert(t == old(self)@[j]);
                    }
                    if t.is_sentinel() {
                        proof {
                            lemma_first_sentinel_at(old(self)@, j);
                            assert(self@ =~= old(self)@.skip(j + 1));
                        }
                        return (forwarded, true);
                    }
                    forwarded.push(t);
                    proof {
                        assert(forwarded@ =~= old(self)@.take(j + 1));
                        assert(self@ =~= old(self)@.skip(j + 1));
                    }
                },
            }
        }
    }
}

} // verus!
