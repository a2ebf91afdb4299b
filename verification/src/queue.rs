//! The multi-level work queue: four discrete priority levels, each an
//! independent FIFO list, with push-to-tail and pop-from-head as the only
//! operations.
//!
//! Dequeue scans levels from highest to lowest and pops the head of the
//! first non-empty one; starvation of lower levels is a deliberate trade-off
//! favouring urgent traffic. Entries are snapshots of a Job at enqueue time:
//! the dispatch loop treats them as a work signal and re-reads the
//! authoritative records before acting.

use vstd::prelude::*;
use vstd::std_specs::vec::vec_index_mut;

use crate::job::Job;

verus! {

/// The number of discrete priority levels; level 0 is the lowest.
pub const QUEUE_LEVELS: usize = 4;

/// The queue's mathematical model: one job sequence per level, head first.
pub type QueueModel = Seq<Seq<Job>>;

/// Enqueueing appends the snapshot to the tail of its level.
pub open spec fn spec_enqueue(q: QueueModel, j: Job, level: int) -> QueueModel {
    q.update(level, q[level].push(j))
}

/// The level the next dequeue pops from: the highest non-empty one.
pub open spec fn spec_dequeue_level(q: QueueModel) -> Option<int> {
    if q[3].len() > 0 {
        Some(3)
    } else if q[2].len() > 0 {
        Some(2)
    } else if q[1].len() > 0 {
        Some(1)
    } else if q[0].len() > 0 {
        Some(0)
    } else {
        None
    }
}

/// How many snapshots the queue holds over all levels.
pub open spec fn spec_queue_size(q: QueueModel) -> int {
    q[0].len() + q[1].len() + q[2].len() + q[3].len() as int
}

/// A multi-level FIFO queue of job snapshots.
#[derive(Debug)]
pub struct JobQueue {
    levels: Vec<Vec<Job>>,
}

impl View for JobQueue {
    type V = QueueModel;

    closed spec fn view(&self) -> QueueModel {
        self.levels@.map_values(|l: Vec<Job>| l@)
    }
}

impl JobQueue {
    /// Structural invariant: exactly `QUEUE_LEVELS` levels.
    pub open spec fn wf(&self) -> bool {
        self@.len() == QUEUE_LEVELS
    }

    /// An empty queue.
    pub fn new() -> (q: JobQueue)
        ensures
            q.wf(),
            forall|i: int| 0 <= i < QUEUE_LEVELS ==> q@[i] == Seq::<Job>::empty(),
            spec_queue_size(q@) == 0,
    {
        let mut levels: Vec<Vec<Job>> = Vec::new();
        levels.push(Vec::new());
        levels.push(Vec::new());
        levels.push(Vec::new());
        levels.push(Vec::new());
        let q = JobQueue { levels };
        proof {
            assert forall|i: int| 0 <= i < QUEUE_LEVELS implies q@[i] == Seq::<Job>::empty() by {
                assert(q@[i] == levels@[i]@);
            }
        }
        q
    }

    /// How many snapshots are queued over all levels.
    pub fn len(&self) -> (r: usize)
        requires
            self.wf(),
            spec_queue_size(self@) <= usize::MAX,
        ensures
            r == spec_queue_size(self@),
    {
        self.levels[0].len() + self.levels[1].len() + self.levels[2].len() + self.levels[3].len()
    }

    /// Pushes a snapshot to the tail of the list for its level.
    pub fn enqueue(&mut self, job: Job, level: usize)
        requires
            old(self).wf(),
            level < QUEUE_LEVELS,
        ensures
            final(self).wf(),
            final(self)@ == spec_enqueue(old(self)@, job, level as int),
            final(self)@[level as int] == old(self)@[level as int].push(job),
            forall|i: int|
                0 <= i < QUEUE_LEVELS && i != level ==> final(self)@[i] == old(self)@[i],
            spec_queue_size(final(self)@) == spec_queue_size(old(self)@) + 1,
    {
        let lvl = vec_index_mut(&mut self.levels, level);
        lvl.push(job);
        proof {
            assert(self@ =~= spec_enqueue(old(self)@, job, level as int));
        }
    }

    /// Pops the head of the highest non-empty level, or nothing when every
    /// level is empty.
    pub fn dequeue(&mut self) -> (r: Option<Job>)
        requires
            old(self).wf(),
        ensures
            final(self).wf(),
            match r {
                None => {
                    &&& spec_dequeue_level(old(self)@) is None
                    &&& *final(self) == *old(self)
                    &&& spec_queue_size(old(self)@) == 0
                },
                Some(j) => {
                    &&& spec_dequeue_level(old(self)@) matches Some(l)
                    &&& j == old(self)@[spec_dequeue_level(old(self)@)->Some_0][0]
                    &&& final(self)@[spec_dequeue_level(old(self)@)->Some_0] == old(
                        self,
                    )@[spec_dequeue_level(old(self)@)->Some_0].drop_first()
                    &&& forall|i: int|
                        0 <= i < QUEUE_LEVELS && i != spec_dequeue_level(old(self)@)->Some_0
                            ==> final(self)@[i] == old(self)@[i]
                    &&& spec_queue_size(final(self)@) == spec_queue_size(old(self)@) - 1
                },
            },
    {
        if self.levels[3].len() > 0 {
            let lvl = vec_index_mut(&mut self.levels, 3);
            let j = lvl.remove(0);
            proof {
                assert(self@[3] =~= old(self)@[3].drop_first());
            }
            return Some(j);
        }
        if self.levels[2].len() > 0 {
            let lvl = vec_index_mut(&mut self.levels, 2);
            let j = lvl.remove(0);
            proof {
                assert(self@[2] =~= old(self)@[2].drop_first());
            }
            return Some(j);
        }
        if self.levels[1].len() > 0 {
            let lvl = vec_index_mut(&mut self.levels, 1);
            let j = lvl.remove(0);
            proof {
                assert(self@[1] =~= old(self)@[1].drop_first());
            }
            return Some(j);
        }
        if self.levels[0].len() > 0 {
            let lvl = vec_index_mut(&mut self.levels, 0);
            let j = lvl.remove(0);
            proof {
                assert(self@[0] =~= old(self)@[0].drop_first());
            }
            return Some(j);
        }
        None
    }
}

/// Strict priority: whenever a level is non-empty, the next dequeue pops
/// from it or from a higher level — never from a lower one. In particular,
/// for two non-empty levels the higher goes first.
pub proof fn lemma_dequeue_prefers_higher_level(q: QueueModel, l1: int, l2: int)
    requires
        0 <= l2 < l1 < QUEUE_LEVELS,
        q[l1].len() > 0,
    ensures
        spec_dequeue_level(q) matches Some(l) && l1 <= l < QUEUE_LEVELS,
        spec_dequeue_level(q) != Some(l2),
{
}

/// Round trip: an enqueued snapshot sits at the tail of its level, exactly
/// as enqueued — same identifier, same priority position — and on an
/// otherwise empty queue the very next dequeue yields it unchanged.
pub proof fn lemma_enqueue_dequeue_round_trip(q: QueueModel, j: Job, level: int)
    requires
        q.len() == QUEUE_LEVELS,
        0 <= level < QUEUE_LEVELS,
    ensures
        spec_enqueue(q, j, level)[level].last() == j,
        spec_enqueue(q, j, level)[level].len() == q[level].len() + 1,
        spec_queue_size(q) == 0 ==> {
            &&& spec_dequeue_level(spec_enqueue(q, j, level)) == Some(level)
            &&& spec_enqueue(q, j, level)[level][0] == j
        },
{
    let q1 = spec_enqueue(q, j, level);
    assert(q1[level] == q[level].push(j));
    if spec_queue_size(q) == 0 {
        assert(q[0].len() == 0 && q[1].len() == 0 && q[2].len() == 0 && q[3].len() == 0);
        assert(q1[level][0] == j);
    }
}

/// FIFO within a level: a dequeue takes exactly the head of the level it
/// pops from and leaves the rest of that level, and every other level, in
/// order; an enqueue appends at the tail and touches nothing else. Together
/// these keep every level in insertion order.
pub proof fn lemma_fifo_discipline(q: QueueModel, j: Job, level: int)
    requires
        q.len() == QUEUE_LEVELS,
        0 <= level < QUEUE_LEVELS,
    ensures
        forall|i: int|
            0 <= i < q[level].len() ==> spec_enqueue(q, j, level)[level][i] == q[level][i],
        spec_dequeue_level(q) matches Some(l) ==> q[l].len() > 0,
{
}

} // verus!
