//! The bounded worker-pool dispatcher, as a state machine over plain values.
//!
//! A pool owns a FIFO queue of job identifiers and a fixed set of workers.
//! Jobs enter through `submit` and are never rejected: when every worker is
//! busy, a job simply waits in the queue (backpressure). A worker takes the
//! job at the head of the queue, runs it, and reports completion; once
//! shutdown has begun and the queue has drained, idle workers terminate.
//! The well-formedness invariant pins the accounting down: every submitted
//! job is in exactly one place — waiting, running on exactly one worker, or
//! executed exactly once. The loop that drives these transitions from real
//! threads lives outside the library; each step it takes goes through one
//! of the contracted operations below.

use vstd::prelude::*;

verus! {

/// What one worker is doing: waiting for a job, running the job with the
/// given identifier, or terminated after shutdown.
#[derive(Clone, Copy, Debug, PartialEq, Eq, Structural)]
pub enum WorkerState {
    Idle,
    Running(u64),
    Terminated,
}

/// The one configuration error a pool can be constructed with.
#[derive(Clone, Copy, Debug, PartialEq, Eq, Structural)]
pub enum PoolError {
    /// A pool of zero workers could never run a job.
    ZeroSize,
}

/// How many times `id` occurs in a sequence of job identifiers.
pub open spec fn count_ids(s: Seq<u64>, id: u64) -> nat
    decreases s.len(),
{
    if s.len() == 0 {
        0
    } else {
        (if s[0] == id {
            1nat
        } else {
            0nat
        }) + count_ids(s.drop_first(), id)
    }
}

/// How many workers are currently running the job `id`.
pub open spec fn count_running(ws: Seq<WorkerState>, id: u64) -> nat
    decreases ws.len(),
{
    if ws.len() == 0 {
        0
    } else {
        (if ws[0] == WorkerState::Running(id) {
            1nat
        } else {
            0nat
        }) + count_running(ws.drop_first(), id)
    }
}

proof fn lemma_count_ids_push(s: Seq<u64>, v: u64, id: u64)
    ensures
        count_ids(s.push(v), id) == count_ids(s, id) + (if v == id {
            1nat
        } else {
            0nat
        }),
    decreases s.len(),
{
    if s.len() == 0 {
        assert(s.push(v)[0] == v);
        assert(s.push(v).drop_first() =~= Seq::<u64>::empty());
        assert(count_ids(Seq::<u64>::empty(), id) == 0);
        assert(count_ids(s.push(v), id) == (if v == id {
            1nat
        } else {
            0nat
        }));
    } else {
        assert(s.push(v)[0] == s[0]);
        assert(s.push(v).drop_first() =~= s.drop_first().push(v));
        lemma_count_ids_push(s.drop_first(), v, id);
    }
}

proof fn lemma_count_running_update(ws: Seq<WorkerState>, j: int, v: WorkerState, id: u64)
    requires
        0 <= j < ws.len(),
    ensures
        count_running(ws.update(j, v), id) as int == count_running(ws, id) as int - (if ws[j]
            == WorkerState::Running(id) {
            1int
        } else {
            0int
        }) + (if v == WorkerState::Running(id) {
            1int
        } else {
            0int
        }),
    decreases ws.len(),
{
    if j == 0 {
        assert(ws.update(0, v).drop_first() =~= ws.drop_first());
    } else {
        assert(ws.update(j, v).drop_first() =~= ws.drop_first().update(j - 1, v));
        lemma_count_running_update(ws.drop_first(), j - 1, v, id);
    }
}

proof fn lemma_count_running_zero(ws: Seq<WorkerState>, id: u64)
    requires
        forall|i: int| 0 <= i < ws.len() ==> ws[i] != WorkerState::Running(id),
    ensures
        count_running(ws, id) == 0,
    decreases ws.len(),
{
    if ws.len() > 0 {
        lemma_count_running_zero(ws.drop_first(), id);
    }
}

proof fn lemma_count_ids_remove(s: Seq<u64>, i: int, id: u64)
    requires
        0 <= i < s.len(),
    ensures
        count_ids(s.remove(i), id) as int == count_ids(s, id) as int - (if s[i] == id {
            1int
        } else {
            0int
        }),
    decreases s.len(),
{
    if i == 0 {
        assert(s.remove(0) =~= s.drop_first());
    } else {
        assert(s.remove(i)[0] == s[0]);
        assert(s.remove(i).drop_first() =~= s.drop_first().remove(i - 1));
        lemma_count_ids_remove(s.drop_first(), i - 1, id);
    }
}

proof fn lemma_count_pos_has_index(s: Seq<u64>, id: u64)
    requires
        count_ids(s, id) >= 1,
    ensures
        exists|i: int| 0 <= i < s.len() && s[i] == id,
    decreases s.len(),
{
    if s[0] == id {
        assert(0 <= 0 < s.len() && s[0] == id);
    } else {
        lemma_count_pos_has_index(s.drop_first(), id);
        let i = choose|i: int| 0 <= i < s.drop_first().len() && s.drop_first()[i] == id;
        assert(0 <= i + 1 < s.len() && s[i + 1] == id);
    }
}

/// A sequence in which every identifier below `n` occurs exactly once and
/// every other identifier not at all has exactly `n` elements.
proof fn lemma_exact_cover_len(s: Seq<u64>, n: u64)
    requires
        forall|id: u64| id < n ==> count_ids(s, id) == 1,
        forall|id: u64| id >= n ==> count_ids(s, id) == 0,
    ensures
        s.len() == n,
    decreases n,
{
    if n == 0 {
        if s.len() > 0 {
            assert(count_ids(s, s[0]) >= 1);
        }
    } else {
        let last = (n - 1) as u64;
        assert(count_ids(s, last) == 1);
        lemma_count_pos_has_index(s, last);
        let i = choose|i: int| 0 <= i < s.len() && s[i] == last;
        let rest = s.remove(i);
        assert forall|id: u64| id < last implies count_ids(rest, id) == 1 by {
            lemma_count_ids_remove(s, i, id);
        }
        assert forall|id: u64| id >= last implies count_ids(rest, id) == 0 by {
            lemma_count_ids_remove(s, i, id);
        }
        lemma_exact_cover_len(rest, last);
    }
}

/// The dispatcher. The pool size is fixed at construction; `submit` hands a
/// fresh job identifier to the queue; workers drain the queue one job at a
/// time; after `begin_shutdown`, no further submission is allowed and idle
/// workers retire once the queue is empty.
#[derive(Debug)]
pub struct ThreadPool {
    /// The fixed number of workers.
    pub size: usize,
    /// Identifiers of submitted jobs not yet taken by a worker, oldest first.
    pub queue: Vec<u64>,
    /// One entry per worker.
    pub workers: Vec<WorkerState>,
    /// Identifiers of completed jobs, in order of completion.
    pub executed: Vec<u64>,
    /// The identifier the next submission will get; all smaller ones are
    /// already submitted.
    pub next_id: u64,
    /// Whether shutdown has begun; it is never undone.
    pub shutting_down: bool,
}

impl ThreadPool {
    /// How many places the job `id` currently occupies over the whole pool.
    pub open spec fn occurrences(self, id: u64) -> nat {
        count_ids(self.queue@, id) + count_running(self.workers@, id) + count_ids(
            self.executed@,
            id,
        )
    }

    /// Whether some worker has terminated.
    pub open spec fn any_terminated(self) -> bool {
        exists|i: int| 0 <= i < self.workers@.len() && self.workers@[i] is Terminated
    }

    /// The pool's invariant: a fixed, positive number of workers; every
    /// submitted job in exactly one place, every other identifier nowhere;
    /// the queue FIFO, holding exactly the most recently submitted jobs in
    /// submission order; and workers terminate only during shutdown, after
    /// the queue has drained.
    pub open spec fn wf(self) -> bool {
        &&& self.workers@.len() == self.size
        &&& self.size >= 1
        &&& (forall|id: u64| id < self.next_id ==> #[trigger] self.occurrences(id) == 1)
        &&& (forall|id: u64| id >= self.next_id ==> #[trigger] self.occurrences(id) == 0)
        &&& (forall|i: int|
            0 <= i < self.queue@.len() ==> #[trigger] self.queue@[i] as int == self.next_id
                - self.queue@.len() + i)
        &&& (self.any_terminated() ==> self.shutting_down && self.queue@.len() == 0)
    }

    /// Constructs a pool of `size` idle workers with an empty queue. A size
    /// of zero is a configuration error, reported rather than coerced.
    pub fn new(size: usize) -> (r: Result<ThreadPool, PoolError>)
        ensures
            match r {
                Ok(p) => {
                    &&& size >= 1
                    &&& p.wf()
                    &&& p.size == size
                    &&& p.queue@ == Seq::<u64>::empty()
                    &&& p.workers@ == Seq::new(size as nat, |i: int| WorkerState::Idle)
                    &&& p.executed@ == Seq::<u64>::empty()
                    &&& p.next_id == 0
                    &&& !p.shutting_down
                },
                Err(e) => size == 0 && e == PoolError::ZeroSize,
            },
    {
        if size == 0 {
            return Err(PoolError::ZeroSize);
        }
        let mut workers: Vec<WorkerState> = Vec::new();
        let mut i: usize = 0;
        while i < size
            invariant
                i <= size,
                workers@ == Seq::new(i as nat, |k: int| WorkerState::Idle),
            decreases size - i,
        {
            workers.push(WorkerState::Idle);
            i = i + 1;
            proof {
                assert(workers@ =~= Seq::new(i as nat, |k: int| WorkerState::Idle));
            }
        }
        let p = ThreadPool {
            size,
            queue: Vec::new(),
            workers,
            executed: Vec::new(),
            next_id: 0,
            shutting_down: false,
        };
        proof {
            assert forall|id: u64| #[trigger] p.occurrences(id) == 0 by {
                lemma_count_running_zero(p.workers@, id);
            }
        }
        Ok(p)
    }

    /// Accepts a job, returning its fresh identifier. Submission never
    /// blocks on the workers and is never rejected while the pool is open:
    /// the job goes to the back of the queue whatever the workers are
    /// doing, and everything already in the pool stays where it was.
    pub fn submit(&mut self) -> (id: u64)
        requires
            old(self).wf(),
            !old(self).shutting_down,
            old(self).next_id < u64::MAX,
        ensures
            final(self).wf(),
            id == old(self).next_id,
            final(self).queue@ == old(self).queue@.push(id),
            final(self).workers == old(self).workers,
            final(self).executed == old(self).executed,
            final(self).next_id == old(self).next_id + 1,
            final(self).size == old(self).size,
            !final(self).shutting_down,
    {
        let id = self.next_id;
        self.queue.push(id);
        self.next_id = self.next_id + 1;
        proof {
            assert forall|id0: u64| #[trigger] self.occurrences(id0) == old(self).occurrences(id0)
                + (if id0 == id {
                1nat
            } else {
                0nat
            }) by {
                lemma_count_ids_push(old(self).queue@, id, id0);
            }
            assert(old(self).occurrences(id) == 0);
        }
        id
    }

    /// A worker that is idle takes the job at the head of the queue and
    /// starts running it.
    pub fn take_job(&mut self, w: usize) -> (id: u64)
        requires
            old(self).wf(),
            w < old(self).workers@.len(),
            old(self).workers@[w as int] is Idle,
            old(self).queue@.len() > 0,
        ensures
            final(self).wf(),
            id == old(self).queue@[0],
            final(self).queue@ == old(self).queue@.drop_first(),
            final(self).workers@ == old(self).workers@.update(w as int, WorkerState::Running(id)),
            final(self).executed == old(self).executed,
            final(self).next_id == old(self).next_id,
            final(self).size == old(self).size,
            final(self).shutting_down == old(self).shutting_down,
    {
        let id = self.queue.remove(0);
        self.workers[w] = WorkerState::Running(id);
        proof {
            assert(self.queue@ =~= old(self).queue@.drop_first());
            assert forall|id0: u64| #[trigger] self.occurrences(id0) == old(self).occurrences(
                id0,
            ) by {
                lemma_count_running_update(
                    old(self).workers@,
                    w as int,
                    WorkerState::Running(id),
                    id0,
                );
                assert(count_ids(old(self).queue@, id0) == (if old(self).queue@[0] == id0 {
                    1nat
                } else {
                    0nat
                }) + count_ids(old(self).queue@.drop_first(), id0));
            }
            assert(!self.any_terminated()) by {
                if self.any_terminated() {
                    let i = choose|i: int|
                        0 <= i < self.workers@.len() && self.workers@[i] is Terminated;
                    assert(old(self).workers@[i] is Terminated);
                    assert(old(self).any_terminated());
                }
            }
        }
        id
    }

    /// A worker that finished the job it was running reports completion and
    /// becomes idle again; the job is recorded as executed.
    pub fn finish_job(&mut self, w: usize) -> (id: u64)
        requires
            old(self).wf(),
            w < old(self).workers@.len(),
            old(self).workers@[w as int] is Running,
        ensures
            final(self).wf(),
            old(self).workers@[w as int] == WorkerState::Running(id),
            final(self).workers@ == old(self).workers@.update(w as int, WorkerState::Idle),
            final(self).executed@ == old(self).executed@.push(id),
            final(self).queue == old(self).queue,
            final(self).next_id == old(self).next_id,
            final(self).size == old(self).size,
            final(self).shutting_down == old(self).shutting_down,
    {
        let id = match self.workers[w] {
            WorkerState::Running(j) => j,
            _ => vstd::pervasive::unreached(),
        };
        self.workers[w] = WorkerState::Idle;
        self.executed.push(id);
        proof {
            assert forall|id0: u64| #[trigger] self.occurrences(id0) == old(self).occurrences(
                id0,
            ) by {
                lemma_count_running_update(old(self).workers@, w as int, WorkerState::Idle, id0);
                lemma_count_ids_push(old(self).executed@, id, id0);
            }
            assert(self.any_terminated() ==> self.shutting_down && self.queue@.len() == 0) by {
                if self.any_terminated() {
                    let i = choose|i: int|
                        0 <= i < self.workers@.len() && self.workers@[i] is Terminated;
                    assert(old(self).workers@[i] is Terminated);
                    assert(old(self).any_terminated());
                }
            }
        }
        id
    }

    /// Begins shutdown: from here on no job may be submitted. Everything
    /// already in the pool is untouched and will still be run.
    pub fn begin_shutdown(&mut self)
        requires
            old(self).wf(),
        ensures
            final(self).wf(),
            final(self).shutting_down,
            final(self).queue == old(self).queue,
            final(self).workers == old(self).workers,
            final(self).executed == old(self).executed,
            final(self).next_id == old(self).next_id,
            final(self).size == old(self).size,
    {
        self.shutting_down = true;
        proof {
            assert forall|id0: u64| #[trigger] self.occurrences(id0) == old(self).occurrences(
                id0,
            ) by {}
        }
    }

    /// During shutdown, an idle worker terminates once the queue has
    /// drained; it will never run another job.
    pub fn retire_worker(&mut self, w: usize)
        requires
            old(self).wf(),
            old(self).shutting_down,
            old(self).queue@.len() == 0,
            w < old(self).workers@.len(),
            old(self).workers@[w as int] is Idle,
        ensures
            final(self).wf(),
            final(self).workers@ == old(self).workers@.update(w as int, WorkerState::Terminated),
            final(self).queue == old(self).queue,
            final(self).executed == old(self).executed,
            final(self).next_id == old(self).next_id,
            final(self).size == old(self).size,
            final(self).shutting_down,
    {
        self.workers[w] = WorkerState::Terminated;
        proof {
            assert forall|id0: u64| #[trigger] self.occurrences(id0) == old(self).occurrences(
                id0,
            ) by {
                lemma_count_running_update(
                    old(self).workers@,
                    w as int,
                    WorkerState::Terminated,
                    id0,
                );
            }
        }
    }
}

/// Law: a submitted job sits in exactly one place — the queue, one worker,
/// or the record of executed jobs. Nothing is lost and nothing is
/// duplicated while the pool is well formed.
pub proof fn lemma_job_conserved(p: ThreadPool, id: u64)
    requires
        p.wf(),
        id < p.next_id,
    ensures
        p.occurrences(id) == 1,
{
}

/// Law: no job is ever executed more than once, submitted or not.
pub proof fn lemma_executed_at_most_once(p: ThreadPool, id: u64)
    requires
        p.wf(),
    ensures
        count_ids(p.executed@, id) <= 1,
{
    if id < p.next_id {
        assert(p.occurrences(id) == 1);
    } else {
        assert(p.occurrences(id) == 0);
    }
}

/// Law: a submitted job that is no longer waiting and no longer running has
/// been executed, exactly once.
pub proof fn lemma_no_loss(p: ThreadPool, id: u64)
    requires
        p.wf(),
        id < p.next_id,
        count_ids(p.queue@, id) == 0,
        count_running(p.workers@, id) == 0,
    ensures
        count_ids(p.executed@, id) == 1,
{
    assert(p.occurrences(id) == 1);
}

/// Law: FIFO. The queue holds the waiting jobs in submission order — the
/// identifier at the head is the oldest — so `take_job`, which takes the
/// head, always serves the longest-waiting job first.
pub proof fn lemma_fifo_order(p: ThreadPool, i: int, j: int)
    requires
        p.wf(),
        0 <= i < j < p.queue@.len(),
    ensures
        p.queue@[i] < p.queue@[j],
{
}

/// Law: clean join. Once every worker has terminated, the queue is empty
/// and the executed record holds every job ever submitted exactly once and
/// nothing else — it is a permutation of the submitted identifiers, so in
/// particular as long as their number.
pub proof fn lemma_clean_join(p: ThreadPool)
    requires
        p.wf(),
        forall|i: int| 0 <= i < p.workers@.len() ==> p.workers@[i] is Terminated,
    ensures
        p.queue@.len() == 0,
        forall|id: u64| id < p.next_id ==> count_ids(p.executed@, id) == 1,
        forall|id: u64| id >= p.next_id ==> count_ids(p.executed@, id) == 0,
        p.executed@.len() == p.next_id,
{
    assert(p.workers@[0] is Terminated);
    assert(p.any_terminated());
    assert forall|id: u64| id < p.next_id implies count_ids(p.executed@, id) == 1 by {
        lemma_count_running_zero(p.workers@, id);
        assert(p.occurrences(id) == 1);
    }
    assert forall|id: u64| id >= p.next_id implies count_ids(p.executed@, id) == 0 by {
        lemma_count_running_zero(p.workers@, id);
        assert(p.occurrences(id) == 0);
    }
    lemma_exact_cover_len(p.executed@, p.next_id);
}

} // verus!
