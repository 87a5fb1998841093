//! The worker pool: an unbounded intake queue in front of a bounded set of
//! running jobs. The pool decides which job runs next; the caller runs it and
//! reports when it has ended.

use crate::text::{position, texts};
use vstd::prelude::*;

verus! {

/// What a [`WorkerPool`] holds, as plain values.
pub struct PoolView {
    /// The number of permits.
    pub capacity: nat,
    /// The submitted ids that wait for their turn, oldest first.
    pub intake: Seq<Seq<char>>,
    /// The ids whose job holds a permit.
    pub active: Seq<Seq<char>>,
}

/// The first position at or after `from` whose id has no running job.
pub open spec fn first_free(intake: Seq<Seq<char>>, active: Seq<Seq<char>>, from: int) -> Option<int>
    decreases intake.len() - from,
{
    if from < 0 || from >= intake.len() {
        None
    } else if !active.contains(intake[from]) {
        Some(from)
    } else {
        first_free(intake, active, from + 1)
    }
}

impl PoolView {
    /// No id has two running jobs, and the running jobs fit the permits.
    pub open spec fn wf(self) -> bool {
        self.active.no_duplicates() && self.active.len() <= self.capacity
    }

    pub open spec fn empty(capacity: nat) -> PoolView {
        PoolView { capacity, intake: Seq::empty(), active: Seq::empty() }
    }

    /// A submission only joins the intake queue.
    pub open spec fn submit(self, id: Seq<char>) -> PoolView {
        PoolView { intake: self.intake.push(id), ..self }
    }

    /// With a free permit, the oldest submission whose id is not running
    /// leaves the intake queue and starts to run; a submission of a running id
    /// keeps its place and waits for that run to end.
    pub open spec fn dispatch(self) -> (PoolView, Option<Seq<char>>) {
        if self.active.len() >= self.capacity {
            (self, None)
        } else {
            match first_free(self.intake, self.active, 0) {
                None => (self, None),
                Some(k) => (
                    PoolView {
                        intake: self.intake.remove(k),
                        active: self.active.push(self.intake[k]),
                        ..self
                    },
                    Some(self.intake[k]),
                ),
            }
        }
    }

    /// The end of a job gives its permit back.
    pub open spec fn finish(self, id: Seq<char>) -> PoolView {
        if self.active.contains(id) {
            PoolView { active: self.active.remove(self.active.index_of(id)), ..self }
        } else {
            self
        }
    }
}

/// The dispatcher's state. A pool is made by [`WorkerPool::new`] and changed
/// by its own operations only, each of which keeps [`PoolView::wf`].
#[derive(Clone, Debug)]
pub struct WorkerPool {
    max_concurrent: usize,
    intake: Vec<String>,
    active: Vec<String>,
}

impl View for WorkerPool {
    type V = PoolView;

    closed spec fn view(&self) -> PoolView {
        PoolView {
            capacity: self.max_concurrent as nat,
            intake: texts(self.intake@),
            active: texts(self.active@),
        }
    }
}

impl WorkerPool {
    /// A pool with `max_concurrent` permits and nothing submitted.
    pub fn new(max_concurrent: usize) -> (pool: WorkerPool)
        ensures
            pool@ == PoolView::empty(max_concurrent as nat),
            pool@.wf(),
    {
        let pool = WorkerPool { max_concurrent, intake: Vec::new(), active: Vec::new() };
        assert(pool@.intake =~= Seq::empty());
        assert(pool@.active =~= Seq::empty());
        pool
    }

    /// Accepts a job id. Never blocks and never refuses.
    pub fn submit(&mut self, id: String)
        requires
            old(self)@.wf(),
        ensures
            final(self)@ == old(self)@.submit(id@),
            final(self)@.wf(),
    {
        self.intake.push(id);
        assert(self@.intake =~= old(self)@.intake.push(id@));
    }

    /// Picks the job to run next, if a permit is free and a submission can
    /// run. The caller starts that job and calls [`Self::finish`] when it ends.
    pub fn dispatch(&mut self) -> (next: Option<String>)
        requires
            old(self)@.wf(),
        ensures
            (final(self)@, crate::progress::opt_text(next)) == old(self)@.dispatch(),
            final(self)@.wf(),
    {
        if self.active.len() >= self.max_concurrent {
            return None;
        }
        let mut k: usize = 0;
        while k < self.intake.len()
            invariant
                k <= self.intake.len(),
                *self == *old(self),
                self@.wf(),
                self.active.len() < self.max_concurrent,
                first_free(self@.intake, self@.active, 0) == first_free(
                    self@.intake,
                    self@.active,
                    k as int,
                ),
            decreases self.intake.len() - k,
        {
            match position(&self.active, self.intake[k].as_str()) {
                None => {
                    let id = self.intake.remove(k);
                    let picked = id.clone();
                    proof {
                        assert(texts(self.intake@) =~= old(self)@.intake.remove(k as int));
                        let before = old(self)@.active;
                        assert forall|i: int, j: int|
                            0 <= i < before.len() + 1 && 0 <= j < before.len() + 1 && i
                                != j implies before.push(id@)[i] != before.push(id@)[j] by {
                            if i == before.len() {
                                assert(before[j] != id@);
                            } else if j == before.len() {
                                assert(before[i] != id@);
                            }
                        }
                    }
                    self.active.push(id);
                    assert(texts(self.active@) =~= old(self)@.active.push(picked@));
                    return Some(picked);
                },
                Some(_) => {
                    assert(self@.active.contains(self@.intake[k as int]));
                },
            }
            k += 1;
        }
        None
    }

    /// Records that the job of `id` has ended and frees its permit. Returns
    /// whether such a job was running.
    pub fn finish(&mut self, id: &str) -> (was_running: bool)
        requires
            old(self)@.wf(),
        ensures
            final(self)@ == old(self)@.finish(id@),
            was_running == old(self)@.active.contains(id@),
            !final(self)@.active.contains(id@),
            final(self)@.wf(),
    {
        match position(&self.active, id) {
            None => false,
            Some(i) => {
                let ghost before = self@.active;
                assert(before[i as int] == id@);
                assert(before.contains(id@));
                assert(before.index_of(id@) == i as int);
                self.active.remove(i);
                proof {
                    let after = texts(self.active@);
                    assert(after =~= before.remove(i as int));
                    assert forall|a: int, b: int|
                        0 <= a < after.len() && 0 <= b < after.len() && a != b implies after[a]
                        != after[b] by {
                        let a0 = if a < i { a } else { a + 1 };
                        let b0 = if b < i { b } else { b + 1 };
                        assert(after[a] == before[a0]);
                        assert(after[b] == before[b0]);
                    }
                    assert forall|a: int| 0 <= a < after.len() implies after[a] != id@ by {
                        let a0 = if a < i { a } else { a + 1 };
                        assert(after[a] == before[a0]);
                    }
                }
                true
            },
        }
    }

    /// Checks [`PoolView::wf`] at run time.
    pub fn is_well_formed(&self) -> (r: bool)
        ensures
            r == self@.wf(),
    {
        if self.active.len() > self.max_concurrent {
            return false;
        }
        let mut j: usize = 0;
        while j < self.active.len()
            invariant
                j <= self.active.len(),
                forall|a: int, b: int|
                    0 <= a < b < j ==> texts(self.active@)[a] != texts(self.active@)[b],
            decreases self.active.len() - j,
        {
            let mut i: usize = 0;
            while i < j
                invariant
                    i <= j < self.active.len(),
                    forall|a: int| 0 <= a < i ==> texts(self.active@)[a] != texts(self.active@)[j as int],
                decreases j - i,
            {
                if crate::text::same_text(self.active[i].as_str(), self.active[j].as_str()) {
                    assert(self@.active[i as int] == self@.active[j as int]);
                    return false;
                }
                i += 1;
            }
            j += 1;
        }
        assert(self@.active.no_duplicates()) by {
            assert forall|a: int, b: int|
                0 <= a < self@.active.len() && 0 <= b < self@.active.len() && a
                    != b implies self@.active[a] != self@.active[b] by {
                if a < b {
                    assert(texts(self.active@)[a] != texts(self.active@)[b]);
                } else {
                    assert(texts(self.active@)[b] != texts(self.active@)[a]);
                }
            }
        }
        true
    }

    /// The number of permits.
    pub fn capacity(&self) -> (n: usize)
        ensures
            n == self@.capacity,
    {
        self.max_concurrent
    }

    /// The number of jobs that hold a permit.
    pub fn running(&self) -> (n: usize)
        ensures
            n == self@.active.len(),
    {
        self.active.len()
    }

    /// The number of submissions that wait for their turn.
    pub fn waiting(&self) -> (n: usize)
        ensures
            n == self@.intake.len(),
    {
        self.intake.len()
    }

    /// Whether a job of `id` holds a permit.
    pub fn is_running(&self, id: &str) -> (r: bool)
        ensures
            r == self@.active.contains(id@),
    {
        position(&self.active, id).is_some()
    }
}

/// Every operation of the pool keeps it well-formed: at no time does an id
/// have two running jobs, nor do the running jobs exceed the permits.
pub proof fn lemma_pool_keeps_wf(pool: PoolView, id: Seq<char>)
    requires
        pool.wf(),
    ensures
        pool.submit(id).wf(),
        pool.dispatch().0.wf(),
        pool.finish(id).wf(),
        PoolView::empty(pool.capacity).wf(),
{
    lemma_first_free(pool.intake, pool.active, 0);
    if let Some(k) = first_free(pool.intake, pool.active, 0) {
        let picked = pool.intake[k];
        let before = pool.active;
        assert forall|i: int, j: int|
            0 <= i < before.len() + 1 && 0 <= j < before.len() + 1 && i != j implies before.push(
            picked,
        )[i] != before.push(picked)[j] by {
            if i == before.len() {
                assert(before[j] != picked);
            } else if j == before.len() {
                assert(before[i] != picked);
            }
        }
    }
    if pool.active.contains(id) {
        let i = pool.active.index_of(id);
        let before = pool.active;
        let after = before.remove(i);
        assert forall|a: int, b: int|
            0 <= a < after.len() && 0 <= b < after.len() && a != b implies after[a]
            != after[b] by {
            let a0 = if a < i { a } else { a + 1 };
            let b0 = if b < i { b } else { b + 1 };
            assert(after[a] == before[a0]);
            assert(after[b] == before[b0]);
        }
    }
}

/// What [`first_free`] finds is the oldest submission whose id is not
/// running, and it finds one whenever there is one.
pub proof fn lemma_first_free(intake: Seq<Seq<char>>, active: Seq<Seq<char>>, from: int)
    requires
        0 <= from,
    ensures
        match first_free(intake, active, from) {
            Some(k) => from <= k < intake.len() && !active.contains(intake[k]) && forall|j: int|
                from <= j < k ==> active.contains(#[trigger] intake[j]),
            None => forall|j: int|
                from <= j < intake.len() ==> active.contains(#[trigger] intake[j]),
        },
    decreases intake.len() - from,
{
    if from < intake.len() && active.contains(intake[from]) {
        lemma_first_free(intake, active, from + 1);
    }
}

/// A job is started only for an id that is not running, and only while a
/// permit is free; its id then is running.
pub proof fn lemma_dispatch_starts_fresh(pool: PoolView)
    requires
        pool.wf(),
    ensures
        match pool.dispatch().1 {
            Some(id) => !pool.active.contains(id) && pool.active.len() < pool.capacity
                && pool.intake.contains(id) && pool.dispatch().0.active.contains(id)
                && pool.dispatch().0.active.len() == pool.active.len() + 1
                && pool.dispatch().0.intake.len() == pool.intake.len() - 1,
            None => pool.dispatch().0 == pool && (pool.active.len() >= pool.capacity || forall|
                j: int,
            |
                0 <= j < pool.intake.len() ==> pool.active.contains(#[trigger] pool.intake[j])),
        },
{
    lemma_first_free(pool.intake, pool.active, 0);
    if pool.active.len() < pool.capacity {
        if let Some(k) = first_free(pool.intake, pool.active, 0) {
            let next = pool.dispatch().0;
            assert(next.active[pool.active.len() as int] == pool.intake[k]);
        }
    }
}

/// With a single permit, nothing starts while a job is running.
pub proof fn lemma_single_permit_serialises(pool: PoolView)
    requires
        pool.wf(),
        pool.capacity == 1,
        pool.active.len() == 1,
    ensures
        pool.dispatch() == (pool, None::<Seq<char>>),
{
}

/// One thing that can happen to a pool.
pub enum PoolEvent {
    /// An id is submitted.
    Submit(Seq<char>),
    /// The dispatcher looks for a job to start.
    Dispatch,
    /// The job of an id reports its end.
    Finish(Seq<char>),
}

/// The pool after one event.
pub open spec fn after_event(pool: PoolView, event: PoolEvent) -> PoolView {
    match event {
        PoolEvent::Submit(id) => pool.submit(id),
        PoolEvent::Dispatch => pool.dispatch().0,
        PoolEvent::Finish(id) => pool.finish(id),
    }
}

/// The pool that began empty, after the events of `history` in order.
pub open spec fn after_history(capacity: nat, history: Seq<PoolEvent>) -> PoolView
    decreases history.len(),
{
    if history.len() == 0 {
        PoolView::empty(capacity)
    } else {
        after_event(after_history(capacity, history.drop_last()), history.last())
    }
}

/// At every instant of every history no id has two running jobs, and the
/// running jobs are no more than the permits.
pub proof fn lemma_never_two_runs_of_one_id(capacity: nat, history: Seq<PoolEvent>)
    ensures
        after_history(capacity, history).active.no_duplicates(),
        after_history(capacity, history).active.len() <= capacity,
        after_history(capacity, history).capacity == capacity,
    decreases history.len(),
{
    if history.len() == 0 {
        lemma_pool_keeps_wf(PoolView::empty(capacity), Seq::empty());
    } else {
        lemma_never_two_runs_of_one_id(capacity, history.drop_last());
        let before = after_history(capacity, history.drop_last());
        match history.last() {
            PoolEvent::Submit(id) => lemma_pool_keeps_wf(before, id),
            PoolEvent::Dispatch => lemma_pool_keeps_wf(before, Seq::empty()),
            PoolEvent::Finish(id) => lemma_pool_keeps_wf(before, id),
        }
    }
}

} // verus!
